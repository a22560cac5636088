//! The framing of a telemetry line: payload and metadata, the marker of a
//! binary packet, and hexadecimal text.

use vstd::prelude::*;
use crate::steady::error::SteadyError;
use crate::steady::text::{chars_of, find_char, index_of, trim, trimmed};

verus! {

/// What stands before the first `|` of `line`: all of `line` if it has none.
pub open spec fn payload_text(line: Seq<char>) -> Seq<char> {
    line.take(index_of(line, '|'))
}

/// What follows the first `|` of `line`, if it has one.
pub open spec fn metadata_text(line: Seq<char>) -> Option<Seq<char>> {
    let bar = index_of(line, '|');
    if bar < line.len() {
        Some(line.skip(bar + 1))
    } else {
        None
    }
}

/// The hexadecimal text of a payload: what follows the marker `FB` once the
/// whitespace around `payload` is gone. `None` where the marker is not there.
pub open spec fn payload_hex(payload: Seq<char>) -> Option<Seq<char>> {
    let p = trimmed(payload);
    if p.len() >= 2 && p[0] == 'F' && p[1] == 'B' {
        Some(p.skip(2))
    } else {
        None
    }
}

/// The hexadecimal text of the payload of `line`.
pub open spec fn line_hex(line: Seq<char>) -> Option<Seq<char>> {
    payload_hex(payload_text(trimmed(line)))
}

/// The number that the hexadecimal digit `c` stands for.
pub open spec fn hex_value(c: char) -> Option<int> {
    if '0' <= c <= '9' {
        Some(c as int - '0' as int)
    } else if 'a' <= c <= 'f' {
        Some(c as int - 'a' as int + 10)
    } else if 'A' <= c <= 'F' {
        Some(c as int - 'A' as int + 10)
    } else {
        None
    }
}

/// The byte written by the two hexadecimal digits `high` and `low`. `None`
/// where one of them is no hexadecimal digit.
pub open spec fn hex_group(high: char, low: char) -> Option<u8> {
    match (hex_value(high), hex_value(low)) {
        (Some(h), Some(l)) => Some((16 * h + l) as u8),
        _ => None,
    }
}

/// The bytes written by `hex`, two characters to a byte, from left to
/// right. A group that is no byte is passed over, and so is a last
/// character that is left without a partner.
pub open spec fn hex_to_bytes(hex: Seq<char>) -> Seq<u8>
    decreases hex.len(),
{
    if hex.len() < 2 {
        Seq::empty()
    } else {
        match hex_group(hex[0], hex[1]) {
            Some(byte) => seq![byte] + hex_to_bytes(hex.skip(2)),
            None => hex_to_bytes(hex.skip(2)),
        }
    }
}

/// Reads one hexadecimal digit.
pub fn hex_digit(c: char) -> (r: Option<u8>)
    ensures
        match r {
            Some(d) => d < 16 && hex_value(c) == Some(d as int),
            None => hex_value(c) is None,
        },
{
    if '0' <= c && c <= '9' {
        Some((c as u32 - '0' as u32) as u8)
    } else if 'a' <= c && c <= 'f' {
        Some((c as u32 - 'a' as u32 + 10) as u8)
    } else if 'A' <= c && c <= 'F' {
        Some((c as u32 - 'A' as u32 + 10) as u8)
    } else {
        None
    }
}

/// Reads the byte that two hexadecimal digits write.
pub fn hex_byte(high: char, low: char) -> (r: Option<u8>)
    ensures
        r == hex_group(high, low),
{
    match hex_digit(high) {
        Some(h) => match hex_digit(low) {
            Some(l) => Some(16 * h + l),
            None => None,
        },
        None => None,
    }
}

/// Cuts a line at its first `|` into the payload and the metadata. A line
/// without `|` is all payload and has no metadata.
pub fn split_wire_line<'a>(line: &'a str) -> (parts: (&'a str, Option<&'a str>))
    ensures
        parts.0@ == payload_text(line@),
        match metadata_text(line@) {
            Some(meta) => parts.1 matches Some(text) && text@ == meta,
            None => parts.1 is None,
        },
{
    let v: Vec<char> = chars_of(line);
    let bar: usize = find_char(&v, 0, v.len(), '|');
    proof {
        assert(v@.subrange(0, v.len() as int) =~= v@);
    }
    let payload: &str = line.substring_char(0, bar);
    if bar < v.len() {
        (payload, Some(line.substring_char(bar + 1, v.len())))
    } else {
        (payload, None)
    }
}

/// Takes the hexadecimal text out of a payload: the payload is trimmed and
/// must then begin with the marker `FB`; what follows the marker is returned.
pub fn extract_payload_hex(payload: &str) -> (r: Result<String, SteadyError>)
    ensures
        match payload_hex(payload@) {
            Some(hex) => r matches Ok(text) && text@ == hex,
            None => r == Err::<String, SteadyError>(SteadyError::UnsupportedFraming),
        },
{
    let text: &str = trim(payload);
    let v: Vec<char> = chars_of(text);
    if v.len() < 2 || v[0] != 'F' || v[1] != 'B' {
        return Err(SteadyError::UnsupportedFraming);
    }
    Ok(text.substring_char(2, v.len()).to_owned())
}

/// Takes the hexadecimal text out of a telemetry line: the line is trimmed
/// and cut at its first `|`, and the payload must carry the marker `FB`.
pub fn extract_hexbytes(code: &str) -> (r: Result<String, SteadyError>)
    ensures
        match line_hex(code@) {
            Some(hex) => r matches Ok(text) && text@ == hex,
            None => r == Err::<String, SteadyError>(SteadyError::UnsupportedFraming),
        },
{
    let (payload, _) = split_wire_line(trim(code));
    extract_payload_hex(payload)
}

/// Decodes hexadecimal text into bytes, two characters to a byte, from left
/// to right. A group that is no byte is passed over, and so is a last
/// character that is left without a partner.
pub fn convert_to_bytes(hex_str: &str) -> (bytes: Vec<u8>)
    ensures
        bytes@ == hex_to_bytes(hex_str@),
{
    let v: Vec<char> = chars_of(hex_str);
    let mut bytes: Vec<u8> = Vec::new();
    let mut i: usize = 0;
    proof {
        assert(v@.skip(0) =~= v@);
        assert(bytes@ + hex_to_bytes(v@) =~= hex_to_bytes(v@));
    }
    while v.len() - i >= 2
        invariant
            i <= v.len(),
            hex_to_bytes(v@) == bytes@ + hex_to_bytes(v@.skip(i as int)),
        decreases v.len() - i,
    {
        proof {
            let rest = v@.skip(i as int);
            assert(rest[0] == v@[i as int]);
            assert(rest[1] == v@[i + 1]);
            assert(rest.skip(2) =~= v@.skip(i + 2));
        }
        match hex_byte(v[i], v[i + 1]) {
            Some(byte) => {
                proof {
                    let rest = hex_to_bytes(v@.skip(i + 2));
                    assert(bytes@.push(byte) + rest =~= bytes@ + (seq![byte] + rest));
                }
                bytes.push(byte);
            },
            None => {},
        }
        i += 2;
    }
    proof {
        assert(bytes@ + hex_to_bytes(v@.skip(i as int)) =~= bytes@);
    }
    bytes
}

} // verus!
