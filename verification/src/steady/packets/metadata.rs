//! The radio metadata that follows the payload of a telemetry line.

use vstd::prelude::*;
use crate::steady::decimal::{decimal_value, parse_i16_text, read_i16_text};
use crate::steady::error::{outcome, SteadyError, SteadyErrorView};
use crate::steady::packets::framing::{metadata_text, split_wire_line};
use crate::steady::text::{chars_of, find_char, has_prefix, index_of, starts_with, trim, trimmed};

verus! {

/// The quality of the radio link at the time a packet was received.
#[derive(Debug, PartialEq, Eq, Clone, Copy)]
pub struct FluctusPacketMeta {
    pub rssi: i16,
    pub snr: i16,
}

/// The prefix of the signal strength token, `Grssi`.
pub open spec fn rssi_prefix() -> Seq<char> {
    seq!['G', 'r', 's', 's', 'i']
}

/// The prefix of the signal-to-noise token, `Gsnr`.
pub open spec fn snr_prefix() -> Seq<char> {
    seq!['G', 's', 'n', 'r']
}

/// The token that stands for a missing signal-to-noise token, `Gsnr1`.
pub open spec fn default_snr_token() -> Seq<char> {
    seq!['G', 's', 'n', 'r', '1']
}

/// The first token of `meta`: what stands before its first `/`.
pub open spec fn rssi_token(meta: Seq<char>) -> Seq<char> {
    meta.take(index_of(meta, '/'))
}

/// The second token of `meta`: what stands between its first `/` and the
/// next, or `Gsnr1` where `meta` has no `/`.
pub open spec fn snr_token(meta: Seq<char>) -> Seq<char> {
    let slash = index_of(meta, '/');
    if slash < meta.len() {
        let rest = meta.skip(slash + 1);
        rest.take(index_of(rest, '/'))
    } else {
        default_snr_token()
    }
}

/// The number of a token: what follows `prefix`, as a signed decimal of 16
/// bits. `None` where the prefix or the number is not there.
pub open spec fn token_value(token: Seq<char>, prefix: Seq<char>) -> Option<i16> {
    if starts_with(token, prefix) {
        parse_i16_text(token.skip(prefix.len() as int))
    } else {
        None
    }
}

/// What parsing the metadata `meta` gives: both numbers, or the first token
/// that is malformed.
pub open spec fn metadata_of(meta: Seq<char>) -> Result<FluctusPacketMeta, SteadyErrorView> {
    match token_value(rssi_token(meta), rssi_prefix()) {
        None => Err(SteadyErrorView::MalformedMetadata(rssi_token(meta))),
        Some(rssi) => match token_value(snr_token(meta), snr_prefix()) {
            None => Err(SteadyErrorView::MalformedMetadata(snr_token(meta))),
            Some(snr) => Ok(FluctusPacketMeta { rssi, snr }),
        },
    }
}

/// What parsing the metadata of the telemetry line `line` gives.
pub open spec fn line_metadata(line: Seq<char>) -> Result<FluctusPacketMeta, SteadyErrorView> {
    match metadata_text(trimmed(line)) {
        None => Err(SteadyErrorView::MissingMetadataSection),
        Some(meta) => metadata_of(meta),
    }
}

/// The token that stands for a missing signal-to-noise token has the number
/// one.
pub proof fn lemma_default_snr()
    ensures
        token_value(default_snr_token(), snr_prefix()) == Some(1i16),
{
    let token = default_snr_token();
    let digits = token.skip(4);
    assert(token.take(4) =~= snr_prefix());
    assert(digits =~= seq!['1']);
    assert(digits.drop_last() =~= Seq::<char>::empty());
    reveal_with_fuel(decimal_value, 3);
    assert(decimal_value(digits) == 1);
}

/// Reads the number of the token `v[lo..hi]`.
fn read_token(v: &Vec<char>, lo: usize, hi: usize, prefix: &Vec<char>) -> (r: Option<i16>)
    requires
        lo <= hi <= v.len(),
    ensures
        r == token_value(v@.subrange(lo as int, hi as int), prefix@),
{
    if !has_prefix(v, lo, hi, prefix) {
        return None;
    }
    proof {
        assert(v@.subrange(lo as int, hi as int).skip(prefix.len() as int) =~= v@.subrange(
            lo + prefix.len(),
            hi as int,
        ));
    }
    read_i16_text(v, lo + prefix.len(), hi)
}

/// Parses the metadata of a telemetry line, which is cut at `/` into tokens.
/// The first token must be `Grssi` and a number, the second `Gsnr` and a
/// number; where there is no second token, the signal-to-noise ratio is
/// one. Further tokens are not read. The error cites the malformed token.
pub fn parse_metadata(meta: &str) -> (r: Result<FluctusPacketMeta, SteadyError>)
    ensures
        outcome(r) == metadata_of(meta@),
{
    let v: Vec<char> = chars_of(meta);
    let slash: usize = find_char(&v, 0, v.len(), '/');
    proof {
        assert(v@.subrange(0, v.len() as int) =~= v@);
    }
    let rssi_prefix: Vec<char> = vec!['G', 'r', 's', 's', 'i'];
    let snr_prefix: Vec<char> = vec!['G', 's', 'n', 'r'];
    assert(rssi_prefix@ =~= self::rssi_prefix());
    assert(snr_prefix@ =~= self::snr_prefix());
    let rssi: i16 = match read_token(&v, 0, slash, &rssi_prefix) {
        Some(n) => n,
        None => {
            let token: String = meta.substring_char(0, slash).to_owned();
            return Err(SteadyError::MalformedMetadata(token));
        },
    };
    if slash == v.len() {
        proof {
            lemma_default_snr();
        }
        return Ok(FluctusPacketMeta { rssi, snr: 1 });
    }
    let next: usize = slash + 1;
    let end: usize = find_char(&v, next, v.len(), '/');
    proof {
        let rest = v@.skip(slash + 1);
        assert(rest =~= v@.subrange(next as int, v.len() as int));
        assert(rest.take(end - next) =~= v@.subrange(next as int, end as int));
    }
    match read_token(&v, next, end, &snr_prefix) {
        Some(snr) => Ok(FluctusPacketMeta { rssi, snr }),
        None => {
            let token: String = meta.substring_char(next, end).to_owned();
            Err(SteadyError::MalformedMetadata(token))
        },
    }
}

/// Parses the metadata of a telemetry line: the line is trimmed, and what
/// follows its first `|` is the metadata. A line without `|` has none.
pub fn extract_meta(code: &str) -> (r: Result<FluctusPacketMeta, SteadyError>)
    ensures
        outcome(r) == line_metadata(code@),
{
    match split_wire_line(trim(code)).1 {
        Some(meta) => parse_metadata(meta),
        None => Err(SteadyError::MissingMetadataSection),
    }
}

impl FluctusPacketMeta {
    /// Parses the metadata of a telemetry line, as `extract_meta` does.
    pub fn from_str(code: &str) -> (r: Result<FluctusPacketMeta, SteadyError>)
        ensures
            outcome(r) == line_metadata(code@),
    {
        extract_meta(code)
    }
}

impl std::str::FromStr for FluctusPacketMeta {
    type Err = SteadyError;

    fn from_str(code: &str) -> (r: Result<FluctusPacketMeta, SteadyError>)
        ensures
            outcome(r) == line_metadata(code@),
    {
        FluctusPacketMeta::from_str(code)
    }
}

} // verus!
