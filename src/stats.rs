use vstd::prelude::*;
use vstd::string::StringSliceAdditionalSpecFns;

verus! {

/// Stats are emitted on every this-many-th delivered frame.
pub const STATS_PERIOD: u64 = 30;

/// Tag that stats messages carry as `hardware_type`.
pub const HARDWARE_TYPE: &'static str = "Rust";

/// ASCII decimal digits of `n`, most significant first, without leading zeros.
pub open spec fn decimal(n: nat) -> Seq<u8>
    decreases n,
{
    if n < 10 {
        seq![(48 + n) as u8]
    } else {
        decimal(n / 10) + seq![(48 + n % 10) as u8]
    }
}

/// The compact JSON object of a stats message, given the frame count and
/// the rate already rendered with one decimal digit.
pub open spec fn stats_json(frames_processed: nat, fps_text: Seq<u8>) -> Seq<u8> {
    "{\"frames_processed\":".spec_bytes() + decimal(frames_processed) + ",\"fps\":".spec_bytes()
        + fps_text + ",\"hardware_type\":\"".spec_bytes() + HARDWARE_TYPE.spec_bytes()
        + "\"}".spec_bytes()
}

/// Four little-endian bytes of `n`.
pub open spec fn le32_bytes(n: nat) -> Seq<u8> {
    seq![(n % 256) as u8, ((n / 256) % 256) as u8, ((n / 65536) % 256) as u8, (n / 16777216) as u8]
}

/// A length-prefixed message: the body's byte length as four little-endian
/// bytes, then the body.
pub open spec fn framed(body: Seq<u8>) -> Seq<u8> {
    le32_bytes(body.len()) + body
}

/// Whether stats are due after `delivered` frames have reached the sink.
pub open spec fn stats_due(delivered: nat) -> bool {
    delivered > 0 && delivered % (STATS_PERIOD as nat) == 0
}

/// Whether stats are due after `delivered` frames have reached the sink:
/// on the 30th, 60th, 90th, ... and on no other.
pub fn is_stats_frame(delivered: u64) -> (r: bool)
    ensures
        r == stats_due(delivered as nat),
{
    delivered > 0 && delivered % STATS_PERIOD == 0
}

/// Appends the decimal digits of `n` to `out`.
pub fn push_decimal(out: &mut Vec<u8>, n: u64)
    ensures
        final(out)@ == old(out)@ + decimal(n as nat),
    decreases n,
{
    if n >= 10 {
        push_decimal(out, n / 10);
    }
    let digit: u8 = (n % 10) as u8;
    out.push(48 + digit);
    assert(final(out)@ =~= old(out)@ + decimal(n as nat)) by {
        if n < 10 {
        } else {
            assert(decimal(n as nat) == decimal((n / 10) as nat) + seq![(48 + n % 10) as u8]);
        }
    }
}

/// The JSON body of a stats message.
pub fn stats_body(frames_processed: u64, fps_text: &[u8]) -> (r: Vec<u8>)
    ensures
        r@ == stats_json(frames_processed as nat, fps_text@),
{
    let mut out: Vec<u8> = Vec::new();
    out.extend_from_slice("{\"frames_processed\":".as_bytes());
    push_decimal(&mut out, frames_processed);
    out.extend_from_slice(",\"fps\":".as_bytes());
    out.extend_from_slice(fps_text);
    out.extend_from_slice(",\"hardware_type\":\"".as_bytes());
    out.extend_from_slice(HARDWARE_TYPE.as_bytes());
    out.extend_from_slice("\"}".as_bytes());
    assert(out@ =~= stats_json(frames_processed as nat, fps_text@));
    out
}

/// Four little-endian bytes of `n`.
pub fn u32_le_bytes(n: u32) -> (r: [u8; 4])
    ensures
        r@ == le32_bytes(n as nat),
{
    let r = [(n % 256) as u8, ((n / 256) % 256) as u8, ((n / 65536) % 256) as u8, (n / 16777216) as u8];
    assert(r@ =~= le32_bytes(n as nat));
    r
}

/// Frames `body` behind its 4-byte little-endian length; `None` exactly when
/// the length does not fit in 32 bits.
pub fn frame_message(body: &[u8]) -> (r: Option<Vec<u8>>)
    ensures
        r is None <==> body@.len() > u32::MAX,
        r matches Some(m) ==> m@ == framed(body@),
{
    if body.len() > u32::MAX as usize {
        return None;
    }
    let prefix = u32_le_bytes(body.len() as u32);
    let mut out: Vec<u8> = Vec::new();
    out.extend_from_slice(prefix.as_slice());
    out.extend_from_slice(body);
    assert(out@ =~= framed(body@));
    Some(out)
}

/// The complete length-prefixed stats message for `frames_processed` frames
/// and the rate rendered as `fps_text`; `None` exactly when its body is too
/// long for a 32-bit length.
pub fn stats_message(frames_processed: u64, fps_text: &[u8]) -> (r: Option<Vec<u8>>)
    ensures
        r is None <==> stats_json(frames_processed as nat, fps_text@).len() > u32::MAX,
        r matches Some(m) ==> m@ == framed(stats_json(frames_processed as nat, fps_text@)),
{
    let body = stats_body(frames_processed, fps_text);
    frame_message(body.as_slice())
}

} // verus!
