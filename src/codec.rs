use vstd::prelude::*;

verus! {

/// Size of the fixed frame header: version, type, frame id, width, height.
pub const HEADER_LEN: usize = 10;

/// One RGB pixel.
#[derive(Clone, Copy, Debug, PartialEq, Eq, Structural)]
pub struct Pixel {
    pub r: u8,
    pub g: u8,
    pub b: u8,
}

/// Why a payload could not be decoded.
#[derive(Clone, Copy, Debug, PartialEq, Eq, Structural)]
pub enum FrameError {
    /// Fewer bytes than the fixed header.
    TooShort,
    /// The header declares more pixels than the payload carries.
    InsufficientPixelData,
}

/// The fixed frame header. Version, frame type and frame id are carried for
/// wire compatibility; only width and height drive decoding.
#[derive(Clone, Copy, Debug, PartialEq, Eq, Structural)]
pub struct FrameHeader {
    pub version: u8,
    pub frame_type: u8,
    pub frame_id: u32,
    pub width: u16,
    pub height: u16,
}

/// A decoded frame: its header and a view of exactly `width * height` RGB
/// triples taken from the payload.
pub struct DecodedFrame<'a> {
    pub header: FrameHeader,
    pub pixel_data: &'a [u8],
}

impl<'a> DecodedFrame<'a> {
    /// The pixel run holds exactly `width * height` RGB triples.
    pub open spec fn wf(&self) -> bool {
        self.pixel_data@.len() == 3 * (self.header.width as nat * self.header.height as nat)
    }
}

/// Little-endian value of two bytes.
pub open spec fn le16(b: Seq<u8>, at: int) -> nat {
    (b[at] as nat) + 256 * (b[at + 1] as nat)
}

/// Little-endian value of four bytes.
pub open spec fn le32(b: Seq<u8>, at: int) -> nat {
    le16(b, at) + 65536 * le16(b, at + 2)
}

/// The width a payload declares (offsets 6 and 7).
pub open spec fn declared_width(p: Seq<u8>) -> nat {
    le16(p, 6)
}

/// The height a payload declares (offsets 8 and 9).
pub open spec fn declared_height(p: Seq<u8>) -> nat {
    le16(p, 8)
}

/// Number of pixels a payload declares.
pub open spec fn declared_pixels(p: Seq<u8>) -> nat {
    declared_width(p) * declared_height(p)
}

/// Number of pixel bytes a payload declares.
pub open spec fn declared_pixel_bytes(p: Seq<u8>) -> nat {
    declared_pixels(p) * 3
}

/// The outcome that decoding a payload is owed: `None` on success.
pub open spec fn decode_error(p: Seq<u8>) -> Option<FrameError> {
    if p.len() < HEADER_LEN {
        Some(FrameError::TooShort)
    } else if p.len() - HEADER_LEN < declared_pixel_bytes(p) {
        Some(FrameError::InsufficientPixelData)
    } else {
        None
    }
}

/// Whether a payload decodes.
pub open spec fn decodes(p: Seq<u8>) -> bool {
    decode_error(p) is None
}

/// The pixel region of a payload that decodes.
pub open spec fn pixel_region(p: Seq<u8>) -> Seq<u8> {
    p.subrange(HEADER_LEN as int, HEADER_LEN + declared_pixel_bytes(p))
}

/// The pixel at index `i` of a run of RGB triples.
pub open spec fn pixel_of(data: Seq<u8>, i: int) -> Pixel {
    Pixel { r: data[3 * i], g: data[3 * i + 1], b: data[3 * i + 2] }
}

/// Reads a little-endian `u16` at `at`.
pub fn read_u16_le(b: &[u8], at: usize) -> (r: u16)
    requires
        at + 2 <= b.len(),
    ensures
        r as nat == le16(b@, at as int),
{
    b[at] as u16 + 256 * (b[at + 1] as u16)
}

/// Reads a little-endian `u32` at `at`.
pub fn read_u32_le(b: &[u8], at: usize) -> (r: u32)
    requires
        at + 4 <= b.len(),
    ensures
        r as nat == le32(b@, at as int),
{
    let lo = read_u16_le(b, at);
    let hi = read_u16_le(b, at + 2);
    lo as u32 + 65536 * (hi as u32)
}

/// The payload length announced by a 4-byte little-endian length prefix.
pub fn payload_length(prefix: [u8; 4]) -> (r: u32)
    ensures
        r as nat == le32(prefix@, 0),
{
    read_u32_le(prefix.as_slice(), 0)
}

/// Validates a payload and yields its header and the run of
/// `width * height` RGB triples that follows the header.
pub fn decode(payload: &[u8]) -> (r: Result<DecodedFrame<'_>, FrameError>)
    ensures
        match r {
            Ok(f) => {
                &&& decode_error(payload@) is None
                &&& f.header.version == payload@[0]
                &&& f.header.frame_type == payload@[1]
                &&& f.header.frame_id as nat == le32(payload@, 2)
                &&& f.header.width as nat == declared_width(payload@)
                &&& f.header.height as nat == declared_height(payload@)
                &&& f.pixel_data@ == pixel_region(payload@)
                &&& f.wf()
            },
            Err(e) => decode_error(payload@) == Some(e),
        },
{
    if payload.len() < HEADER_LEN {
        return Err(FrameError::TooShort);
    }
    let width = read_u16_le(payload, 6);
    let height = read_u16_le(payload, 8);
    assert(width as nat * height as nat <= 0xffff * 0xffff) by (nonlinear_arith)
        requires
            width <= 0xffff,
            height <= 0xffff,
    ;
    let pixels: u64 = width as u64 * height as u64;
    let pixel_bytes: u64 = pixels * 3;
    let available: usize = payload.len() - HEADER_LEN;
    if (available as u64) < pixel_bytes {
        return Err(FrameError::InsufficientPixelData);
    }
    let end: usize = HEADER_LEN + pixel_bytes as usize;
    let header = FrameHeader {
        version: payload[0],
        frame_type: payload[1],
        frame_id: read_u32_le(payload, 2),
        width,
        height,
    };
    let pixel_data = vstd::slice::slice_subrange(payload, HEADER_LEN, end);
    Ok(DecodedFrame { header, pixel_data })
}

} // verus!
