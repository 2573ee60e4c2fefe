use vstd::prelude::*;

use crate::codec::{pixel_of, DecodedFrame, Pixel};

verus! {

/// The all-dark pixel every buffer entry starts as.
pub open spec fn dark() -> Pixel {
    Pixel { r: 0, g: 0, b: 0 }
}

/// Whether any channel of a pixel is on.
pub open spec fn is_lit(p: Pixel) -> bool {
    p.r > 0 || p.g > 0 || p.b > 0
}

/// Number of lit pixels among the first `n` of `s`.
pub open spec fn lit_in_prefix(s: Seq<Pixel>, n: int) -> nat
    decreases n,
{
    if n <= 0 {
        0
    } else {
        lit_in_prefix(s, n - 1) + if is_lit(s[n - 1]) { 1nat } else { 0nat }
    }
}

/// Number of lit pixels in `s`.
pub open spec fn lit_count_of(s: Seq<Pixel>) -> nat {
    lit_in_prefix(s, s.len() as int)
}

/// How many pixels a frame of `frame_pixels` pixels writes into a buffer of
/// `len` entries.
pub open spec fn copied_count(frame_pixels: nat, len: nat) -> nat {
    if frame_pixels < len {
        frame_pixels
    } else {
        len
    }
}

/// The buffer contents after a frame whose pixel run is `data` is applied to
/// `old`: the first `copied_count` entries come from the frame, the rest stay.
pub open spec fn applied(old: Seq<Pixel>, data: Seq<u8>) -> Seq<Pixel> {
    let n = copied_count(data.len() / 3, old.len());
    Seq::new(old.len(), |i: int| if i < n { pixel_of(data, i) } else { old[i] })
}

/// A frame of `width * height` pixels, fewer than the buffer holds,
/// refreshes only that prefix: every entry from index `width * height` on
/// keeps its prior value, and the length is unchanged.
pub proof fn lemma_apply_keeps_tail(old: Seq<Pixel>, data: Seq<u8>, width: nat, height: nat)
    requires
        data.len() == 3 * (width * height),
        width * height < old.len(),
    ensures
        applied(old, data).len() == old.len(),
        forall|i: int| 0 <= i < width * height ==> applied(old, data)[i] == pixel_of(data, i),
        forall|i: int| width * height <= i < old.len() ==> applied(old, data)[i] == old[i],
{
    assert(data.len() / 3 == width * height);
}

/// A fixed-length run of RGB pixels; its length never changes.
pub struct PixelBuffer {
    pixels: Vec<Pixel>,
}

impl View for PixelBuffer {
    type V = Seq<Pixel>;

    closed spec fn view(&self) -> Seq<Pixel> {
        self.pixels@
    }
}

impl PixelBuffer {
    /// A buffer of `led_count` dark pixels.
    pub fn new(led_count: usize) -> (r: PixelBuffer)
        ensures
            r@.len() == led_count,
            forall|i: int| 0 <= i < led_count ==> r@[i] == dark(),
    {
        let pixels: Vec<Pixel> = vec![Pixel { r: 0, g: 0, b: 0 }; led_count];
        PixelBuffer { pixels }
    }

    /// Number of entries.
    pub fn len(&self) -> (r: usize)
        ensures
            r == self@.len(),
    {
        self.pixels.len()
    }

    /// The pixel at index `i`.
    pub fn get(&self, i: usize) -> (r: Pixel)
        requires
            i < self@.len(),
        ensures
            r == self@[i as int],
    {
        self.pixels[i]
    }

    /// The contents as a vector of pixels.
    pub fn to_vec(&self) -> (r: Vec<Pixel>)
        ensures
            r@ == self@,
    {
        self.pixels.clone()
    }

    /// Copies the frame's `width * height` pixels into the buffer from index
    /// 0, as many as both hold; entries past that are left as they were.
    pub fn apply(&mut self, frame: &DecodedFrame<'_>)
        requires
            frame.wf(),
        ensures
            final(self)@ == applied(old(self)@, frame.pixel_data@),
            final(self)@.len() == old(self)@.len(),
            forall|i: int|
                0 <= i < copied_count(
                    frame.header.width as nat * frame.header.height as nat,
                    old(self)@.len(),
                ) ==> final(self)@[i] == pixel_of(frame.pixel_data@, i),
            forall|i: int|
                copied_count(frame.header.width as nat * frame.header.height as nat, old(self)@.len())
                    <= i < old(self)@.len() ==> final(self)@[i] == old(self)@[i],
    {
        let data = frame.pixel_data;
        let frame_pixels: usize = data.len() / 3;
        let n: usize = if frame_pixels < self.pixels.len() {
            frame_pixels
        } else {
            self.pixels.len()
        };
        let ghost before = self@;
        let mut i: usize = 0;
        while i < n
            invariant
                n == copied_count(data@.len() / 3, before.len()),
                i <= n,
                n <= before.len(),
                3 * n <= data@.len(),
                data@.len() == data.len(),
                self@.len() == before.len(),
                forall|k: int| 0 <= k < i ==> self@[k] == pixel_of(data@, k),
                forall|k: int| i <= k < before.len() ==> self@[k] == before[k],
            decreases n - i,
        {
            let at: usize = 3 * i;
            let p = Pixel { r: data[at], g: data[at + 1], b: data[at + 2] };
            self.pixels.set(i, p);
            i = i + 1;
        }
        assert(self@ =~= applied(before, data@));
    }

    /// Number of pixels with any channel on.
    pub fn lit_count(&self) -> (r: usize)
        ensures
            r == lit_count_of(self@),
    {
        let mut count: usize = 0;
        let mut i: usize = 0;
        while i < self.pixels.len()
            invariant
                i <= self@.len(),
                count == lit_in_prefix(self@, i as int),
                count <= i,
            decreases self@.len() - i,
        {
            let p = self.pixels[i];
            if p.r > 0 || p.g > 0 || p.b > 0 {
                count = count + 1;
            }
            i = i + 1;
        }
        count
    }
}

} // verus!
