use vstd::prelude::*;

verus! {

/// Width in pixels of the camera frame (and of the round display).
pub const FRAME_WIDTH: u32 = 240;

/// Height in pixels of the camera frame.
pub const FRAME_HEIGHT: u32 = 240;

/// A QR detection is attempted on one frame out of this many.
pub const DETECT_INTERVAL_FRAMES: u32 = 20;

/// Number of luma bytes in one frame.
pub const LUMA_LEN: usize = 57600;

/// Number of RGB565 bytes in one frame (two per pixel).
pub const RGB_LEN: usize = 115200;

/// The frame counter after one more frame: it counts up and wraps from
/// `DETECT_INTERVAL_FRAMES` back to 1.
pub open spec fn spec_next_frame(count: nat) -> nat {
    if count + 1 > DETECT_INTERVAL_FRAMES {
        1
    } else {
        count + 1
    }
}

/// The frame counter after `n` frames, starting from 0.
pub open spec fn spec_frame_after(n: nat) -> nat {
    if n == 0 {
        0
    } else {
        ((n - 1) as nat % DETECT_INTERVAL_FRAMES as nat) + 1
    }
}

/// Counts camera frames between QR detection attempts.
pub struct FrameCounter {
    count: u32,
}

impl View for FrameCounter {
    type V = nat;

    closed spec fn view(&self) -> nat {
        self.count as nat
    }
}

impl FrameCounter {
    /// The counter never exceeds the detection interval.
    pub open spec fn wf(&self) -> bool {
        self@ <= DETECT_INTERVAL_FRAMES
    }

    /// A counter at frame 0, so that the very first frame is scanned.
    pub fn new() -> (c: FrameCounter)
        ensures
            c.wf(),
            c@ == 0,
    {
        FrameCounter { count: 0 }
    }

    /// The current count.
    pub fn count(&self) -> (n: u32)
        ensures
            n == self@,
    {
        self.count
    }

    /// Whether QR detection runs on the current frame.
    pub fn should_detect(&self) -> (detect: bool)
        ensures
            detect == (self@ % DETECT_INTERVAL_FRAMES as nat == 0),
    {
        self.count % DETECT_INTERVAL_FRAMES == 0
    }

    /// Moves on to the next frame.
    pub fn advance(&mut self)
        requires
            old(self).wf(),
        ensures
            final(self).wf(),
            final(self)@ == spec_next_frame(old(self)@),
            1 <= final(self)@,
    {
        self.count = self.count + 1;
        if self.count > DETECT_INTERVAL_FRAMES {
            self.count = 1;
        }
    }
}

/// Starting from 0 the counter reads `spec_frame_after(n)` after `n`
/// frames, and detection runs exactly on frames 0, 20, 40, …: once every
/// `DETECT_INTERVAL_FRAMES` frames.
pub proof fn lemma_detect_every_interval(n: nat)
    ensures
        spec_frame_after(0) == 0,
        spec_next_frame(spec_frame_after(n)) == spec_frame_after(n + 1),
        (spec_frame_after(n) % DETECT_INTERVAL_FRAMES as nat == 0) <==> (n % DETECT_INTERVAL_FRAMES as nat
            == 0),
        spec_frame_after(n) <= DETECT_INTERVAL_FRAMES,
{
}

/// Copies a captured frame into the front of the frame buffer; the rest of
/// the buffer keeps its bytes.
pub fn copy_frame(dst: &mut Vec<u8>, data: &[u8])
    requires
        data@.len() <= old(dst)@.len(),
    ensures
        final(dst)@ == data@ + old(dst)@.skip(data@.len() as int),
{
    let n = data.len();
    let mut i: usize = 0;
    while i < n
        invariant
            n == data@.len(),
            i <= n,
            n <= old(dst)@.len(),
            dst@.len() == old(dst)@.len(),
            forall|j: int| 0 <= j < i ==> dst@[j] == data@[j],
            forall|j: int| i <= j < dst@.len() ==> dst@[j] == old(dst)@[j],
        decreases n - i,
    {
        dst.set(i, data[i]);
        i = i + 1;
    }
    assert(dst@ =~= data@ + old(dst)@.skip(data@.len() as int));
}

/// Number of pixels (two-byte chunks) in an RGB565 buffer of `len` bytes.
pub open spec fn spec_pixel_count(len: nat) -> nat {
    (len + 1) / 2
}

/// Builds the luma buffer handed to the QR decoder from an RGB565 frame:
/// pixel `i` takes the first byte of its two-byte chunk. Luma bytes past
/// the last pixel keep their value.
pub fn rgb565_to_luma(rgb: &[u8], gray: &mut Vec<u8>)
    requires
        spec_pixel_count(rgb@.len()) <= old(gray)@.len(),
    ensures
        final(gray)@.len() == old(gray)@.len(),
        forall|i: int|
            0 <= i < spec_pixel_count(rgb@.len()) ==> #[trigger] final(gray)@[i] == rgb@[2 * i],
        forall|i: int|
            spec_pixel_count(rgb@.len()) <= i < old(gray)@.len() ==> #[trigger] final(gray)@[i]
                == old(gray)@[i],
{
    let n = rgb.len();
    let pixels = n - n / 2;
    let mut p: usize = 0;
    while p < pixels
        invariant
            n == rgb@.len(),
            pixels == spec_pixel_count(n as nat),
            p <= pixels,
            pixels <= gray@.len(),
            gray@.len() == old(gray)@.len(),
            forall|j: int| 0 <= j < p ==> #[trigger] gray@[j] == rgb@[2 * j],
            forall|j: int| p <= j < gray@.len() ==> #[trigger] gray@[j] == old(gray)@[j],
        decreases pixels - p,
    {
        gray.set(p, rgb[2 * p]);
        p = p + 1;
    }
}

} // verus!
