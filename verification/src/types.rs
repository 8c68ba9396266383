//! Value types shared by the image sources and the browser: the clamped
//! zoom scale, the decoded pixel buffer, and the paste event.

use vstd::prelude::*;

verus! {

/// Smallest zoom the viewer allows, in hundredths of the display scale.
pub const ZOOM_MIN: u32 = 10;

/// Largest zoom the viewer allows, in hundredths of the display scale.
pub const ZOOM_MAX: u32 = 200;

/// Zoom of an image that was never zoomed explicitly, in hundredths.
pub const ZOOM_DEFAULT: u32 = 100;

/// What clamping an arbitrary zoom request into the allowed range yields.
pub open spec fn zoom_clamped(v: int) -> int {
    if v < ZOOM_MIN as int {
        ZOOM_MIN as int
    } else if v > ZOOM_MAX as int {
        ZOOM_MAX as int
    } else {
        v
    }
}

/// A display-scale multiplier, stored in hundredths so that the whole
/// allowed range [0.10, 2.00] is carried exactly. Every value of this type
/// lies within [ZOOM_MIN, ZOOM_MAX]; requests outside the range are clamped.
#[derive(Debug, Clone, Copy)]
pub struct ZoomFactor(u32);

impl ZoomFactor {
    /// The stored scale, in hundredths.
    pub closed spec fn val(self) -> int {
        self.0 as int
    }

    #[verifier::type_invariant]
    spec fn range_inv(self) -> bool {
        ZOOM_MIN as int <= self.val() <= ZOOM_MAX as int
    }

    /// Builds a zoom factor from a request in hundredths, clamping it into
    /// the allowed range.
    pub fn new(val: u32) -> (z: ZoomFactor)
        ensures
            z.val() == zoom_clamped(val as int),
    {
        if val < ZOOM_MIN {
            ZoomFactor(ZOOM_MIN)
        } else if val > ZOOM_MAX {
            ZoomFactor(ZOOM_MAX)
        } else {
            ZoomFactor(val)
        }
    }

    /// Replaces the stored scale with the clamped request.
    pub fn set(&mut self, val: u32)
        ensures
            final(self).val() == zoom_clamped(val as int),
    {
        *self = ZoomFactor::new(val);
    }

    /// The stored scale, in hundredths; always within the allowed range.
    pub fn get(self) -> (v: u32)
        ensures
            v as int == self.val(),
            ZOOM_MIN <= v <= ZOOM_MAX,
    {
        proof {
            use_type_invariant(self);
        }
        self.0
    }
}

impl Default for ZoomFactor {
    /// The zoom applied when nothing was requested: scale 1.00.
    fn default() -> (z: ZoomFactor)
        ensures
            z.val() == ZOOM_DEFAULT as int,
    {
        ZoomFactor(ZOOM_DEFAULT)
    }
}

/// Clamping is total and idempotent, and always lands in the allowed range:
/// a second clamp of an already clamped request changes nothing.
pub proof fn lemma_zoom_clamp_idempotent(v: int)
    ensures
        ZOOM_MIN as int <= zoom_clamped(v) <= ZOOM_MAX as int,
        zoom_clamped(zoom_clamped(v)) == zoom_clamped(v),
{
}

/// A decoded pixel buffer: RGBA bytes in row-major order, with its
/// dimensions. The sources store and hand these back verbatim; nothing in
/// the library reads the pixels themselves.
#[derive(Clone)]
pub struct ImageBuf {
    pub width: usize,
    pub height: usize,
    pub pixels: Vec<u8>,
}

impl ImageBuf {
    /// Wraps raw pixel data with its dimensions.
    pub fn new(width: usize, height: usize, pixels: Vec<u8>) -> (img: ImageBuf)
        ensures
            img.width == width,
            img.height == height,
            img.pixels@ == pixels@,
    {
        ImageBuf { width, height, pixels }
    }
}

/// A paste event as the clipboard hands it over: either text, read as a
/// filesystem path, or an already decoded image.
pub enum PasteItem {
    /// Text, interpreted as a path to a directory of images.
    Text(String),
    /// An in-memory image.
    Image(ImageBuf),
}

/// Which kind of source currently backs the browser; the dispatch policy
/// keys on this to decide whether a pasted image extends the active source.
#[derive(Debug, Clone, Copy, PartialEq, Eq, Structural)]
pub enum ImageTraitKind {
    /// A directory listing of image paths.
    Text,
    /// A list of pasted images.
    Image,
}

/// How the viewer presents the collection.
#[derive(Debug, Clone, Copy, PartialEq, Eq, Structural)]
pub enum ViewerMode {
    Normal,
    List,
}

/// Index reached from `i` by one forward step in a collection of `len`
/// items, wrapping past the end back to the start.
pub open spec fn next_index(i: int, len: int) -> int
    recommends
        0 <= i < len,
{
    if i + 1 == len {
        0
    } else {
        i + 1
    }
}

/// Index reached from `i` by one backward step in a collection of `len`
/// items, wrapping past the start back to the end.
pub open spec fn prev_index(i: int, len: int) -> int
    recommends
        0 <= i < len,
{
    if i == 0 {
        len - 1
    } else {
        i - 1
    }
}

/// Stepping forward then backward, or backward then forward, restores the
/// index: the two navigation moves are inverses on any non-empty collection.
pub proof fn lemma_next_previous_inverse(i: int, len: int)
    requires
        0 <= i < len,
    ensures
        prev_index(next_index(i, len), len) == i,
        next_index(prev_index(i, len), len) == i,
{
}

/// The wrapping steps are exactly advance and retreat modulo the length.
pub proof fn lemma_wrapping_is_modular(i: int, len: int)
    requires
        0 <= i < len,
    ensures
        next_index(i, len) == (i + 1) % len,
        prev_index(i, len) == (i + len - 1) % len,
{
    if i + 1 == len {
        assert((i + 1) % len == 0) by {
            vstd::arithmetic::div_mod::lemma_mod_self_0(len);
        }
    } else {
        assert((i + 1) % len == i + 1) by {
            vstd::arithmetic::div_mod::lemma_small_mod((i + 1) as nat, len as nat);
        }
    }
    if i == 0 {
        assert((len - 1) % len == len - 1) by {
            vstd::arithmetic::div_mod::lemma_small_mod((len - 1) as nat, len as nat);
        }
    } else {
        assert((i + len - 1) % len == i - 1) by {
            vstd::arithmetic::div_mod::lemma_mod_multiples_vanish(1, i - 1, len);
            vstd::arithmetic::div_mod::lemma_small_mod((i - 1) as nat, len as nat);
        }
    }
}

} // verus!
