//! The directory-backed source: an ordered list of image file paths with a
//! wrapping cursor, a per-path zoom, and room for the one decoded image the
//! viewer shows. Reading the directory and decoding a file are the caller's
//! business; this source only keeps and filters the paths it is handed.

use vstd::prelude::*;
use vstd::string::StrSliceExecFns;

use crate::types::{next_index, prev_index, ImageBuf, ImageTraitKind, ZoomFactor, ZOOM_DEFAULT};

verus! {

/// Entry `s` ends in a dot, the three characters `a`, `b`, `c`, and has at
/// least one file-name character before the dot (so a bare ".ext" name,
/// which has no extension, is not matched).
pub open spec fn has_dot_ext3(s: Seq<char>, a: char, b: char, c: char) -> bool {
    &&& s.len() >= 5
    &&& s[s.len() - 5] != '/'
    &&& s[s.len() - 4] == '.'
    &&& s[s.len() - 3] == a
    &&& s[s.len() - 2] == b
    &&& s[s.len() - 1] == c
}

/// As `has_dot_ext3`, for a four-character extension.
pub open spec fn has_dot_ext4(s: Seq<char>, a: char, b: char, c: char, d: char) -> bool {
    &&& s.len() >= 6
    &&& s[s.len() - 6] != '/'
    &&& s[s.len() - 5] == '.'
    &&& s[s.len() - 4] == a
    &&& s[s.len() - 3] == b
    &&& s[s.len() - 2] == c
    &&& s[s.len() - 1] == d
}

/// The fixed allow-list of image entries: a path whose file name carries
/// exactly the extension "png", "jpg", "tga" or "webp", matched
/// case-sensitively.
pub open spec fn is_image_entry(s: Seq<char>) -> bool {
    ||| has_dot_ext3(s, 'p', 'n', 'g')
    ||| has_dot_ext3(s, 'j', 'p', 'g')
    ||| has_dot_ext3(s, 't', 'g', 'a')
    ||| has_dot_ext4(s, 'w', 'e', 'b', 'p')
}

/// What rebuilding from a directory listing keeps: exactly the recognized
/// image entries, in listing order.
pub open spec fn image_entries_filter(entries: Seq<String>) -> Seq<Seq<char>> {
    entries.map_values(|p: String| p@).filter(|s: Seq<char>| is_image_entry(s))
}

/// Decides `is_image_entry` for a path.
pub fn is_image_path(s: &str) -> (b: bool)
    ensures
        b == is_image_entry(s@),
{
    let n = s.unicode_len();
    if n < 5 {
        return false;
    }
    let c5 = s.get_char(n - 5);
    let c4 = s.get_char(n - 4);
    let c3 = s.get_char(n - 3);
    let c2 = s.get_char(n - 2);
    let c1 = s.get_char(n - 1);
    let ext3 = c5 != '/' && c4 == '.' && ((c3 == 'p' && c2 == 'n' && c1 == 'g') || (c3 == 'j' && c2
        == 'p' && c1 == 'g') || (c3 == 't' && c2 == 'g' && c1 == 'a'));
    let ext4 = if n >= 6 {
        let c6 = s.get_char(n - 6);
        c6 != '/' && c5 == '.' && c4 == 'w' && c3 == 'e' && c2 == 'b' && c1 == 'p'
    } else {
        false
    };
    ext3 || ext4
}

/// Source backed by a directory listing. It holds the recognized image
/// paths in listing order, a wrapping cursor, one zoom per path, and at
/// most the one decoded image for the path under the cursor.
pub struct ImagePathes {
    /// The decoded image for the path under the cursor, once the caller has
    /// decoded it; dropped on every cursor move.
    cur_img: Option<ImageBuf>,
    /// The recognized image paths, in listing order.
    image_lst: Vec<String>,
    /// Cursor into `image_lst`; 0 while the list is empty.
    index: usize,
    /// Zoom of each path, one entry per path.
    zoom_factors: Vec<ZoomFactor>,
}

impl ImagePathes {
    /// The paths held, in listing order.
    pub closed spec fn paths(self) -> Seq<Seq<char>> {
        self.image_lst@.map_values(|p: String| p@)
    }

    /// The cursor position.
    pub closed spec fn idx(self) -> int {
        self.index as int
    }

    /// The zoom of each path, in hundredths, one entry per path.
    pub closed spec fn zooms(self) -> Seq<int> {
        self.zoom_factors@.map_values(|z: ZoomFactor| z.val())
    }

    /// The decoded image for the path under the cursor, if any.
    pub closed spec fn cached(self) -> Option<ImageBuf> {
        self.cur_img
    }

    /// The cursor stays in bounds while the list is non-empty, rests at 0
    /// while it is empty, every path has exactly one zoom entry, and an
    /// empty source holds no decoded image.
    pub open spec fn wf(self) -> bool {
        &&& self.zooms().len() == self.paths().len()
        &&& if self.paths().len() == 0 {
            self.idx() == 0 && self.cached() is None
        } else {
            0 <= self.idx() < self.paths().len()
        }
    }

    /// An empty source: no paths, cursor at 0, nothing decoded.
    pub fn new() -> (d: ImagePathes)
        ensures
            d.wf(),
            d.paths() == Seq::<Seq<char>>::empty(),
            d.zooms() == Seq::<int>::empty(),
            d.idx() == 0,
            d.cached() is None,
    {
        let d = ImagePathes {
            cur_img: None,
            image_lst: Vec::new(),
            index: 0,
            zoom_factors: Vec::new(),
        };
        proof {
            assert(d.paths() =~= Seq::<Seq<char>>::empty());
            assert(d.zooms() =~= Seq::<int>::empty());
        }
        d
    }

    /// Rebuilds the source from a directory listing: keeps exactly the
    /// recognized image entries, in listing order, and starts over — cursor
    /// at 0, every zoom back to the default, nothing decoded. Whatever the
    /// source held before is discarded wholesale.
    pub fn collect_images_from_path(&mut self, entries: &Vec<String>)
        ensures
            final(self).wf(),
            final(self).paths() == image_entries_filter(entries@),
            final(self).idx() == 0,
            final(self).cached() is None,
            final(self).zooms().len() == final(self).paths().len(),
            forall|i: int|
                0 <= i < final(self).zooms().len() ==> #[trigger] final(self).zooms()[i]
                    == ZOOM_DEFAULT as int,
    {
        let mut kept: Vec<String> = Vec::new();
        let mut i: usize = 0;
        proof {
            reveal(Seq::filter);
            assert(entries@.subrange(0, 0).map_values(|p: String| p@) =~= Seq::<
                Seq<char>,
            >::empty());
            assert(kept@.map_values(|p: String| p@) =~= Seq::<Seq<char>>::empty());
        }
        while i < entries.len()
            invariant
                i <= entries.len(),
                kept@.map_values(|p: String| p@) == entries@.subrange(0, i as int).map_values(
                    |p: String| p@,
                ).filter(|s: Seq<char>| is_image_entry(s)),
            decreases entries.len() - i,
        {
            let ghost before = kept@.map_values(|p: String| p@);
            if is_image_path(entries[i].as_str()) {
                kept.push(entries[i].clone());
            }
            proof {
                reveal(Seq::filter);
                let prefix = entries@.subrange(0, i as int).map_values(|p: String| p@);
                let with_next = entries@.subrange(0, i as int + 1).map_values(|p: String| p@);
                assert(with_next.drop_last() =~= prefix);
                assert(with_next.last() == entries@[i as int]@);
                if is_image_entry(entries@[i as int]@) {
                    assert(kept@.map_values(|p: String| p@) =~= before.push(entries@[i as int]@));
                }
            }
            i = i + 1;
        }
        proof {
            assert(entries@.subrange(0, entries@.len() as int) =~= entries@);
        }
        let mut zooms: Vec<ZoomFactor> = Vec::new();
        let target = kept.len();
        while zooms.len() < target
            invariant
                zooms.len() <= target,
                forall|j: int|
                    0 <= j < zooms@.len() ==> (#[trigger] zooms@[j]).val() == ZOOM_DEFAULT as int,
            decreases target - zooms.len(),
        {
            zooms.push(ZoomFactor::default());
        }
        self.image_lst = kept;
        self.zoom_factors = zooms;
        self.index = 0;
        self.cur_img = None;
    }

    /// Moves the cursor one path forward, wrapping past the end, and drops
    /// the decoded image; on an empty source nothing changes.
    pub fn next(&mut self)
        requires
            old(self).wf(),
        ensures
            final(self).wf(),
            final(self).paths() == old(self).paths(),
            final(self).zooms() == old(self).zooms(),
            final(self).idx() == if old(self).paths().len() == 0 {
                0int
            } else {
                next_index(old(self).idx(), old(self).paths().len() as int)
            },
            final(self).cached() is None,
    {
        self.cur_img = None;
        let len = self.image_lst.len();
        if len == 0 {
            return ;
        }
        if self.index + 1 == len {
            self.index = 0;
        } else {
            self.index = self.index + 1;
        }
    }

    /// Moves the cursor one path backward, wrapping past the start, and
    /// drops the decoded image; on an empty source nothing changes.
    pub fn previous(&mut self)
        requires
            old(self).wf(),
        ensures
            final(self).wf(),
            final(self).paths() == old(self).paths(),
            final(self).zooms() == old(self).zooms(),
            final(self).idx() == if old(self).paths().len() == 0 {
                0int
            } else {
                prev_index(old(self).idx(), old(self).paths().len() as int)
            },
            final(self).cached() is None,
    {
        self.cur_img = None;
        let len = self.image_lst.len();
        if len == 0 {
            return ;
        }
        if self.index == 0 {
            self.index = len - 1;
        } else {
            self.index = self.index - 1;
        }
    }

    /// The path under the cursor — what the caller should decode next — or
    /// nothing while the source is empty.
    pub fn current_path(&self) -> (r: Option<&String>)
        requires
            self.wf(),
        ensures
            match r {
                Some(p) => self.paths().len() > 0 && p@ == self.paths()[self.idx()],
                None => self.paths().len() == 0,
            },
    {
        if self.index < self.image_lst.len() {
            Some(&self.image_lst[self.index])
        } else {
            None
        }
    }

    /// Stores the caller's attempt at decoding the path under the cursor:
    /// the decoded image, or nothing when decoding failed. An empty source
    /// stores nothing.
    pub fn store_decoded(&mut self, img: Option<ImageBuf>)
        requires
            old(self).wf(),
        ensures
            final(self).wf(),
            final(self).paths() == old(self).paths(),
            final(self).zooms() == old(self).zooms(),
            final(self).idx() == old(self).idx(),
            final(self).cached() == if old(self).paths().len() == 0 {
                None::<ImageBuf>
            } else {
                img
            },
    {
        if self.image_lst.len() > 0 {
            self.cur_img = img;
        } else {
            self.cur_img = None;
        }
    }

    /// The decoded image for the path under the cursor, or nothing while
    /// the source is empty, nothing was decoded yet, or decoding failed.
    pub fn get_image(&self) -> (r: Option<&ImageBuf>)
        requires
            self.wf(),
        ensures
            match r {
                Some(img) => self.cached() == Some(*img),
                None => self.cached() is None,
            },
            self.paths().len() == 0 ==> r is None,
    {
        self.cur_img.as_ref()
    }

    /// The zoom of the path under the cursor, or the default while the
    /// source is empty.
    pub fn get_curimage_factor(&self) -> (z: ZoomFactor)
        requires
            self.wf(),
        ensures
            z.val() == if self.paths().len() == 0 {
                ZOOM_DEFAULT as int
            } else {
                self.zooms()[self.idx()]
            },
    {
        if self.index < self.zoom_factors.len() {
            self.zoom_factors[self.index]
        } else {
            ZoomFactor::default()
        }
    }

    /// Replaces the zoom of the path under the cursor; on an empty source
    /// nothing changes.
    pub fn set_curimage_factor(&mut self, zoom_factor: ZoomFactor)
        requires
            old(self).wf(),
        ensures
            final(self).wf(),
            final(self).paths() == old(self).paths(),
            final(self).idx() == old(self).idx(),
            final(self).cached() == old(self).cached(),
            final(self).zooms() == if old(self).paths().len() == 0 {
                old(self).zooms()
            } else {
                old(self).zooms().update(old(self).idx(), zoom_factor.val())
            },
    {
        if self.index < self.zoom_factors.len() {
            self.zoom_factors.set(self.index, zoom_factor);
            proof {
                assert(self.zooms() =~= old(self).zooms().update(
                    old(self).idx(),
                    zoom_factor.val(),
                ));
            }
        }
    }

    /// Which kind of source this is: a directory of paths.
    pub fn kind(&self) -> (k: ImageTraitKind)
        ensures
            k == ImageTraitKind::Text,
    {
        ImageTraitKind::Text
    }

    /// How many paths the source holds.
    pub fn get_image_nums(&self) -> (n: usize)
        ensures
            n as int == self.paths().len(),
    {
        self.image_lst.len()
    }

    /// The cursor position as the caller sees it.
    pub fn current_index(&self) -> (i: usize)
        ensures
            i as int == self.idx(),
    {
        self.index
    }
}

} // verus!
