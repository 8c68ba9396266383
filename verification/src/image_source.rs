//! The polymorphic source: one tagged type over the two backing stores,
//! with one dispatch function per navigation, retrieval and zoom
//! operation, so that the browser can treat either store uniformly.

use vstd::prelude::*;

use crate::image_clips_domains::ImageClipDomain;
use crate::image_pathes_domain::ImagePathes;
use crate::types::{next_index, prev_index, ImageBuf, ImageTraitKind, ZoomFactor, ZOOM_DEFAULT};

verus! {

/// The active backing store: either a directory listing of image paths or
/// a list of pasted images.
pub enum ImageSource {
    /// Directory-backed: paths, decoded lazily by the caller.
    Pathes(ImagePathes),
    /// Memory-backed: images pasted in, already decoded.
    Clips(ImageClipDomain),
}

impl ImageSource {
    /// The backing store is well formed.
    pub open spec fn wf(self) -> bool {
        match self {
            ImageSource::Pathes(p) => p.wf(),
            ImageSource::Clips(c) => c.wf(),
        }
    }

    /// Which kind of store backs this source.
    pub open spec fn kind_spec(self) -> ImageTraitKind {
        match self {
            ImageSource::Pathes(_) => ImageTraitKind::Text,
            ImageSource::Clips(_) => ImageTraitKind::Image,
        }
    }

    /// How many items the collection holds.
    pub open spec fn count(self) -> int {
        match self {
            ImageSource::Pathes(p) => p.paths().len() as int,
            ImageSource::Clips(c) => c.images().len() as int,
        }
    }

    /// The cursor position.
    pub open spec fn idx(self) -> int {
        match self {
            ImageSource::Pathes(p) => p.idx(),
            ImageSource::Clips(c) => c.idx(),
        }
    }

    /// The zoom of each item, in hundredths.
    pub open spec fn zooms(self) -> Seq<int> {
        match self {
            ImageSource::Pathes(p) => p.zooms(),
            ImageSource::Clips(c) => c.zooms(),
        }
    }

    /// The image the source can show right now: for pasted images the one
    /// under the cursor, for paths whatever the caller decoded for the path
    /// under the cursor.
    pub open spec fn current_image(self) -> Option<ImageBuf> {
        match self {
            ImageSource::Pathes(p) => p.cached(),
            ImageSource::Clips(c) => if c.images().len() == 0 {
                None
            } else {
                Some(c.images()[c.idx()])
            },
        }
    }

    /// `other` is the same kind of store holding the same items in the
    /// same order.
    pub open spec fn same_items(self, other: ImageSource) -> bool {
        match (self, other) {
            (ImageSource::Pathes(p), ImageSource::Pathes(q)) => p.paths() == q.paths(),
            (ImageSource::Clips(c), ImageSource::Clips(d)) => c.images() == d.images(),
            _ => false,
        }
    }

    /// Moves the cursor one item forward, wrapping past the end; on an
    /// empty collection the cursor stays at 0. A directory-backed source
    /// drops its decoded image, which belonged to the old cursor.
    pub fn next(&mut self)
        requires
            old(self).wf(),
        ensures
            final(self).wf(),
            old(self).same_items(*final(self)),
            final(self).zooms() == old(self).zooms(),
            final(self).idx() == if old(self).count() == 0 {
                0int
            } else {
                next_index(old(self).idx(), old(self).count())
            },
            (*final(self)) matches ImageSource::Pathes(q) ==> q.cached() is None,
    {
        match self {
            ImageSource::Pathes(p) => p.next(),
            ImageSource::Clips(c) => c.next(),
        }
    }

    /// Moves the cursor one item backward, wrapping past the start; on an
    /// empty collection the cursor stays at 0. A directory-backed source
    /// drops its decoded image.
    pub fn previous(&mut self)
        requires
            old(self).wf(),
        ensures
            final(self).wf(),
            old(self).same_items(*final(self)),
            final(self).zooms() == old(self).zooms(),
            final(self).idx() == if old(self).count() == 0 {
                0int
            } else {
                prev_index(old(self).idx(), old(self).count())
            },
            (*final(self)) matches ImageSource::Pathes(q) ==> q.cached() is None,
    {
        match self {
            ImageSource::Pathes(p) => p.previous(),
            ImageSource::Clips(c) => c.previous(),
        }
    }

    /// The image to show, or nothing while there is none.
    pub fn get_image(&self) -> (r: Option<&ImageBuf>)
        requires
            self.wf(),
        ensures
            match r {
                Some(img) => self.current_image() == Some(*img),
                None => self.current_image() is None,
            },
    {
        match self {
            ImageSource::Pathes(p) => p.get_image(),
            ImageSource::Clips(c) => c.get_image(),
        }
    }

    /// The zoom of the item under the cursor, or the default while the
    /// collection is empty.
    pub fn get_curimage_factor(&self) -> (z: ZoomFactor)
        requires
            self.wf(),
        ensures
            z.val() == if self.count() == 0 {
                ZOOM_DEFAULT as int
            } else {
                self.zooms()[self.idx()]
            },
    {
        match self {
            ImageSource::Pathes(p) => p.get_curimage_factor(),
            ImageSource::Clips(c) => c.get_curimage_factor(),
        }
    }

    /// Replaces the zoom of the item under the cursor; on an empty
    /// collection nothing changes.
    pub fn set_curimage_factor(&mut self, zoom_factor: ZoomFactor)
        requires
            old(self).wf(),
        ensures
            final(self).wf(),
            old(self).same_items(*final(self)),
            final(self).idx() == old(self).idx(),
            final(self).current_image() == old(self).current_image(),
            final(self).zooms() == if old(self).count() == 0 {
                old(self).zooms()
            } else {
                old(self).zooms().update(old(self).idx(), zoom_factor.val())
            },
    {
        match self {
            ImageSource::Pathes(p) => p.set_curimage_factor(zoom_factor),
            ImageSource::Clips(c) => c.set_curimage_factor(zoom_factor),
        }
    }

    /// Which kind of store backs this source.
    pub fn kind(&self) -> (k: ImageTraitKind)
        ensures
            k == self.kind_spec(),
    {
        match self {
            ImageSource::Pathes(p) => p.kind(),
            ImageSource::Clips(c) => c.kind(),
        }
    }

    /// How many items the collection holds.
    pub fn get_image_nums(&self) -> (n: usize)
        ensures
            n as int == self.count(),
    {
        match self {
            ImageSource::Pathes(p) => p.get_image_nums(),
            ImageSource::Clips(c) => c.get_image_nums(),
        }
    }

    /// The cursor position as the caller sees it.
    pub fn current_index(&self) -> (i: usize)
        ensures
            i as int == self.idx(),
    {
        match self {
            ImageSource::Pathes(p) => p.current_index(),
            ImageSource::Clips(c) => c.current_index(),
        }
    }

    /// The path the caller should decode next: only a non-empty
    /// directory-backed source names one.
    pub fn current_path(&self) -> (r: Option<&String>)
        requires
            self.wf(),
        ensures
            match r {
                Some(p) => {
                    &&& *self matches ImageSource::Pathes(d)
                    &&& d.paths().len() > 0
                    &&& p@ == d.paths()[d.idx()]
                },
                None => match *self {
                    ImageSource::Pathes(d) => d.paths().len() == 0,
                    ImageSource::Clips(_) => true,
                },
            },
    {
        match self {
            ImageSource::Pathes(p) => p.current_path(),
            ImageSource::Clips(_) => None,
        }
    }

    /// Hands a directory-backed source the caller's decode attempt for the
    /// path under the cursor; a memory-backed source keeps its images and
    /// ignores it.
    pub fn store_decoded(&mut self, img: Option<ImageBuf>)
        requires
            old(self).wf(),
        ensures
            final(self).wf(),
            old(self).same_items(*final(self)),
            final(self).idx() == old(self).idx(),
            final(self).zooms() == old(self).zooms(),
            match *old(self) {
                ImageSource::Pathes(p) => (*final(self)) matches ImageSource::Pathes(q)
                    && q.cached() == if p.paths().len() == 0 {
                    None::<ImageBuf>
                } else {
                    img
                },
                ImageSource::Clips(c) => *final(self) == *old(self),
            },
    {
        match self {
            ImageSource::Pathes(p) => p.store_decoded(img),
            ImageSource::Clips(_) => {},
        }
    }
}

/// On any non-empty well-formed source, one forward step followed by one
/// backward step, or the reverse, brings the cursor back to where it was:
/// the two navigation moves are inverses.
pub proof fn lemma_source_navigation_round_trip(s: ImageSource)
    requires
        s.wf(),
        s.count() > 0,
    ensures
        prev_index(next_index(s.idx(), s.count()), s.count()) == s.idx(),
        next_index(prev_index(s.idx(), s.count()), s.count()) == s.idx(),
{
    crate::types::lemma_next_previous_inverse(s.idx(), s.count());
}

} // verus!
