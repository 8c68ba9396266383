//! The browser layer: owns at most one active source and carries the
//! paste-dispatch policy that decides which backing store a paste event
//! should own. Navigation, retrieval and zoom calls are forwarded to the
//! active source; without one they are no-ops that yield defaults.
//!
//! Pasted text is read as a filesystem path. The filesystem itself is a
//! collaborator: the caller resolves the path and hands `paste` its answer
//! — `None` when the path does not exist, otherwise the directory's
//! entries. Likewise the caller decodes the file named by `current_path`
//! and hands the outcome to `store_decoded`.

use vstd::prelude::*;

use crate::image_clips_domains::ImageClipDomain;
use crate::image_pathes_domain::{image_entries_filter, ImagePathes};
use crate::image_source::ImageSource;
use crate::types::{
    next_index, prev_index, ImageBuf, ImageTraitKind, PasteItem, ZoomFactor, ZOOM_DEFAULT,
};

verus! {

/// The application-layer orchestrator: zero or one active source, owned
/// exclusively. A replaced source is dropped whole; no zoom or cursor
/// state crosses over.
pub struct ImageApplication {
    /// The active source, if any paste event has produced one.
    image_domain: Option<ImageSource>,
}

impl ImageApplication {
    /// The active source, if any.
    pub closed spec fn source(self) -> Option<ImageSource> {
        self.image_domain
    }

    /// Whatever source is active is well formed.
    pub open spec fn wf(self) -> bool {
        match self.source() {
            Some(s) => s.wf(),
            None => true,
        }
    }

    /// How many items the active collection holds; 0 without a source.
    pub open spec fn count(self) -> int {
        match self.source() {
            Some(s) => s.count(),
            None => 0,
        }
    }

    /// The cursor position of the active source; 0 without one.
    pub open spec fn idx(self) -> int {
        match self.source() {
            Some(s) => s.idx(),
            None => 0,
        }
    }

    /// The zoom of each item of the active source; empty without one.
    pub open spec fn zooms(self) -> Seq<int> {
        match self.source() {
            Some(s) => s.zooms(),
            None => Seq::<int>::empty(),
        }
    }

    /// The image the browser can show right now, if any.
    pub open spec fn current_image(self) -> Option<ImageBuf> {
        match self.source() {
            Some(s) => s.current_image(),
            None => None,
        }
    }

    /// Which kind of source is active, if any.
    pub open spec fn kind_of(self) -> Option<ImageTraitKind> {
        match self.source() {
            Some(s) => Some(s.kind_spec()),
            None => None,
        }
    }

    /// A browser with no source yet.
    pub fn new() -> (a: ImageApplication)
        ensures
            a.wf(),
            a.source() is None,
    {
        ImageApplication { image_domain: None }
    }

    /// The paste-dispatch policy. Text is a path and always wins when it
    /// exists: `listing` carries the filesystem's answer for it, and an
    /// existing path replaces any active source with a directory-backed one
    /// built from the listing. Text naming nothing changes nothing. An
    /// image extends an active memory-backed source and becomes current;
    /// with no source, or a directory-backed one, it starts a fresh
    /// memory-backed source holding that image alone.
    pub fn paste(&mut self, paste_item: PasteItem, listing: Option<Vec<String>>)
        requires
            old(self).wf(),
        ensures
            final(self).wf(),
            match paste_item {
                PasteItem::Text(_) => match listing {
                    None => *final(self) == *old(self),
                    Some(entries) => {
                        &&& final(self).source() matches Some(ImageSource::Pathes(p))
                        &&& p.paths() == image_entries_filter(entries@)
                        &&& p.idx() == 0
                        &&& p.cached() is None
                        &&& p.zooms().len() == p.paths().len()
                        &&& forall|i: int|
                            0 <= i < p.zooms().len() ==> #[trigger] p.zooms()[i]
                                == ZOOM_DEFAULT as int
                    },
                },
                PasteItem::Image(img) => match old(self).source() {
                    Some(ImageSource::Clips(c)) => {
                        &&& final(self).source() matches Some(ImageSource::Clips(d))
                        &&& d.images() == c.images().push(img)
                        &&& d.idx() == c.images().len()
                        &&& d.zooms() == c.zooms().push(ZOOM_DEFAULT as int)
                    },
                    _ => {
                        &&& final(self).source() matches Some(ImageSource::Clips(d))
                        &&& d.images() == seq![img]
                        &&& d.idx() == 0
                        &&& d.zooms() == seq![ZOOM_DEFAULT as int]
                    },
                },
            },
    {
        match paste_item {
            PasteItem::Text(_txt) => {
                match listing {
                    Some(entries) => {
                        let mut pathes = ImagePathes::new();
                        pathes.collect_images_from_path(&entries);
                        self.image_domain = Some(ImageSource::Pathes(pathes));
                    },
                    None => {},
                }
            },
            PasteItem::Image(img) => {
                let mut taken: Option<ImageSource> = None;
                std::mem::swap(&mut taken, &mut self.image_domain);
                match taken {
                    Some(ImageSource::Clips(mut clips)) => {
                        clips.pasete(PasteItem::Image(img));
                        self.image_domain = Some(ImageSource::Clips(clips));
                    },
                    _ => {
                        let mut clips = ImageClipDomain::new();
                        clips.pasete(PasteItem::Image(img));
                        self.image_domain = Some(ImageSource::Clips(clips));
                    },
                }
            },
        }
    }

    /// Steps the active source forward; without one, nothing happens.
    pub fn next(&mut self)
        requires
            old(self).wf(),
        ensures
            final(self).wf(),
            old(self).source() is None ==> *final(self) == *old(self),
            match (old(self).source(), final(self).source()) {
                (Some(a), Some(b)) => {
                    &&& a.same_items(b)
                    &&& b.zooms() == a.zooms()
                    &&& b.idx() == if a.count() == 0 {
                        0int
                    } else {
                        next_index(a.idx(), a.count())
                    }
                    &&& b matches ImageSource::Pathes(q) ==> q.cached() is None
                },
                (None, None) => true,
                _ => false,
            },
    {
        match &mut self.image_domain {
            Some(src) => src.next(),
            None => {},
        }
    }

    /// Steps the active source backward; without one, nothing happens.
    pub fn previous(&mut self)
        requires
            old(self).wf(),
        ensures
            final(self).wf(),
            old(self).source() is None ==> *final(self) == *old(self),
            match (old(self).source(), final(self).source()) {
                (Some(a), Some(b)) => {
                    &&& a.same_items(b)
                    &&& b.zooms() == a.zooms()
                    &&& b.idx() == if a.count() == 0 {
                        0int
                    } else {
                        prev_index(a.idx(), a.count())
                    }
                    &&& b matches ImageSource::Pathes(q) ==> q.cached() is None
                },
                (None, None) => true,
                _ => false,
            },
    {
        match &mut self.image_domain {
            Some(src) => src.previous(),
            None => {},
        }
    }

    /// The image to show, or nothing while there is none.
    pub fn get_image(&self) -> (r: Option<&ImageBuf>)
        requires
            self.wf(),
        ensures
            match r {
                Some(img) => self.current_image() == Some(*img),
                None => self.current_image() is None,
            },
    {
        match &self.image_domain {
            Some(src) => src.get_image(),
            None => None,
        }
    }

    /// The zoom of the item under the cursor; the default without a source
    /// or on an empty collection.
    pub fn get_cur_zoomfactor(&self) -> (z: ZoomFactor)
        requires
            self.wf(),
        ensures
            z.val() == if self.count() == 0 {
                ZOOM_DEFAULT as int
            } else {
                self.zooms()[self.idx()]
            },
    {
        match &self.image_domain {
            Some(src) => src.get_curimage_factor(),
            None => ZoomFactor::default(),
        }
    }

    /// Replaces the zoom of the item under the cursor; without a source, or
    /// on an empty collection, nothing changes.
    pub fn set_cur_zoomfactor(&mut self, zoom_factor: ZoomFactor)
        requires
            old(self).wf(),
        ensures
            final(self).wf(),
            old(self).source() is None ==> *final(self) == *old(self),
            match (old(self).source(), final(self).source()) {
                (Some(a), Some(b)) => {
                    &&& a.same_items(b)
                    &&& b.idx() == a.idx()
                    &&& b.current_image() == a.current_image()
                    &&& b.zooms() == if a.count() == 0 {
                        a.zooms()
                    } else {
                        a.zooms().update(a.idx(), zoom_factor.val())
                    }
                },
                (None, None) => true,
                _ => false,
            },
    {
        match &mut self.image_domain {
            Some(src) => src.set_curimage_factor(zoom_factor),
            None => {},
        }
    }

    /// Which kind of source is active, if any.
    pub fn kind(&self) -> (k: Option<ImageTraitKind>)
        ensures
            k == self.kind_of(),
    {
        match &self.image_domain {
            Some(src) => Some(src.kind()),
            None => None,
        }
    }

    /// How many items the active collection holds; 0 without a source.
    pub fn get_image_nums(&self) -> (n: usize)
        ensures
            n as int == self.count(),
    {
        match &self.image_domain {
            Some(src) => src.get_image_nums(),
            None => 0,
        }
    }

    /// The cursor position; 0 without a source.
    pub fn current_index(&self) -> (i: usize)
        ensures
            i as int == self.idx(),
    {
        match &self.image_domain {
            Some(src) => src.current_index(),
            None => 0,
        }
    }

    /// The path the caller should decode next: named only while a
    /// non-empty directory-backed source is active.
    pub fn current_path(&self) -> (r: Option<&String>)
        requires
            self.wf(),
        ensures
            match r {
                Some(p) => {
                    &&& self.source() matches Some(ImageSource::Pathes(d))
                    &&& d.paths().len() > 0
                    &&& p@ == d.paths()[d.idx()]
                },
                None => match self.source() {
                    Some(ImageSource::Pathes(d)) => d.paths().len() == 0,
                    _ => true,
                },
            },
    {
        match &self.image_domain {
            Some(src) => src.current_path(),
            None => None,
        }
    }

    /// Hands the active directory-backed source the caller's decode
    /// attempt; any other state is left as it is.
    pub fn store_decoded(&mut self, img: Option<ImageBuf>)
        requires
            old(self).wf(),
        ensures
            final(self).wf(),
            match old(self).source() {
                Some(ImageSource::Pathes(p)) => {
                    &&& final(self).source() matches Some(ImageSource::Pathes(q))
                    &&& q.paths() == p.paths()
                    &&& q.idx() == p.idx()
                    &&& q.zooms() == p.zooms()
                    &&& q.cached() == if p.paths().len() == 0 {
                        None::<ImageBuf>
                    } else {
                        img
                    }
                },
                _ => *final(self) == *old(self),
            },
    {
        match &mut self.image_domain {
            Some(src) => src.store_decoded(img),
            None => {},
        }
    }
}

} // verus!
