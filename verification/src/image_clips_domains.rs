//! The in-memory source: an append-only list of pasted images with a
//! wrapping cursor and a per-image zoom.

use vstd::prelude::*;

use crate::types::{
    next_index, prev_index, ImageBuf, ImageTraitKind, PasteItem, ZoomFactor, ZOOM_DEFAULT,
};

verus! {

/// Source backed by images pasted directly into the browser. Images are
/// appended verbatim and never dropped; the cursor wraps in both
/// directions; each image keeps its own zoom, defaulting to 1.00.
pub struct ImageClipDomain {
    /// The pasted images, in paste order.
    image_lst: Vec<ImageBuf>,
    /// Cursor into `image_lst`; 0 while the list is empty.
    index: usize,
    /// Zoom of each image, one entry per image.
    zoom_factors: Vec<ZoomFactor>,
}

impl ImageClipDomain {
    /// The images held, in paste order.
    pub closed spec fn images(self) -> Seq<ImageBuf> {
        self.image_lst@
    }

    /// The cursor position.
    pub closed spec fn idx(self) -> int {
        self.index as int
    }

    /// The zoom of each image, in hundredths, one entry per image.
    pub closed spec fn zooms(self) -> Seq<int> {
        self.zoom_factors@.map_values(|z: ZoomFactor| z.val())
    }

    /// The cursor stays in bounds while the list is non-empty, rests at 0
    /// while it is empty, and every image has exactly one zoom entry.
    pub open spec fn wf(self) -> bool {
        &&& self.zooms().len() == self.images().len()
        &&& if self.images().len() == 0 {
            self.idx() == 0
        } else {
            0 <= self.idx() < self.images().len()
        }
    }

    /// An empty source: no images, cursor at 0.
    pub fn new() -> (d: ImageClipDomain)
        ensures
            d.wf(),
            d.images() == Seq::<ImageBuf>::empty(),
            d.zooms() == Seq::<int>::empty(),
            d.idx() == 0,
    {
        let d = ImageClipDomain { image_lst: Vec::new(), index: 0, zoom_factors: Vec::new() };
        proof {
            assert(d.zooms() =~= Seq::<int>::empty());
        }
        d
    }

    /// Moves the cursor one image forward, wrapping past the end; on an
    /// empty source nothing changes.
    pub fn next(&mut self)
        requires
            old(self).wf(),
        ensures
            final(self).wf(),
            final(self).images() == old(self).images(),
            final(self).zooms() == old(self).zooms(),
            final(self).idx() == if old(self).images().len() == 0 {
                0int
            } else {
                next_index(old(self).idx(), old(self).images().len() as int)
            },
    {
        let len = self.image_lst.len();
        if len == 0 {
            return ;
        }
        if self.index + 1 == len {
            self.index = 0;
        } else {
            self.index = self.index + 1;
        }
    }

    /// Moves the cursor one image backward, wrapping past the start; on an
    /// empty source nothing changes.
    pub fn previous(&mut self)
        requires
            old(self).wf(),
        ensures
            final(self).wf(),
            final(self).images() == old(self).images(),
            final(self).zooms() == old(self).zooms(),
            final(self).idx() == if old(self).images().len() == 0 {
                0int
            } else {
                prev_index(old(self).idx(), old(self).images().len() as int)
            },
    {
        let len = self.image_lst.len();
        if len == 0 {
            return ;
        }
        if self.index == 0 {
            self.index = len - 1;
        } else {
            self.index = self.index - 1;
        }
    }

    /// Ingests a paste event: an image is appended, given the default zoom,
    /// and becomes current; text means nothing to this source and is
    /// ignored.
    pub fn pasete(&mut self, paste_item: PasteItem)
        requires
            old(self).wf(),
        ensures
            final(self).wf(),
            match paste_item {
                PasteItem::Image(img) => {
                    &&& final(self).images() == old(self).images().push(img)
                    &&& final(self).zooms() == old(self).zooms().push(ZOOM_DEFAULT as int)
                    &&& final(self).idx() == old(self).images().len()
                },
                PasteItem::Text(_) => *final(self) == *old(self),
            },
    {
        match paste_item {
            PasteItem::Image(img) => {
                self.image_lst.push(img);
                self.zoom_factors.push(ZoomFactor::default());
                self.index = self.image_lst.len() - 1;
                proof {
                    assert(self.zooms() =~= old(self).zooms().push(ZOOM_DEFAULT as int));
                }
            },
            PasteItem::Text(_) => {},
        }
    }

    /// The image under the cursor, or nothing while the source is empty.
    pub fn get_image(&self) -> (r: Option<&ImageBuf>)
        requires
            self.wf(),
        ensures
            match r {
                Some(img) => self.images().len() > 0 && *img == self.images()[self.idx()],
                None => self.images().len() == 0,
            },
    {
        if self.index < self.image_lst.len() {
            Some(&self.image_lst[self.index])
        } else {
            None
        }
    }

    /// The zoom of the image under the cursor, or the default while the
    /// source is empty.
    pub fn get_curimage_factor(&self) -> (z: ZoomFactor)
        requires
            self.wf(),
        ensures
            z.val() == if self.images().len() == 0 {
                ZOOM_DEFAULT as int
            } else {
                self.zooms()[self.idx()]
            },
    {
        if self.index < self.zoom_factors.len() {
            self.zoom_factors[self.index]
        } else {
            ZoomFactor::default()
        }
    }

    /// Replaces the zoom of the image under the cursor; on an empty source
    /// nothing changes.
    pub fn set_curimage_factor(&mut self, zoom_factor: ZoomFactor)
        requires
            old(self).wf(),
        ensures
            final(self).wf(),
            final(self).images() == old(self).images(),
            final(self).idx() == old(self).idx(),
            final(self).zooms() == if old(self).images().len() == 0 {
                old(self).zooms()
            } else {
                old(self).zooms().update(old(self).idx(), zoom_factor.val())
            },
    {
        if self.index < self.zoom_factors.len() {
            self.zoom_factors.set(self.index, zoom_factor);
            proof {
                assert(self.zooms() =~= old(self).zooms().update(
                    old(self).idx(),
                    zoom_factor.val(),
                ));
            }
        }
    }

    /// Which kind of source this is: pasted images.
    pub fn kind(&self) -> (k: ImageTraitKind)
        ensures
            k == ImageTraitKind::Image,
    {
        ImageTraitKind::Image
    }

    /// How many images the source holds.
    pub fn get_image_nums(&self) -> (n: usize)
        ensures
            n as int == self.images().len(),
    {
        self.image_lst.len()
    }

    /// The cursor position as the caller sees it.
    pub fn current_index(&self) -> (i: usize)
        ensures
            i as int == self.idx(),
    {
        self.index
    }
}

} // verus!
