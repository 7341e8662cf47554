//! The non-blocking image holder an image box owns: it is keyed by the
//! image's URL and reflects whatever the external cache has resolved so
//! far. Queries never block; before resolution they simply report absence,
//! and callers fall back to a zero size or skip painting.

use vstd::prelude::*;
use crate::geometry::MAX_PX;
use crate::image_base::Image;

verus! {

/// The holder of one (possibly not yet decoded) image.
#[derive(Clone, Debug)]
pub struct ImageHolder {
    pub url: String,
    pub size: Option<(i64, i64)>,
    pub image: Option<Image>,
}

impl ImageHolder {
    /// Sizes the holder reports stay within the pixel bound, so converting
    /// them to app units cannot overflow.
    pub open spec fn wf(&self) -> bool {
        match self.size {
            Some(s) => 0 <= s.0 <= MAX_PX && 0 <= s.1 <= MAX_PX,
            None => true,
        }
    }

    /// A holder for the image at `url`, with nothing resolved yet.
    pub fn new(url: String) -> (r: ImageHolder)
        ensures
            r.url@ == url@,
            r.size is None,
            r.image is None,
            r.wf(),
    {
        ImageHolder { url, size: None, image: None }
    }

    /// The intrinsic size in whole pixels, if known; never blocks.
    pub fn get_size(&self) -> (r: Option<(i64, i64)>)
        ensures
            r == self.size,
    {
        self.size
    }

    /// The decoded image, if available; never blocks.
    pub fn get_image(&self) -> (r: Option<&Image>)
        ensures
            match r {
                Some(img) => self.image matches Some(i) && *img == i,
                None => self.image is None,
            },
    {
        match &self.image {
            Some(img) => Some(img),
            None => None,
        }
    }

    /// Records the intrinsic size the external cache reported.
    pub fn set_size(&mut self, width: i64, height: i64)
        requires
            0 <= width <= MAX_PX,
            0 <= height <= MAX_PX,
        ensures
            final(self).size == Some((width, height)),
            final(self).image == old(self).image,
            final(self).url == old(self).url,
            final(self).wf(),
    {
        self.size = Some((width, height));
    }

    /// Records the decoded image the external cache delivered, and its
    /// size.
    pub fn set_image(&mut self, img: Image)
        requires
            img.width <= MAX_PX,
            img.height <= MAX_PX,
        ensures
            final(self).image == Some(img),
            final(self).size == Some((img.width as i64, img.height as i64)),
            final(self).url == old(self).url,
            final(self).wf(),
    {
        self.size = Some((img.width as i64, img.height as i64));
        self.image = Some(img);
    }
}

} // verus!
