use vstd::prelude::*;
use crate::error::MangoError;
use crate::image::Base64Image;

verus! {

/// A named, ordered collection of images. Order is kept and duplicates are
/// allowed.
#[derive(Debug, Clone)]
pub struct MangoFile {
    name: String,
    images: Vec<Base64Image>,
}

impl MangoFile {
    /// The display name.
    pub closed spec fn name(&self) -> Seq<char> {
        self.name@
    }

    /// The images, in order.
    pub closed spec fn images(&self) -> Seq<Base64Image> {
        self.images@
    }

    /// An empty document with a name.
    pub fn new(name: String) -> (r: MangoFile)
        ensures
            r.name() == name@,
            r.images() == Seq::<Base64Image>::empty(),
    {
        MangoFile { name, images: Vec::new() }
    }

    /// Appends an image at the end.
    pub fn add_image(&mut self, image: Base64Image)
        ensures
            final(self).name() == old(self).name(),
            final(self).images() == old(self).images().push(image),
    {
        self.images.push(image);
    }

    /// The number of images.
    pub fn len(&self) -> (r: usize)
        ensures
            r == self.images().len(),
    {
        self.images.len()
    }

    /// The image at a position; `IndexOutOfRange` where there is none.
    pub fn get_image(&self, index: usize) -> (r: Result<&Base64Image, MangoError>)
        ensures
            index < self.images().len() ==> r == Ok::<&Base64Image, MangoError>(
                &self.images()[index as int],
            ),
            index >= self.images().len() ==> r == Err::<&Base64Image, MangoError>(
                MangoError::IndexOutOfRange,
            ),
    {
        if index < self.images.len() {
            Ok(&self.images[index])
        } else {
            Err(MangoError::IndexOutOfRange)
        }
    }

    /// The image at a position, to change in place; the position must be in
    /// range.
    pub fn get_image_mut(&mut self, index: usize) -> (r: &mut Base64Image)
        requires
            index < old(self).images().len(),
        ensures
            *r == old(self).images()[index as int],
            final(self).name() == old(self).name(),
            final(self).images() == old(self).images().update(index as int, *final(r)),
    {
        &mut self.images[index]
    }

    /// Replaces the image at a position; `IndexOutOfRange`, with the document
    /// unchanged, where there is none.
    pub fn set_image(&mut self, index: usize, image: Base64Image) -> (r: Result<(), MangoError>)
        ensures
            final(self).name() == old(self).name(),
            index < old(self).images().len() ==> r is Ok && final(self).images() == old(
                self,
            ).images().update(index as int, image),
            index >= old(self).images().len() ==> r == Err::<(), MangoError>(
                MangoError::IndexOutOfRange,
            ) && final(self).images() == old(self).images(),
    {
        if index < self.images.len() {
            self.images.set(index, image);
            Ok(())
        } else {
            Err(MangoError::IndexOutOfRange)
        }
    }

    /// All images, in order.
    pub fn get_images(&self) -> (r: &Vec<Base64Image>)
        ensures
            r@ == self.images(),
    {
        &self.images
    }

    /// The display name.
    pub fn get_name(&self) -> (r: &String)
        ensures
            r@ == self.name(),
    {
        &self.name
    }

    /// Replaces the display name; the images stay.
    pub fn set_name(&mut self, n: String)
        ensures
            final(self).name() == n@,
            final(self).images() == old(self).images(),
    {
        self.name = n;
    }
}

} // verus!
