use vstd::prelude::*;

verus! {

/// The media type of an image.
#[derive(Debug, Clone, Copy, PartialEq, Eq, Structural)]
pub enum Mime {
    JPEG,
    PNG,
}

/// The compression algorithms that a compression stage can use.
#[derive(Debug, Clone, Copy, PartialEq, Eq, Structural)]
pub enum CompressionType {
    GZIP,
}

/// The encryption variants that an encryption stage can use.
#[derive(Debug, Clone, Copy, PartialEq, Eq, Structural)]
pub enum EncryptionType {
    AES128,
    AES256,
}

/// One transform applied to a payload, with the tag that inverts it.
#[derive(Debug, Clone, Copy, PartialEq, Eq, Structural)]
pub enum Stage {
    Compression(CompressionType),
    Encryption(EncryptionType),
}

/// Descriptive facts about one image: its media type and the stack of
/// stages currently applied to its payload, oldest first.
#[derive(Debug, Clone)]
pub struct Base64ImageMetadata {
    pub mime: Mime,
    pub stages: Vec<Stage>,
}

impl Base64ImageMetadata {
    /// Metadata of a freshly ingested image: no stage applied.
    pub fn new(mime: Mime) -> (r: Base64ImageMetadata)
        ensures
            r.mime == mime,
            r.stages@ == Seq::<Stage>::empty(),
    {
        Base64ImageMetadata { mime, stages: Vec::new() }
    }

    pub fn get_mime(&self) -> (r: Mime)
        ensures
            r == self.mime,
    {
        self.mime
    }

    /// The applied stages, oldest first.
    pub fn get_stages(&self) -> (r: &Vec<Stage>)
        ensures
            r@ == self.stages@,
    {
        &self.stages
    }

    /// A copy that keeps the media type and holds every stage.
    pub fn copied(&self) -> (r: Base64ImageMetadata)
        ensures
            r.mime == self.mime,
            r.stages@ == self.stages@,
    {
        Base64ImageMetadata { mime: self.mime, stages: self.stages.clone() }
    }
}

} // verus!
