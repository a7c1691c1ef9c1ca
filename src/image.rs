use vstd::prelude::*;
use crate::codec::{base64_bytes, base64_text, decode, encode, is_base64_alphabet};
use crate::compression::{self, compressed, uncompressed};
use crate::encryption::{self, decrypted, encrypted, NONCE_LEN, PLAIN_MAX};
use crate::error::MangoError;
use crate::meta::{Base64ImageMetadata, CompressionType, EncryptionType, Mime, Stage};

verus! {

/// The top of a stage record is a compression stage.
pub open spec fn top_is_compression(stages: Seq<Stage>) -> bool {
    stages.len() > 0 && stages.last() is Compression
}

/// The top of a stage record is an encryption stage.
pub open spec fn top_is_encryption(stages: Seq<Stage>) -> bool {
    stages.len() > 0 && stages.last() is Encryption
}

/// The stage record without its top.
pub open spec fn popped(stages: Seq<Stage>) -> Seq<Stage> {
    stages.subrange(0, stages.len() - 1)
}

/// Stages are undone last-applied first: after a compression stage and then an
/// encryption stage, the top of the record is the encryption stage, so
/// `uncompress` is refused with `NoCompressionApplied` and `decrypt` is the
/// only inverse that can come next; once it is undone, the compression stage
/// is on top again.
pub proof fn lemma_compress_then_encrypt_order(
    stages: Seq<Stage>,
    c: CompressionType,
    e: EncryptionType,
)
    ensures
        !top_is_compression(stages.push(Stage::Compression(c)).push(Stage::Encryption(e))),
        top_is_encryption(stages.push(Stage::Compression(c)).push(Stage::Encryption(e))),
        popped(stages.push(Stage::Compression(c)).push(Stage::Encryption(e))) == stages.push(
            Stage::Compression(c),
        ),
        top_is_compression(popped(stages.push(Stage::Compression(c)).push(Stage::Encryption(e)))),
        popped(popped(stages.push(Stage::Compression(c)).push(Stage::Encryption(e)))) == stages,
{
    let s1 = stages.push(Stage::Compression(c));
    let s2 = s1.push(Stage::Encryption(e));
    assert(popped(s2) =~= s1);
    assert(popped(s1) =~= stages);
}

/// One image: its payload as base64 text, and the metadata that records which
/// stages the payload has been through.
#[derive(Debug, Clone)]
pub struct Base64Image {
    base64: String,
    meta: Base64ImageMetadata,
}

impl Base64Image {
    /// The payload text.
    pub closed spec fn text(&self) -> Seq<char> {
        self.base64@
    }

    /// The media type.
    pub closed spec fn mime(&self) -> Mime {
        self.meta.mime
    }

    /// The applied stages, oldest first.
    pub closed spec fn stages(&self) -> Seq<Stage> {
        self.meta.stages@
    }

    /// The bytes that the payload text stands for, if it is valid base64.
    pub open spec fn data(&self) -> Option<Seq<u8>> {
        base64_bytes(self.text())
    }

    /// Builds an image from a payload text and its metadata, as read back from
    /// a stored document.
    pub fn new(base64: String, meta: Base64ImageMetadata) -> (r: Base64Image)
        ensures
            r.text() == base64@,
            r.mime() == meta.mime,
            r.stages() == meta.stages@,
    {
        Base64Image { base64, meta }
    }

    /// Ingests raw image bytes: encodes them and starts an empty stage record.
    pub fn from_raw_bytes(raw: &Vec<u8>, mime: Mime) -> (r: Base64Image)
        ensures
            r.text() == base64_text(raw@),
            r.data() == Some(raw@),
            is_base64_alphabet(r.text()),
            r.mime() == mime,
            r.stages() == Seq::<Stage>::empty(),
    {
        Base64Image { base64: encode(raw), meta: Base64ImageMetadata::new(mime) }
    }

    /// A copy of the metadata.
    pub fn get_meta(&self) -> (r: Base64ImageMetadata)
        ensures
            r.mime == self.mime(),
            r.stages@ == self.stages(),
    {
        self.meta.copied()
    }

    /// A copy of the payload text.
    pub fn get_image(&self) -> (r: String)
        ensures
            r@ == self.text(),
    {
        self.base64.clone()
    }

    fn with_stage(&self, base64: String, s: Stage) -> (r: Base64Image)
        ensures
            r.text() == base64@,
            r.mime() == self.mime(),
            r.stages() == self.stages().push(s),
    {
        let mut stages = self.meta.stages.clone();
        proof {
            assert(stages@ =~= self.meta.stages@);
        }
        stages.push(s);
        Base64Image { base64, meta: Base64ImageMetadata { mime: self.meta.mime, stages } }
    }

    fn without_top(&self, base64: String) -> (r: Base64Image)
        requires
            self.stages().len() > 0,
        ensures
            r.text() == base64@,
            r.mime() == self.mime(),
            r.stages() == popped(self.stages()),
    {
        let mut stages = self.meta.stages.clone();
        proof {
            assert(stages@ =~= self.meta.stages@);
        }
        stages.pop();
        proof {
            assert(stages@ =~= popped(self.stages()));
        }
        Base64Image { base64, meta: Base64ImageMetadata { mime: self.meta.mime, stages } }
    }

    /// Applies a compression stage and records it; `uncompress` undoes it.
    /// Fails with `AlreadyCompressed` where the top stage is a compression
    /// stage, and with `CorruptPayload` where the payload text is not valid
    /// base64.
    pub fn compress(&self, t: CompressionType) -> (r: Result<Base64Image, MangoError>)
        ensures
            top_is_compression(self.stages()) ==> r == Err::<Base64Image, MangoError>(
                MangoError::AlreadyCompressed,
            ),
            !top_is_compression(self.stages()) && self.data() is None ==> r == Err::<
                Base64Image,
                MangoError,
            >(MangoError::CorruptPayload),
            !top_is_compression(self.stages()) && self.data() is Some ==> (r is Ok && r->Ok_0.text()
                == base64_text(compressed(t, self.data()->0)) && r->Ok_0.data() == Some(
                compressed(t, self.data()->0),
            ) && uncompressed(
                t,
                compressed(t, self.data()->0),
            ) == Some(self.data()->0) && r->Ok_0.mime() == self.mime() && r->Ok_0.stages()
                == self.stages().push(Stage::Compression(t))),
    {
        let n = self.meta.stages.len();
        if n > 0 {
            if let Stage::Compression(_) = self.meta.stages[n - 1] {
                return Err(MangoError::AlreadyCompressed);
            }
        }
        let bytes = match decode(&self.base64) {
            Ok(b) => b,
            Err(e) => return Err(e),
        };
        let c = compression::compress(t, &bytes);
        Ok(self.with_stage(encode(&c), Stage::Compression(t)))
    }

    /// Removes the top stage where it is a compression stage, and inverts it.
    /// Fails with `NoCompressionApplied` otherwise, and with `CorruptPayload`
    /// where the payload is not valid for the algorithm.
    pub fn uncompress(&self) -> (r: Result<Base64Image, MangoError>)
        ensures
            !top_is_compression(self.stages()) ==> r == Err::<Base64Image, MangoError>(
                MangoError::NoCompressionApplied,
            ),
            top_is_compression(self.stages()) ==> match self.data() {
                None => r == Err::<Base64Image, MangoError>(MangoError::CorruptPayload),
                Some(c) => match uncompressed(self.stages().last()->Compression_0, c) {
                    None => r == Err::<Base64Image, MangoError>(MangoError::CorruptPayload),
                    Some(b) => r is Ok && r->Ok_0.text() == base64_text(b) && r->Ok_0.data()
                        == Some(b) && r->Ok_0.mime()
                        == self.mime() && r->Ok_0.stages() == popped(self.stages()),
                },
            },
    {
        let n = self.meta.stages.len();
        if n == 0 {
            return Err(MangoError::NoCompressionApplied);
        }
        let t = match self.meta.stages[n - 1] {
            Stage::Compression(t) => t,
            Stage::Encryption(_) => return Err(MangoError::NoCompressionApplied),
        };
        let bytes = match decode(&self.base64) {
            Ok(b) => b,
            Err(e) => return Err(e),
        };
        let u = match compression::uncompress(t, &bytes) {
            Ok(u) => u,
            Err(e) => return Err(e),
        };
        Ok(self.without_top(encode(&u)))
    }

    /// Applies an encryption stage with a caller-chosen nonce and records it;
    /// `decrypt` with the same credential undoes it.
    /// Fails with `CorruptPayload` where the payload text is not valid base64,
    /// and with `PayloadTooLarge` where the cipher cannot take the payload.
    pub fn encrypt_with_nonce(&self, t: EncryptionType, credential: &String, nonce: &Vec<u8>) -> (r:
        Result<Base64Image, MangoError>)
        requires
            nonce@.len() == NONCE_LEN,
        ensures
            match self.data() {
                None => r == Err::<Base64Image, MangoError>(MangoError::CorruptPayload),
                Some(b) => if b.len() > PLAIN_MAX {
                    r == Err::<Base64Image, MangoError>(MangoError::PayloadTooLarge)
                } else {
                    r is Ok && r->Ok_0.text() == base64_text(encrypted(t, credential@, nonce@, b))
                        && r->Ok_0.data() == Some(encrypted(t, credential@, nonce@, b))
                        && decrypted(t, credential@, encrypted(t, credential@, nonce@, b)) == Some(
                        b,
                    ) && r->Ok_0.mime() == self.mime() && r->Ok_0.stages() == self.stages().push(
                        Stage::Encryption(t),
                    )
                },
            },
    {
        let bytes = match decode(&self.base64) {
            Ok(b) => b,
            Err(e) => return Err(e),
        };
        let c = match encryption::encrypt_with_nonce(t, &bytes, credential, nonce) {
            Ok(c) => c,
            Err(e) => return Err(e),
        };
        Ok(self.with_stage(encode(&c), Stage::Encryption(t)))
    }

    /// Applies an encryption stage with a fresh random nonce and records it;
    /// `decrypt` with the same credential undoes it.
    /// Fails with `CorruptPayload` where the payload text is not valid base64,
    /// and with `PayloadTooLarge` where the cipher cannot take the payload.
    pub fn encrypt(&self, t: EncryptionType, credential: &String) -> (r: Result<
        Base64Image,
        MangoError,
    >)
        ensures
            match self.data() {
                None => r == Err::<Base64Image, MangoError>(MangoError::CorruptPayload),
                Some(b) => if b.len() > PLAIN_MAX {
                    r == Err::<Base64Image, MangoError>(MangoError::PayloadTooLarge)
                } else {
                    r is Ok && (exists|n: Seq<u8>|
                        n.len() == NONCE_LEN && r->Ok_0.text() == base64_text(
                            #[trigger] encrypted(t, credential@, n, b),
                        ) && r->Ok_0.data() == Some(encrypted(t, credential@, n, b)))
                        && decrypted(t, credential@, r->Ok_0.data()->0) == Some(b)
                        && r->Ok_0.mime() == self.mime() && r->Ok_0.stages()
                        == self.stages().push(Stage::Encryption(t))
                },
            },
    {
        let bytes = match decode(&self.base64) {
            Ok(b) => b,
            Err(e) => return Err(e),
        };
        let c = match encryption::encrypt(t, &bytes, credential) {
            Ok(c) => c,
            Err(e) => return Err(e),
        };
        Ok(self.with_stage(encode(&c), Stage::Encryption(t)))
    }

    /// Removes the top stage where it is an encryption stage, and inverts it
    /// with the credential. Fails with `NoEncryptionApplied` otherwise, and with
    /// `DecryptionFailed` where the payload does not authenticate under the
    /// credential.
    pub fn decrypt(&self, credential: &String) -> (r: Result<Base64Image, MangoError>)
        ensures
            !top_is_encryption(self.stages()) ==> r == Err::<Base64Image, MangoError>(
                MangoError::NoEncryptionApplied,
            ),
            top_is_encryption(self.stages()) ==> match self.data() {
                None => r == Err::<Base64Image, MangoError>(MangoError::CorruptPayload),
                Some(c) => match decrypted(self.stages().last()->Encryption_0, credential@, c) {
                    None => r == Err::<Base64Image, MangoError>(MangoError::DecryptionFailed),
                    Some(b) => r is Ok && r->Ok_0.text() == base64_text(b) && r->Ok_0.data()
                        == Some(b) && r->Ok_0.mime()
                        == self.mime() && r->Ok_0.stages() == popped(self.stages()),
                },
            },
    {
        let n = self.meta.stages.len();
        if n == 0 {
            return Err(MangoError::NoEncryptionApplied);
        }
        let t = match self.meta.stages[n - 1] {
            Stage::Encryption(t) => t,
            Stage::Compression(_) => return Err(MangoError::NoEncryptionApplied),
        };
        let bytes = match decode(&self.base64) {
            Ok(b) => b,
            Err(e) => return Err(e),
        };
        let p = match encryption::decrypt(t, &bytes, credential) {
            Ok(p) => p,
            Err(e) => return Err(e),
        };
        Ok(self.without_top(encode(&p)))
    }

    /// The raw image bytes. Fails with `PipelineNotFullyReversed` while any
    /// stage is applied, and with `CorruptPayload` where the payload text is
    /// not valid base64.
    pub fn raw_bytes(&self) -> (r: Result<Vec<u8>, MangoError>)
        ensures
            self.stages().len() > 0 ==> r == Err::<Vec<u8>, MangoError>(
                MangoError::PipelineNotFullyReversed,
            ),
            self.stages().len() == 0 ==> match self.data() {
                None => r == Err::<Vec<u8>, MangoError>(MangoError::CorruptPayload),
                Some(b) => r is Ok && r->Ok_0@ == b,
            },
    {
        if self.meta.stages.len() > 0 {
            return Err(MangoError::PipelineNotFullyReversed);
        }
        decode(&self.base64)
    }
}

} // verus!
