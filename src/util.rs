use vstd::prelude::*;
use crate::error::MangoError;
use crate::meta::{CompressionType, EncryptionType, Mime};

verus! {

/// The human-readable name of a compression algorithm.
pub open spec fn comp_name(t: CompressionType) -> Seq<char> {
    match t {
        CompressionType::GZIP => "GZIP"@,
    }
}

/// The human-readable name of an encryption variant.
pub open spec fn enc_name(t: EncryptionType) -> Seq<char> {
    match t {
        EncryptionType::AES128 => "AES128"@,
        EncryptionType::AES256 => "AES256"@,
    }
}

/// The human-readable name of a media type.
pub open spec fn mime_name(m: Mime) -> Seq<char> {
    match m {
        Mime::JPEG => "JPEG"@,
        Mime::PNG => "PNG"@,
    }
}

/// The compression algorithm that a name stands for.
pub open spec fn comp_type_of(s: Seq<char>) -> Option<CompressionType> {
    if s == "GZIP"@ {
        Some(CompressionType::GZIP)
    } else {
        None
    }
}

/// The encryption variant that a name stands for.
pub open spec fn enc_type_of(s: Seq<char>) -> Option<EncryptionType> {
    if s == "AES128"@ {
        Some(EncryptionType::AES128)
    } else if s == "AES256"@ {
        Some(EncryptionType::AES256)
    } else {
        None
    }
}

/// Names and tags map one to one: every tag's name resolves to that tag.
pub proof fn lemma_names_resolve(c: CompressionType, e: EncryptionType)
    ensures
        comp_type_of(comp_name(c)) == Some(c),
        enc_type_of(enc_name(e)) == Some(e),
{
    reveal_strlit("AES128");
    reveal_strlit("AES256");
    assert("AES128"@[3] != "AES256"@[3]);
}

/// Resolves a compression algorithm by its name.
pub fn to_comp_type(value: String) -> (r: Option<CompressionType>)
    ensures
        r == comp_type_of(value@),
{
    let gzip = "GZIP".to_string();
    if value == gzip {
        Some(CompressionType::GZIP)
    } else {
        None
    }
}

/// Resolves a compression algorithm by its name; `UnsupportedAlgorithm` for a
/// name that stands for none.
pub fn resolve_compression(name: String) -> (r: Result<CompressionType, MangoError>)
    ensures
        match comp_type_of(name@) {
            Some(t) => r == Ok::<CompressionType, MangoError>(t),
            None => r == Err::<CompressionType, MangoError>(MangoError::UnsupportedAlgorithm),
        },
{
    match to_comp_type(name) {
        Some(t) => Ok(t),
        None => Err(MangoError::UnsupportedAlgorithm),
    }
}

/// Resolves an encryption variant by its name; `UnsupportedAlgorithm` for a
/// name that stands for none.
pub fn resolve_encryption(name: String) -> (r: Result<EncryptionType, MangoError>)
    ensures
        match enc_type_of(name@) {
            Some(t) => r == Ok::<EncryptionType, MangoError>(t),
            None => r == Err::<EncryptionType, MangoError>(MangoError::UnsupportedAlgorithm),
        },
{
    match to_enc_type(name) {
        Some(t) => Ok(t),
        None => Err(MangoError::UnsupportedAlgorithm),
    }
}

/// The name of a compression algorithm.
pub fn from_comp_type(value: CompressionType) -> (r: String)
    ensures
        r@ == comp_name(value),
{
    match value {
        CompressionType::GZIP => "GZIP".to_string(),
    }
}

/// Resolves an encryption variant by its name.
pub fn to_enc_type(value: String) -> (r: Option<EncryptionType>)
    ensures
        r == enc_type_of(value@),
{
    let aes128 = "AES128".to_string();
    let aes256 = "AES256".to_string();
    if value == aes128 {
        Some(EncryptionType::AES128)
    } else if value == aes256 {
        Some(EncryptionType::AES256)
    } else {
        None
    }
}

/// The name of an encryption variant.
pub fn from_enc_type(value: EncryptionType) -> (r: String)
    ensures
        r@ == enc_name(value),
{
    match value {
        EncryptionType::AES256 => "AES256".to_string(),
        EncryptionType::AES128 => "AES128".to_string(),
    }
}

/// The name of a media type.
pub fn from_mime(value: Mime) -> (r: String)
    ensures
        r@ == mime_name(value),
{
    match value {
        Mime::JPEG => "JPEG".to_string(),
        Mime::PNG => "PNG".to_string(),
    }
}

/// The media type that a file name extension stands for, written in lower or
/// in upper case.
pub open spec fn mime_of_extension(ext: Seq<char>) -> Option<Mime> {
    if ext == "jpg"@ || ext == "jpeg"@ || ext == "JPG"@ || ext == "JPEG"@ {
        Some(Mime::JPEG)
    } else if ext == "png"@ || ext == "PNG"@ {
        Some(Mime::PNG)
    } else {
        None
    }
}

/// Resolves a media type from a file name extension; `UnsupportedMediaType`
/// for any other extension.
pub fn mime_from_extension(ext: &String) -> (r: Result<Mime, MangoError>)
    ensures
        match mime_of_extension(ext@) {
            Some(m) => r == Ok::<Mime, MangoError>(m),
            None => r == Err::<Mime, MangoError>(MangoError::UnsupportedMediaType),
        },
{
    let jpg = "jpg".to_string();
    let jpeg = "jpeg".to_string();
    let jpg_up = "JPG".to_string();
    let jpeg_up = "JPEG".to_string();
    let png = "png".to_string();
    let png_up = "PNG".to_string();
    if *ext == jpg || *ext == jpeg || *ext == jpg_up || *ext == jpeg_up {
        Ok(Mime::JPEG)
    } else if *ext == png || *ext == png_up {
        Ok(Mime::PNG)
    } else {
        Err(MangoError::UnsupportedMediaType)
    }
}

} // verus!
