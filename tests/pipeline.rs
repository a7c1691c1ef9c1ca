use mangofmt::codec::{decode, encode};
use mangofmt::compression;
use mangofmt::encryption;
use mangofmt::error::MangoError;
use mangofmt::file::MangoFile;
use mangofmt::image::Base64Image;
use mangofmt::meta::{Base64ImageMetadata, CompressionType, EncryptionType, Mime, Stage};
use mangofmt::util::{
    from_comp_type, from_enc_type, from_mime, mime_from_extension, resolve_compression,
    resolve_encryption, to_comp_type, to_enc_type,
};

fn sample() -> Vec<u8> {
    let mut v = Vec::new();
    for i in 0..2000u32 {
        v.push((i % 7) as u8);
    }
    v
}

#[test]
fn encrypt() {
    let mut file = MangoFile::new("test".to_string());
    file.add_image(Base64Image::from_raw_bytes(&sample(), Mime::JPEG));
    let image = file.get_image_mut(0);
    let key = String::from("1234567812345678");
    let encrypted_image = image.clone().encrypt(EncryptionType::AES128, &key).unwrap();
    let decrypted_image = encrypted_image.decrypt(&key).unwrap();

    assert_eq!(image.get_image(), decrypted_image.get_image());
}

#[test]
fn encode_known_value() {
    assert_eq!(encode(&vec![0xDE, 0xAD, 0xBE, 0xEF]), "3q2+7w==");
    assert_eq!(encode(&vec![]), "");
}

#[test]
fn encode_decode_round_trip() {
    for b in [vec![], vec![0u8], vec![1, 2], vec![255, 0, 128], sample()] {
        let text = encode(&b);
        assert!(!text.contains('\n') && !text.contains('\r'));
        assert_eq!(decode(&text), Ok(b));
    }
}

#[test]
fn decode_rejects_invalid_text() {
    assert_eq!(decode(&"not base64!".to_string()), Err(MangoError::CorruptPayload));
}

#[test]
fn compress_round_trip() {
    for b in [vec![], vec![42u8], sample()] {
        let c = compression::compress(CompressionType::GZIP, &b);
        assert_eq!(&c[0..2], &[0x1f, 0x8b]);
        assert_ne!(c, b);
        assert_eq!(compression::uncompress(CompressionType::GZIP, &c), Ok(b));
    }
}

#[test]
fn compress_shrinks_repetitive_data() {
    let b = sample();
    let c = compression::compress(CompressionType::GZIP, &b);
    assert!(c.len() < b.len());
}

#[test]
fn uncompress_rejects_corrupt_payload() {
    assert_eq!(
        compression::uncompress(CompressionType::GZIP, &vec![1, 2, 3, 4]),
        Err(MangoError::CorruptPayload)
    );
}

#[test]
fn encrypt_decrypt_round_trip_both_variants() {
    let key = "1234567812345678".to_string();
    for t in [EncryptionType::AES128, EncryptionType::AES256] {
        for b in [vec![], vec![7u8], sample()] {
            let c = encryption::encrypt(t, &b, &key).unwrap();
            assert_eq!(c.len(), 12 + b.len() + 16);
            assert_eq!(encryption::decrypt(t, &c, &key), Ok(b));
        }
    }
}

#[test]
fn encrypt_with_nonce_layout() {
    let key = "secret".to_string();
    let nonce = vec![9u8; 12];
    let b = vec![1u8, 2, 3];
    let c = encryption::encrypt_with_nonce(EncryptionType::AES256, &b, &key, &nonce).unwrap();
    assert_eq!(&c[0..12], &nonce[..]);
    assert_ne!(&c[12..15], &b[..]);
    let again = encryption::encrypt_with_nonce(EncryptionType::AES256, &b, &key, &nonce).unwrap();
    assert_eq!(c, again);
    let other = encryption::encrypt_with_nonce(EncryptionType::AES256, &b, &"other".to_string(), &nonce)
        .unwrap();
    assert_ne!(c, other);
}

#[test]
fn decrypt_with_wrong_credential_fails() {
    let b = sample();
    for t in [EncryptionType::AES128, EncryptionType::AES256] {
        let c = encryption::encrypt(t, &b, &"k1".to_string()).unwrap();
        assert_eq!(encryption::decrypt(t, &c, &"k2".to_string()), Err(MangoError::DecryptionFailed));
    }
}

#[test]
fn decrypt_with_other_variant_fails() {
    let key = "1234567812345678".to_string();
    let c = encryption::encrypt(EncryptionType::AES128, &sample(), &key).unwrap();
    assert_eq!(
        encryption::decrypt(EncryptionType::AES256, &c, &key),
        Err(MangoError::DecryptionFailed)
    );
}

#[test]
fn decrypt_tampered_or_short_fails() {
    let key = "k".to_string();
    let mut c = encryption::encrypt(EncryptionType::AES128, &sample(), &key).unwrap();
    c[20] ^= 1;
    assert_eq!(encryption::decrypt(EncryptionType::AES128, &c, &key), Err(MangoError::DecryptionFailed));
    assert_eq!(
        encryption::decrypt(EncryptionType::AES128, &vec![0u8; 5], &key),
        Err(MangoError::DecryptionFailed)
    );
}

#[test]
fn image_wrong_credential_is_decryption_failed() {
    let image = Base64Image::from_raw_bytes(&sample(), Mime::JPEG);
    let e = image.encrypt(EncryptionType::AES128, &"1234567812345678".to_string()).unwrap();
    assert_eq!(e.decrypt(&"wrong_key_wrong__".to_string()).unwrap_err(), MangoError::DecryptionFailed);
}

#[test]
fn stage_order_compress_then_encrypt() {
    let raw = sample();
    let image = Base64Image::from_raw_bytes(&raw, Mime::PNG);
    let key = "pw".to_string();
    let c = image.compress(CompressionType::GZIP).unwrap();
    let e = c.encrypt(EncryptionType::AES256, &key).unwrap();
    assert_eq!(
        e.get_meta().stages,
        vec![Stage::Compression(CompressionType::GZIP), Stage::Encryption(EncryptionType::AES256)]
    );
    assert_eq!(e.uncompress().unwrap_err(), MangoError::NoCompressionApplied);
    assert_eq!(e.raw_bytes(), Err(MangoError::PipelineNotFullyReversed));
    let d = e.decrypt(&key).unwrap();
    assert_eq!(d.get_image(), c.get_image());
    assert_eq!(d.decrypt(&key).unwrap_err(), MangoError::NoEncryptionApplied);
    let u = d.uncompress().unwrap();
    assert_eq!(u.get_image(), image.get_image());
    assert_eq!(u.get_meta().mime, Mime::PNG);
    assert_eq!(u.raw_bytes(), Ok(raw));
}

#[test]
fn compress_twice_is_refused() {
    let image = Base64Image::from_raw_bytes(&sample(), Mime::JPEG);
    let c = image.compress(CompressionType::GZIP).unwrap();
    assert_eq!(c.compress(CompressionType::GZIP).unwrap_err(), MangoError::AlreadyCompressed);
    let e = c.encrypt(EncryptionType::AES128, &"k".to_string()).unwrap();
    assert!(e.compress(CompressionType::GZIP).is_ok());
}

#[test]
fn uncompress_raw_image_is_refused() {
    let image = Base64Image::from_raw_bytes(&vec![1, 2, 3], Mime::JPEG);
    assert_eq!(image.uncompress().unwrap_err(), MangoError::NoCompressionApplied);
    assert_eq!(image.decrypt(&"k".to_string()).unwrap_err(), MangoError::NoEncryptionApplied);
}

#[test]
fn corrupt_payload_text_is_reported() {
    let image = Base64Image::new("@@@".to_string(), Base64ImageMetadata::new(Mime::JPEG));
    assert_eq!(image.raw_bytes(), Err(MangoError::CorruptPayload));
    assert_eq!(image.compress(CompressionType::GZIP).unwrap_err(), MangoError::CorruptPayload);
    let mut meta = Base64ImageMetadata::new(Mime::JPEG);
    meta.stages.push(Stage::Compression(CompressionType::GZIP));
    let not_gzip = Base64Image::new(encode(&vec![1, 2, 3]), meta);
    assert_eq!(not_gzip.uncompress().unwrap_err(), MangoError::CorruptPayload);
}

#[test]
fn album_scenario() {
    let raw = vec![0xDE, 0xAD, 0xBE, 0xEF];
    let mut doc = MangoFile::new("album".to_string());
    doc.add_image(Base64Image::from_raw_bytes(&raw, Mime::JPEG));
    assert_eq!(doc.get_name(), "album");
    assert_eq!(doc.len(), 1);
    let image = doc.get_image(0).unwrap();
    assert_eq!(image.get_image(), "3q2+7w==");
    assert!(image.get_meta().stages.is_empty());
    assert_eq!(image.raw_bytes(), Ok(raw));
}

#[test]
fn get_on_empty_container_is_out_of_range() {
    let doc = MangoFile::new("empty".to_string());
    for i in [0usize, 1, 100, usize::MAX] {
        assert_eq!(doc.get_image(i).unwrap_err(), MangoError::IndexOutOfRange);
    }
}

#[test]
fn container_keeps_order_and_duplicates() {
    let mut doc = MangoFile::new("a".to_string());
    let one = Base64Image::from_raw_bytes(&vec![1], Mime::JPEG);
    let two = Base64Image::from_raw_bytes(&vec![2], Mime::PNG);
    doc.add_image(one.clone());
    doc.add_image(two.clone());
    doc.add_image(one.clone());
    assert_eq!(doc.len(), 3);
    assert_eq!(doc.get_image(1).unwrap().get_image(), two.get_image());
    assert_eq!(doc.get_image(2).unwrap().get_image(), one.get_image());
    assert_eq!(doc.set_image(3, two.clone()), Err(MangoError::IndexOutOfRange));
    assert_eq!(doc.set_image(0, two.clone()), Ok(()));
    assert_eq!(doc.get_image(0).unwrap().get_image(), two.get_image());
    doc.set_name("b".to_string());
    assert_eq!(doc.get_name(), "b");
    assert_eq!(doc.get_images().len(), 3);
}

#[test]
fn tag_names() {
    assert_eq!(to_comp_type("GZIP".to_string()), Some(CompressionType::GZIP));
    assert_eq!(to_comp_type("gzip".to_string()), None);
    assert_eq!(to_enc_type("AES128".to_string()), Some(EncryptionType::AES128));
    assert_eq!(to_enc_type("AES256".to_string()), Some(EncryptionType::AES256));
    assert_eq!(to_enc_type("DES".to_string()), None);
    assert_eq!(from_comp_type(CompressionType::GZIP), "GZIP");
    assert_eq!(from_enc_type(EncryptionType::AES128), "AES128");
    assert_eq!(from_enc_type(EncryptionType::AES256), "AES256");
    assert_eq!(from_mime(Mime::JPEG), "JPEG");
    assert_eq!(from_mime(Mime::PNG), "PNG");
}

#[test]
fn unknown_algorithm_name_is_unsupported() {
    assert_eq!(resolve_compression("GZIP".to_string()), Ok(CompressionType::GZIP));
    assert_eq!(resolve_compression("LZMA".to_string()), Err(MangoError::UnsupportedAlgorithm));
    assert_eq!(resolve_encryption("AES256".to_string()), Ok(EncryptionType::AES256));
    assert_eq!(resolve_encryption("aes128".to_string()), Err(MangoError::UnsupportedAlgorithm));
}

#[test]
fn media_type_from_extension() {
    assert_eq!(mime_from_extension(&"jpg".to_string()), Ok(Mime::JPEG));
    assert_eq!(mime_from_extension(&"JPEG".to_string()), Ok(Mime::JPEG));
    assert_eq!(mime_from_extension(&"png".to_string()), Ok(Mime::PNG));
    assert_eq!(mime_from_extension(&"gif".to_string()), Err(MangoError::UnsupportedMediaType));
}

#[test]
fn each_encryption_draws_a_fresh_nonce() {
    let key = "k".to_string();
    let b = vec![1u8, 2, 3];
    let c1 = encryption::encrypt(EncryptionType::AES128, &b, &key).unwrap();
    let c2 = encryption::encrypt(EncryptionType::AES128, &b, &key).unwrap();
    assert_ne!(c1, c2);
    assert_eq!(encryption::decrypt(EncryptionType::AES128, &c2, &key), Ok(b));
}
