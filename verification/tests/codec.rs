use novaflow::content::{decode_content, encode_body, EncodedContent, MessageBody};
use novaflow::digest::{credential_digest, DIGEST_MASK};
use novaflow::errors::StoreError;

#[test]
fn mixed_round_trip_keeps_text_and_image_order() {
    let body = MessageBody::Mixed {
        text: "hello".to_string(),
        images: vec!["first".to_string(), "second".to_string()],
    };
    let encoded = encode_body(&body);
    assert_eq!(encoded.kind, "mixed");
    assert_eq!(encoded.text, "hello");
    assert_eq!(encoded.images, vec!["first".to_string(), "second".to_string()]);
    let decoded = decode_content(&encoded).unwrap();
    assert_eq!(decoded, body);
}

#[test]
fn text_round_trip() {
    let body = MessageBody::Text { text: "plain".to_string() };
    let encoded = encode_body(&body);
    assert_eq!(encoded.kind, "text");
    assert_eq!(encoded.images.len(), 0);
    assert_eq!(decode_content(&encoded).unwrap(), body);
}

#[test]
fn image_round_trip() {
    let body = MessageBody::Image { image: "img64".to_string(), caption: "a cat".to_string() };
    let encoded = encode_body(&body);
    assert_eq!(encoded.kind, "image");
    assert_eq!(encoded.text, "a cat");
    assert_eq!(encoded.images, vec!["img64".to_string()]);
    assert_eq!(decode_content(&encoded).unwrap(), body);
}

#[test]
fn unknown_discriminant_is_malformed() {
    let encoded = EncodedContent {
        kind: "video".to_string(),
        text: String::new(),
        images: Vec::new(),
    };
    assert_eq!(decode_content(&encoded), Err(StoreError::MalformedContent));
}

#[test]
fn inconsistent_fields_are_malformed() {
    let text_with_images = EncodedContent {
        kind: "text".to_string(),
        text: "t".to_string(),
        images: vec!["stray".to_string()],
    };
    assert_eq!(decode_content(&text_with_images), Err(StoreError::MalformedContent));
    let image_without_image = EncodedContent {
        kind: "image".to_string(),
        text: "caption".to_string(),
        images: Vec::new(),
    };
    assert_eq!(decode_content(&image_without_image), Err(StoreError::MalformedContent));
}

#[test]
fn digest_masks_every_code_point() {
    let d = credential_digest("a");
    assert_eq!(d, vec![('a' as u32) ^ DIGEST_MASK]);
    assert_ne!(d[0], 'a' as u32);
    let empty = credential_digest("");
    assert_eq!(empty.len(), 0);
}

#[test]
fn digest_is_deterministic_and_separates_inputs() {
    assert_eq!(credential_digest("pw123"), credential_digest("pw123"));
    assert_ne!(credential_digest("pw123"), credential_digest("pw124"));
}

#[test]
fn error_messages_name_their_cause() {
    assert_eq!(StoreError::StorageUnavailable.message(), "storage engine unavailable");
    assert_eq!(StoreError::SchemaDefinitionFailed.message(), "schema definition failed");
    assert_eq!(StoreError::DuplicateUsername.message(), "username already taken");
    assert_eq!(StoreError::DuplicateTitle.message(), "conversation title already taken");
    assert_eq!(StoreError::InvalidCredentials.message(), "invalid credentials");
    assert_eq!(StoreError::MalformedContent.message(), "stored message content is malformed");
}
