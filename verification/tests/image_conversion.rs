use llm_load_balancer::images::{
    convert_webp_images_to_jpeg, convert_webp_to_jpeg, ImageConversionError,
};
use llm_load_balancer::json::{JsonMember, JsonValue};

fn text(s: &str) -> JsonValue {
    JsonValue::Str(s.to_string())
}

fn member(key: &str, value: JsonValue) -> JsonMember {
    JsonMember { key: key.to_string(), value }
}

/// A 1x1 lossy WebP picture.
const TINY_WEBP: &str = "data:image/webp;base64,UklGRiIAAABXRUJQVlA4IBYAAAAwAQCdASoBAAEADsD+JaQAA3AAAAAA";

/// A 1x1 lossless WebP picture.
const TINY_LOSSLESS_WEBP: &str = "data:image/webp;base64,UklGRhoAAABXRUJQVlA4TA0AAAAvAAAAEAcQERGIiP4HAA==";

#[test]
fn test_convert_webp_to_jpeg() {
    // Minimal valid WebP files in base64: a 1x1 lossy and a 1x1 lossless
    // picture. (A payload of 221 base64 characters, which cannot encode whole
    // bytes, is refused as malformed base64 instead.)
    for webp_uri in [TINY_WEBP, TINY_LOSSLESS_WEBP] {
        let result = convert_webp_to_jpeg(webp_uri);
        assert!(result.is_ok());
        let jpeg_uri = result.unwrap();
        assert!(jpeg_uri.starts_with("data:image/jpeg;base64,"));
        let payload = &jpeg_uri["data:image/jpeg;base64,".len()..];
        let bytes = base64::Engine::decode(&base64::engine::general_purpose::STANDARD, payload).unwrap();
        // JPEG start-of-image marker
        assert_eq!(&bytes[..2], &[0xFF, 0xD8]);
    }
}

#[test]
fn converted_document_converts_again_to_itself() {
    let doc = JsonValue::Array(vec![text(TINY_WEBP), text("plain")]);
    let once = convert_webp_images_to_jpeg(&doc);
    assert_ne!(once, doc);
    let twice = convert_webp_images_to_jpeg(&once);
    assert_eq!(twice, once);
}

#[test]
fn conversion_refuses_text_without_the_webp_prefix() {
    assert_eq!(
        convert_webp_to_jpeg("data:image/png;base64,AAAA"),
        Err(ImageConversionError::InvalidDataUri)
    );
    assert_eq!(
        ImageConversionError::InvalidDataUri.message(),
        "Invalid WebP data URI format"
    );
}

#[test]
fn conversion_refuses_malformed_base64() {
    assert_eq!(
        convert_webp_to_jpeg("data:image/webp;base64,@@@"),
        Err(ImageConversionError::InvalidBase64)
    );
    assert_eq!(
        ImageConversionError::InvalidBase64.message(),
        "Failed to decode base64 WebP data"
    );
}

#[test]
fn conversion_refuses_bytes_that_are_no_picture() {
    // "hello world" in base64
    assert_eq!(
        convert_webp_to_jpeg("data:image/webp;base64,aGVsbG8gd29ybGQ="),
        Err(ImageConversionError::UndecodableImage)
    );
    assert_eq!(
        ImageConversionError::UndecodableImage.message(),
        "Failed to decode WebP image"
    );
}

#[test]
fn document_conversion_touches_only_webp_strings() {
    let doc = JsonValue::Object(vec![
        member("model", text("model-one")),
        member(
            "messages",
            JsonValue::Array(vec![JsonValue::Object(vec![
                member("url", text(TINY_WEBP)),
                member("plain", text("data:image/webp;base64")),
                member("flag", JsonValue::Bool(true)),
            ])]),
        ),
    ]);
    let out = convert_webp_images_to_jpeg(&doc);
    match &out {
        JsonValue::Object(members) => {
            assert_eq!(members.len(), 2);
            assert_eq!(members[0], member("model", text("model-one")));
            match &members[1].value {
                JsonValue::Array(items) => match &items[0] {
                    JsonValue::Object(inner) => {
                        match &inner[0].value {
                            JsonValue::Str(s) => assert!(s.starts_with("data:image/jpeg;base64,")),
                            other => panic!("unexpected {:?}", other),
                        }
                        assert_eq!(inner[1], member("plain", text("data:image/webp;base64")));
                        assert_eq!(inner[2], member("flag", JsonValue::Bool(true)));
                    }
                    other => panic!("unexpected {:?}", other),
                },
                other => panic!("unexpected {:?}", other),
            }
        }
        other => panic!("unexpected {:?}", other),
    }
}

#[test]
fn document_without_webp_is_unchanged() {
    let doc = JsonValue::Array(vec![
        text("hello"),
        JsonValue::Null,
        JsonValue::Int(-3),
        JsonValue::Other(serde_json::Value::from(2.5)),
        JsonValue::Object(vec![member("k", text("data:image/jpeg;base64,AAAA"))]),
    ]);
    let out = convert_webp_images_to_jpeg(&doc);
    assert_eq!(out, doc);
}

#[test]
fn undecodable_webp_string_stays_as_it_was() {
    let doc = JsonValue::Str("data:image/webp;base64,aGVsbG8=".to_string());
    assert_eq!(convert_webp_images_to_jpeg(&doc), doc);
}

#[test]
fn picture_of_another_format_under_the_webp_label_converts() {
    // A 1x1 PNG picture; the format is guessed from the bytes, not the label.
    let uri = "data:image/webp;base64,iVBORw0KGgoAAAANSUhEUgAAAAEAAAABCAQAAAC1HAwCAAAAC0lEQVR42mNkYAAAAAYAAjCB0C8AAAAASUVORK5CYII=";
    let jpeg_uri = convert_webp_to_jpeg(uri).unwrap();
    assert!(jpeg_uri.starts_with("data:image/jpeg;base64,"));
}
