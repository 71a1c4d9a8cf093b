//! Turning WebP images inside chat requests into JPEG ones.

use vstd::prelude::*;
use base64::Engine;
use crate::json::{entries_of, lemma_array_view, lemma_object_view, object_map, JsonMember, JsonValue, JsonView};
use crate::text::text_starts_with;

verus! {

/// What `base64::engine::general_purpose::STANDARD.decode` gives for a text:
/// the bytes it encodes, or nothing when it is not standard base64.
pub uninterp spec fn base64_decoding(text: Seq<char>) -> Option<Seq<u8>>;

/// What `base64::engine::general_purpose::STANDARD.encode` gives for bytes.
pub uninterp spec fn base64_encoding(bytes: Seq<u8>) -> Seq<char>;

/// Whether the `image` crate recognizes and decodes the bytes as a picture
/// (`ImageReader::with_guessed_format` then `decode`).
pub uninterp spec fn image_decodes(bytes: Seq<u8>) -> bool;

/// The JPEG bytes that the `image` crate makes of the picture the bytes hold,
/// converted to RGB8 (`DynamicImage::to_rgb8`, `JpegEncoder::encode_image`);
/// nothing when the bytes do not decode or the encoder refuses the picture.
pub uninterp spec fn jpeg_transcoding(bytes: Seq<u8>) -> Option<Seq<u8>>;

/// `STANDARD.decode` from base64: the decoded bytes, or `None` on malformed input.
#[verifier::external_body]
fn decode_base64(text: &str) -> (bytes: Option<Vec<u8>>)
    ensures
        match bytes {
            Some(b) => base64_decoding(text@) == Some(b@),
            None => base64_decoding(text@) is None,
        },
{
    base64::engine::general_purpose::STANDARD.decode(text).ok()
}

/// `STANDARD.encode` from base64.
#[verifier::external_body]
fn encode_base64(bytes: &[u8]) -> (text: String)
    ensures
        text@ == base64_encoding(bytes@),
{
    base64::engine::general_purpose::STANDARD.encode(bytes)
}

/// `image::ImageReader::new(..).with_guessed_format()` and `decode()`, then
/// `DynamicImage::to_rgb8` and `image::codecs::jpeg::JpegEncoder::encode_image`:
/// the picture the bytes hold as JPEG bytes. The failure says which step
/// refused.
#[verifier::external_body]
fn transcode_to_jpeg(bytes: &[u8]) -> (r: Result<Vec<u8>, ImageConversionError>)
    ensures
        match r {
            Ok(jpeg) => image_decodes(bytes@) && jpeg_transcoding(bytes@) == Some(jpeg@),
            Err(ImageConversionError::UndecodableImage) => !image_decodes(bytes@)
                && jpeg_transcoding(bytes@) is None,
            Err(ImageConversionError::JpegEncodingFailed) => image_decodes(bytes@)
                && jpeg_transcoding(bytes@) is None,
            Err(_) => false,
        },
{
    let reader = match image::ImageReader::new(std::io::Cursor::new(bytes)).with_guessed_format() {
        Ok(reader) => reader,
        Err(_) => return Err(ImageConversionError::UndecodableImage),
    };
    let picture = match reader.decode() {
        Ok(picture) => picture,
        Err(_) => return Err(ImageConversionError::UndecodableImage),
    };
    let mut out: Vec<u8> = Vec::new();
    match image::codecs::jpeg::JpegEncoder::new(&mut out).encode_image(&picture.to_rgb8()) {
        Ok(()) => Ok(out),
        Err(_) => Err(ImageConversionError::JpegEncodingFailed),
    }
}

pub open spec fn webp_prefix() -> Seq<char> {
    "data:image/webp;base64,"@
}

pub open spec fn jpeg_prefix() -> Seq<char> {
    "data:image/jpeg;base64,"@
}

pub open spec fn is_webp_uri(text: Seq<char>) -> bool {
    webp_prefix().len() <= text.len() && text.subrange(0, webp_prefix().len() as int)
        == webp_prefix()
}

/// The base64 part of a WebP data URI.
pub open spec fn webp_payload(text: Seq<char>) -> Seq<char> {
    text.subrange(webp_prefix().len() as int, text.len() as int)
}

/// Why a WebP data URI could not be turned into a JPEG one.
#[derive(Debug, PartialEq)]
pub enum ImageConversionError {
    /// The text does not start with `data:image/webp;base64,`.
    InvalidDataUri,
    /// The payload is not standard base64.
    InvalidBase64,
    /// The decoded bytes are not a picture.
    UndecodableImage,
    /// The JPEG encoder refused the picture.
    JpegEncodingFailed,
}

impl ImageConversionError {
    pub fn message(&self) -> (m: String)
        ensures
            m@ == match self {
                ImageConversionError::InvalidDataUri => "Invalid WebP data URI format"@,
                ImageConversionError::InvalidBase64 => "Failed to decode base64 WebP data"@,
                ImageConversionError::UndecodableImage => "Failed to decode WebP image"@,
                ImageConversionError::JpegEncodingFailed => "Failed to encode JPEG image"@,
            },
    {
        match self {
            ImageConversionError::InvalidDataUri => String::from_str("Invalid WebP data URI format"),
            ImageConversionError::InvalidBase64 => String::from_str(
                "Failed to decode base64 WebP data",
            ),
            ImageConversionError::UndecodableImage => String::from_str("Failed to decode WebP image"),
            ImageConversionError::JpegEncodingFailed => String::from_str(
                "Failed to encode JPEG image",
            ),
        }
    }
}

/// What converting a text gives: the JPEG data URI for a WebP data URI whose
/// payload is base64 of a picture that encodes as JPEG, else the reason why not.
pub open spec fn webp_conversion(text: Seq<char>) -> Result<Seq<char>, ImageConversionError> {
    if !is_webp_uri(text) {
        Err(ImageConversionError::InvalidDataUri)
    } else {
        match base64_decoding(webp_payload(text)) {
            None => Err(ImageConversionError::InvalidBase64),
            Some(bytes) => if !image_decodes(bytes) {
                Err(ImageConversionError::UndecodableImage)
            } else {
                match jpeg_transcoding(bytes) {
                    None => Err(ImageConversionError::JpegEncodingFailed),
                    Some(jpeg) => Ok(jpeg_prefix() + base64_encoding(jpeg)),
                }
            },
        }
    }
}

/// Turns a WebP data URI into a JPEG data URI.
pub fn convert_webp_to_jpeg(webp_data_uri: &str) -> (r: Result<String, ImageConversionError>)
    ensures
        match r {
            Ok(jpeg) => webp_conversion(webp_data_uri@) == Ok::<Seq<char>, ImageConversionError>(
                jpeg@,
            ),
            Err(e) => webp_conversion(webp_data_uri@) == Err::<Seq<char>, ImageConversionError>(e),
        },
{
    let prefix = "data:image/webp;base64,";
    if !text_starts_with(webp_data_uri, prefix) {
        return Err(ImageConversionError::InvalidDataUri);
    }
    let payload = webp_data_uri.substring_char(prefix.unicode_len(), webp_data_uri.unicode_len());
    let bytes = match decode_base64(payload) {
        Some(b) => b,
        None => {
            return Err(ImageConversionError::InvalidBase64);
        },
    };
    let jpeg = match transcode_to_jpeg(bytes.as_slice()) {
        Ok(j) => j,
        Err(e) => {
            return Err(e);
        },
    };
    let encoded = encode_base64(jpeg.as_slice());
    let mut uri = String::from_str("data:image/jpeg;base64,");
    uri.append(encoded.as_str());
    Ok(uri)
}

} // verus!

verus! {

/// What becomes of one string of the document: a WebP data URI that converts
/// becomes its JPEG data URI; every other string stays as it is.
pub open spec fn webp_text_converted(before: Seq<char>) -> Seq<char> {
    match webp_conversion(before) {
        Ok(jpeg) => jpeg,
        Err(_) => before,
    }
}

/// The document with its strings converted and nothing else changed: the same
/// shape, the same keys in the same order, each member and each item converted
/// in turn, every other value as it was.
pub open spec fn webp_converted_view(value: JsonView) -> JsonView
    decreases value,
{
    match value {
        JsonView::Str(s) => JsonView::Str(webp_text_converted(s)),
        JsonView::Array(items) => JsonView::Array(
            Seq::new(items.len(), |i: int| {
                if 0 <= i < items.len() { webp_converted_view(items[i]) } else { JsonView::Null }
            }),
        ),
        JsonView::Object(entries) => JsonView::Object(
            Seq::new(entries.len(), |i: int| {
                if 0 <= i < entries.len() {
                    (entries[i].0, webp_converted_view(entries[i].1))
                } else {
                    (Seq::empty(), JsonView::Null)
                }
            }),
        ),
        _ => value,
    }
}

/// Converts every WebP data URI among the strings of the document to JPEG.
pub fn convert_webp_images_to_jpeg(value: &JsonValue) -> (r: JsonValue)
    ensures
        r@ == webp_converted_view(value@),
    decreases value,
{
    match value {
        JsonValue::Object(members) => {
            let mut out: Vec<JsonMember> = Vec::new();
            let mut i: usize = 0;
            proof {
                lemma_object_view(*members);
            }
            while i < members.len()
                invariant
                    i <= members.len(),
                    *value == JsonValue::Object(*members),
                    out@.len() == i,
                    forall|j: int|
                        0 <= j < i ==> (#[trigger] out@[j]).key@ == members@[j].key@
                            && out@[j].value@ == webp_converted_view(members@[j].value@),
                decreases members.len() - i,
            {
                proof {
                    vstd::std_specs::vec::axiom_vec_index_decreases(*members, i as int);
                    assert(decreases_to!(*value => (*value)->Object_0));
                    assert(decreases_to!(*members => members[i as int]));
                    assert(decreases_to!(members[i as int] => members[i as int].value));
                }
                let converted = convert_webp_images_to_jpeg(&members[i].value);
                out.push(JsonMember { key: members[i].key.clone(), value: converted });
                i = i + 1;
            }
            proof {
                lemma_object_view(out);
                if let JsonView::Object(expected) = webp_converted_view(value@) {
                    assert(entries_of(out@) =~= expected);
                }
            }
            JsonValue::Object(out)
        },
        JsonValue::Array(items) => {
            let mut out: Vec<JsonValue> = Vec::new();
            let mut i: usize = 0;
            proof {
                lemma_array_view(*items);
            }
            while i < items.len()
                invariant
                    i <= items.len(),
                    *value == JsonValue::Array(*items),
                    out@.len() == i,
                    forall|j: int| 0 <= j < i ==> (#[trigger] out@[j])@ == webp_converted_view(items@[j]@),
                decreases items.len() - i,
            {
                proof {
                    vstd::std_specs::vec::axiom_vec_index_decreases(*items, i as int);
                    assert(decreases_to!(*value => (*value)->Array_0));
                    assert(decreases_to!(*items => items[i as int]));
                }
                let converted = convert_webp_images_to_jpeg(&items[i]);
                out.push(converted);
                i = i + 1;
            }
            proof {
                lemma_array_view(out);
                if let JsonView::Array(expected) = webp_converted_view(value@) {
                    assert(out@.map_values(|v: JsonValue| v@) =~= expected);
                }
            }
            JsonValue::Array(out)
        },
        JsonValue::Str(s) => {
            if text_starts_with(s.as_str(), "data:image/webp;base64,") {
                match convert_webp_to_jpeg(s.as_str()) {
                    Ok(jpeg_uri) => JsonValue::Str(jpeg_uri),
                    Err(_) => {
                        assert(webp_conversion(s@) is Err);
                        JsonValue::Str(s.clone())
                    },
                }
            } else {
                assert(!is_webp_uri(s@));
                JsonValue::Str(s.clone())
            }
        },
        JsonValue::Null => JsonValue::Null,
        JsonValue::Bool(b) => JsonValue::Bool(*b),
        JsonValue::Int(n) => JsonValue::Int(*n),
        JsonValue::UInt(n) => JsonValue::UInt(*n),
        JsonValue::Other(_) => value.duplicate(),
    }
}

} // verus!

verus! {

/// No string of the document is a WebP data URI.
pub open spec fn free_of_webp(value: JsonView) -> bool
    decreases value,
{
    match value {
        JsonView::Str(s) => !is_webp_uri(s),
        JsonView::Array(items) => forall|i: int|
            0 <= i < items.len() ==> free_of_webp(#[trigger] items[i]),
        JsonView::Object(entries) => forall|i: int|
            0 <= i < entries.len() ==> free_of_webp((#[trigger] entries[i]).1),
        _ => true,
    }
}

/// A document in which no string is a WebP data URI comes out of the
/// conversion unchanged.
pub proof fn law_document_without_webp_unchanged(value: JsonView)
    requires
        free_of_webp(value),
    ensures
        webp_converted_view(value) == value,
    decreases value,
{
    match value {
        JsonView::Array(items) => {
            assert forall|i: int| 0 <= i < items.len() implies webp_converted_view(items[i])
                == items[i] by {
                law_document_without_webp_unchanged(items[i]);
            }
            if let JsonView::Array(out) = webp_converted_view(value) {
                assert(out =~= items);
            }
        },
        JsonView::Object(entries) => {
            assert forall|i: int| 0 <= i < entries.len() implies webp_converted_view(entries[i].1)
                == entries[i].1 by {
                assert(free_of_webp(entries[i].1));
                law_document_without_webp_unchanged(entries[i].1);
            }
            if let JsonView::Object(out) = webp_converted_view(value) {
                assert(out =~= entries);
            }
        },
        _ => {},
    }
}

/// A JPEG data URI is never taken for a WebP one.
proof fn lemma_jpeg_uri_is_not_webp(rest: Seq<char>)
    ensures
        !is_webp_uri(jpeg_prefix() + rest),
{
    reveal_strlit("data:image/webp;base64,");
    reveal_strlit("data:image/jpeg;base64,");
    let text = jpeg_prefix() + rest;
    if is_webp_uri(text) {
        assert(text.subrange(0, 23)[11] == webp_prefix()[11]);
    }
}

/// Converting a string a second time changes nothing.
proof fn lemma_text_conversion_idempotent(text: Seq<char>)
    ensures
        webp_text_converted(webp_text_converted(text)) == webp_text_converted(text),
{
    if let Ok(jpeg) = webp_conversion(text) {
        let bytes = base64_decoding(webp_payload(text))->0;
        lemma_jpeg_uri_is_not_webp(base64_encoding(jpeg_transcoding(bytes)->0));
    }
}

/// Converting a converted document again changes nothing: no WebP data URI
/// that could be converted is left behind.
pub proof fn law_conversion_idempotent(value: JsonView)
    ensures
        webp_converted_view(webp_converted_view(value)) == webp_converted_view(value),
    decreases value,
{
    match value {
        JsonView::Str(s) => {
            lemma_text_conversion_idempotent(s);
        },
        JsonView::Array(items) => {
            assert forall|i: int| 0 <= i < items.len() implies webp_converted_view(
                webp_converted_view(items[i]),
            ) == webp_converted_view(items[i]) by {
                law_conversion_idempotent(items[i]);
            }
            if let JsonView::Array(once) = webp_converted_view(value) {
                if let JsonView::Array(twice) = webp_converted_view(webp_converted_view(value)) {
                    assert(twice =~= once);
                }
            }
        },
        JsonView::Object(entries) => {
            assert forall|i: int| 0 <= i < entries.len() implies webp_converted_view(
                webp_converted_view(entries[i].1),
            ) == webp_converted_view(entries[i].1) by {
                law_conversion_idempotent(entries[i].1);
            }
            if let JsonView::Object(once) = webp_converted_view(value) {
                if let JsonView::Object(twice) = webp_converted_view(webp_converted_view(value)) {
                    assert(twice =~= once);
                }
            }
        },
        _ => {},
    }
}

/// The entries of a converted object: each key kept, each value converted.
pub open spec fn converted_entries(entries: Seq<(Seq<char>, JsonView)>) -> Seq<(Seq<char>, JsonView)> {
    Seq::new(
        entries.len(),
        |i: int| {
            if 0 <= i < entries.len() {
                (entries[i].0, webp_converted_view(entries[i].1))
            } else {
                (Seq::empty(), JsonView::Null)
            }
        },
    )
}

proof fn lemma_converted_entries_map(entries: Seq<(Seq<char>, JsonView)>, key: Seq<char>)
    ensures
        object_map(converted_entries(entries)).contains_key(key) == object_map(entries).contains_key(
            key,
        ),
        object_map(entries).contains_key(key) ==> object_map(converted_entries(entries))[key]
            == webp_converted_view(object_map(entries)[key]),
    decreases entries.len(),
{
    if entries.len() > 0 {
        assert(converted_entries(entries).drop_last() =~= converted_entries(entries.drop_last()));
        lemma_converted_entries_map(entries.drop_last(), key);
    }
}

/// Each member of a converted object is the conversion of the member of the
/// same name, and no member is added or lost.
pub proof fn law_members_converted(value: JsonView, key: Seq<char>)
    requires
        value is Object,
    ensures
        webp_converted_view(value).field(key) == match value.field(key) {
            Some(member) => Some(webp_converted_view(member)),
            None => None,
        },
{
    if let JsonView::Object(entries) = value {
        if let JsonView::Object(out) = webp_converted_view(value) {
            assert(out =~= converted_entries(entries));
        }
        lemma_converted_entries_map(entries, key);
    }
}

/// Each item of a converted array is the conversion of the item at the same
/// place, and no item is added or lost.
pub proof fn law_items_converted(value: JsonView, i: int)
    requires
        value is Array,
        0 <= i < value->Array_0.len(),
    ensures
        webp_converted_view(value) is Array,
        webp_converted_view(value)->Array_0.len() == value->Array_0.len(),
        webp_converted_view(value)->Array_0[i] == webp_converted_view(value->Array_0[i]),
{
}

/// No string of the document is a WebP data URI that would convert.
pub open spec fn nothing_left_to_convert(value: JsonView) -> bool
    decreases value,
{
    match value {
        JsonView::Str(s) => webp_conversion(s) is Err,
        JsonView::Array(items) => forall|i: int|
            0 <= i < items.len() ==> nothing_left_to_convert(#[trigger] items[i]),
        JsonView::Object(entries) => forall|i: int|
            0 <= i < entries.len() ==> nothing_left_to_convert((#[trigger] entries[i]).1),
        _ => true,
    }
}

/// A converted document holds no WebP data URI that converts: every picture,
/// at any depth and at any place in any array or object, has been turned into
/// JPEG, and what is left as WebP is what cannot be converted.
pub proof fn law_nothing_left_to_convert(value: JsonView)
    ensures
        nothing_left_to_convert(webp_converted_view(value)),
    decreases value,
{
    match value {
        JsonView::Str(s) => {
            if let Ok(jpeg) = webp_conversion(s) {
                let bytes = base64_decoding(webp_payload(s))->0;
                lemma_jpeg_uri_is_not_webp(base64_encoding(jpeg_transcoding(bytes)->0));
            }
        },
        JsonView::Array(items) => {
            assert forall|i: int| 0 <= i < items.len() implies nothing_left_to_convert(
                webp_converted_view(items[i]),
            ) by {
                law_nothing_left_to_convert(items[i]);
            }
        },
        JsonView::Object(entries) => {
            assert forall|i: int| 0 <= i < entries.len() implies nothing_left_to_convert(
                webp_converted_view(entries[i].1),
            ) by {
                law_nothing_left_to_convert(entries[i].1);
            }
        },
        _ => {},
    }
}

} // verus!
