//! The images that come with a new item.
//!
//! An image is given inline, as a data URI with its bytes in base64 after
//! the one comma of the URI, or as a web address to fetch it from, or as
//! the path of a local file.

use vstd::prelude::*;
use base64::Engine;
use crate::text::starts_with;

verus! {

#[verifier::external_type_specification]
#[verifier::external_body]
pub struct ExDecodeError(base64::DecodeError);

/// The bytes that `text` stands for in standard base64 with padding; `None`
/// where it is no such text.
pub uninterp spec fn base64_decoded(text: Seq<char>) -> Option<Seq<u8>>;

/// Calls `Engine::decode` of the base64 crate on its `STANDARD` engine. The
/// result depends on the text alone; the contract gives the decoded bytes
/// their name and says that an error comes exactly where there are none.
#[verifier::external_body]
fn base64_decode(text: &str) -> (result: Result<Vec<u8>, base64::DecodeError>)
    ensures
        match result {
            Ok(bytes) => base64_decoded(text@) == Some(bytes@),
            Err(_) => base64_decoded(text@) is None,
        },
{
    base64::engine::general_purpose::STANDARD.decode(text)
}

/// Renders a `base64::DecodeError` through its `Display`. Nothing is
/// claimed of the text.
#[verifier::external_body]
fn decode_error_text(error: &base64::DecodeError) -> (text: String) {
    error.to_string()
}

/// Where the bytes of an image come from.
#[derive(Debug, PartialEq, Eq)]
pub enum ImageSource {
    /// The bytes are given in base64.
    Inline { payload: String },
    /// The bytes are fetched from a web address.
    Remote { url: String },
    /// The bytes are read from a local file.
    Local { path: String },
}

pub ghost enum ImageSourceView {
    Inline { payload: Seq<char> },
    Remote { url: Seq<char> },
    Local { path: Seq<char> },
}

impl View for ImageSource {
    type V = ImageSourceView;

    open spec fn view(&self) -> ImageSourceView {
        match self {
            ImageSource::Inline { payload } => ImageSourceView::Inline { payload: payload@ },
            ImageSource::Remote { url } => ImageSourceView::Remote { url: url@ },
            ImageSource::Local { path } => ImageSourceView::Local { path: path@ },
        }
    }
}

/// Why an inline image cannot be used.
#[derive(Debug, PartialEq, Eq)]
pub enum ImageError {
    /// The data URI does not hold exactly one comma.
    Malformed,
    /// What follows the comma is no base64.
    Undecodable { detail: String },
}

impl ImageError {
    pub open spec fn text(self) -> Seq<char> {
        match self {
            ImageError::Malformed => "Invalid base64 image format"@,
            ImageError::Undecodable { detail } => "Failed to decode base64 image: "@ + detail@,
        }
    }

    pub fn message(&self) -> (text: String)
        ensures
            text@ == self.text(),
    {
        match self {
            ImageError::Malformed => String::from_str("Invalid base64 image format"),
            ImageError::Undecodable { detail } => String::from_str(
                "Failed to decode base64 image: ",
            ).concat(detail.as_str()),
        }
    }
}

/// Whether `text` holds a comma at `at` and nowhere else.
pub open spec fn only_comma_at(text: Seq<char>, at: int) -> bool {
    &&& 0 <= at < text.len()
    &&& forall|k: int| 0 <= k < text.len() ==> (text[k] == ',' <==> k == at)
}

/// What follows the comma of a text with exactly one comma; `None` for a
/// text with no comma or with several.
pub open spec fn after_only_comma(text: Seq<char>) -> Option<Seq<char>> {
    if exists|at: int| only_comma_at(text, at) {
        let at = choose|at: int| only_comma_at(text, at);
        Some(text.skip(at + 1))
    } else {
        None
    }
}

/// Where the bytes of the image `input` come from.
pub open spec fn source_of(input: Seq<char>) -> Result<ImageSourceView, ()> {
    if "data:image"@.is_prefix_of(input) {
        match after_only_comma(input) {
            Some(payload) => Ok(ImageSourceView::Inline { payload }),
            None => Err(()),
        }
    } else if "http://"@.is_prefix_of(input) || "https://"@.is_prefix_of(input) {
        Ok(ImageSourceView::Remote { url: input })
    } else {
        Ok(ImageSourceView::Local { path: input })
    }
}

/// What follows the comma of a text with exactly one comma.
pub fn payload_after_comma(text: &str) -> (payload: Option<String>)
    ensures
        payload.deep_view() == after_only_comma(text@),
{
    let n: usize = text.unicode_len();
    let mut found: Option<usize> = None;
    let mut i: usize = 0;
    while i < n
        invariant
            i <= n,
            n == text@.len(),
            match found {
                Some(at) => at < i && forall|k: int| 0 <= k < i ==> (text@[k] == ',' <==> k == at),
                None => forall|k: int| 0 <= k < i ==> text@[k] != ',',
            },
        decreases n - i,
    {
        if text.get_char(i) == ',' {
            match found {
                Some(at) => {
                    assert forall|other: int| !only_comma_at(text@, other) by {
                        if only_comma_at(text@, other) {
                            assert(text@[at as int] == ',' && text@[i as int] == ',');
                        }
                    }
                    return None;
                },
                None => {
                    found = Some(i);
                },
            }
        }
        i = i + 1;
    }
    match found {
        Some(at) => {
            assert(only_comma_at(text@, at as int));
            let ghost chosen = choose|at: int| only_comma_at(text@, at);
            assert(chosen == at) by {
                assert(text@[chosen] == ',');
            }
            let rest = text.substring_char(at + 1, n);
            assert(text@.subrange(at + 1, n as int) =~= text@.skip(at + 1));
            Some(String::from_str(rest))
        },
        None => {
            assert forall|other: int| !only_comma_at(text@, other) by {
                if only_comma_at(text@, other) {
                    assert(text@[other] == ',');
                }
            }
            None
        },
    }
}

/// Says where the bytes of the image `input` come from.
pub fn classify_image(input: &str) -> (source: Result<ImageSource, ImageError>)
    ensures
        match (source, source_of(input@)) {
            (Ok(found), Ok(expected)) => found@ == expected,
            (Err(why), Err(_)) => why is Malformed,
            _ => false,
        },
{
    if starts_with(input, "data:image") {
        match payload_after_comma(input) {
            Some(payload) => Ok(ImageSource::Inline { payload }),
            None => Err(ImageError::Malformed),
        }
    } else if starts_with(input, "http://") || starts_with(input, "https://") {
        Ok(ImageSource::Remote { url: String::from_str(input) })
    } else {
        Ok(ImageSource::Local { path: String::from_str(input) })
    }
}

/// The bytes of an inline image.
pub fn decode_inline(payload: &str) -> (bytes: Result<Vec<u8>, ImageError>)
    ensures
        match bytes {
            Ok(bytes) => base64_decoded(payload@) == Some(bytes@),
            Err(why) => base64_decoded(payload@) is None && why is Undecodable,
        },
{
    match base64_decode(payload) {
        Ok(bytes) => Ok(bytes),
        Err(error) => Err(ImageError::Undecodable { detail: decode_error_text(&error) }),
    }
}

} // verus!
