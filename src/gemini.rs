//! The Gemini protocol and its gemtext documents.
use vstd::prelude::*;
use vstd::utf8::{decode_utf8, valid_utf8};

use crate::{FromData, ProtoData};

verus! {

/// The media type of a gemtext document.
pub open spec fn gemtext_mime() -> Seq<char> {
    "text/gemini"@
}

/// What `String::from_utf8_lossy` makes of `bytes`.
pub uninterp spec fn lossy_utf8(bytes: Seq<u8>) -> Seq<char>;

/// Relies on `String::from_utf8_lossy`: bytes that are valid UTF-8 come out as
/// the characters they encode; otherwise invalid sequences are replaced.
#[verifier::external_body]
fn decode_lossy(bytes: &[u8]) -> (r: String)
    ensures
        r@ == lossy_utf8(bytes@),
        valid_utf8(bytes@) ==> r@ == decode_utf8(bytes@),
{
    String::from_utf8_lossy(bytes).into_owned()
}

fn is_gemtext(mime: &str) -> (r: bool)
    ensures
        r == (mime@ == gemtext_mime()),
{
    let expected: String = "text/gemini".to_owned();
    let given: String = mime.to_owned();
    given == expected
}

/// The Gemini protocol, and the renderer of gemtext.
#[derive(Default)]
pub struct Gemini {}

impl Gemini {
    /// Whether this renderer draws documents of media type `mime`.
    pub fn matches(&self, mime: &str) -> (r: bool)
        ensures
            r == (mime@ == gemtext_mime()),
    {
        is_gemtext(mime)
    }
}

/// A gemtext document.
#[derive(Default)]
pub struct Gemtext {}

/// The text of a gemtext document, ready to draw.
#[derive(Clone)]
pub struct GeminiRenderData(pub String);

impl View for GeminiRenderData {
    type V = Seq<char>;

    open spec fn view(&self) -> Seq<char> {
        self.0@
    }
}

impl FromData for GeminiRenderData {
    /// A gemtext document gives its bytes decoded as UTF-8, with invalid
    /// sequences replaced; any other media type gives nothing.
    open spec fn spec_from_data(data: ProtoData) -> Option<Seq<char>> {
        if data.mime@ == gemtext_mime() {
            Some(lossy_utf8(data.data@))
        } else {
            None
        }
    }

    fn from_data(data: &ProtoData) -> (r: Option<GeminiRenderData>) {
        if is_gemtext(data.mime.as_str()) {
            Some(GeminiRenderData(decode_lossy(&data.data)))
        } else {
            None
        }
    }
}

} // verus!
