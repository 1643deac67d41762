//! The set of renderers that the viewer knows, and the choice among them.
use vstd::prelude::*;
use vstd::string::StringExecFns;

use crate::gemini::{gemtext_mime, Gemini, GeminiRenderData};
use crate::{FromData, ProtoData};

verus! {

/// The message shown for a document that no renderer draws.
pub open spec fn unsupported_message(mime: Seq<char>) -> Seq<char> {
    "Unsupported mimetype "@ + mime
}

/// Every renderer, each asked in turn for the documents it draws.
#[derive(Default)]
pub struct Renderers {
    pub gemini: Gemini,
}

/// A document's media type, with the data of each renderer that could read it.
#[derive(Clone)]
pub struct RenderersData {
    pub mime: String,
    pub gemini: Option<GeminiRenderData>,
}

impl View for RenderersData {
    type V = (Seq<char>, Option<Seq<char>>);

    open spec fn view(&self) -> (Seq<char>, Option<Seq<char>>) {
        (
            self.mime@,
            match self.gemini {
                Some(d) => Some(d@),
                None => None,
            },
        )
    }
}

impl FromData for RenderersData {
    /// Always some: the media type, and what each renderer's data makes of
    /// the document.
    open spec fn spec_from_data(data: ProtoData) -> Option<(Seq<char>, Option<Seq<char>>)> {
        Some((data.mime@, GeminiRenderData::spec_from_data(data)))
    }

    fn from_data(data: &ProtoData) -> (r: Option<RenderersData>) {
        Some(RenderersData { mime: data.mime.clone(), gemini: GeminiRenderData::from_data(data) })
    }
}

/// What to draw for a document.
pub enum RenderChoice<'a> {
    /// Draw it with the gemtext renderer, from this data.
    Gemini(&'a GeminiRenderData),
    /// No renderer draws it: show this message instead.
    Unsupported(String),
}

impl Renderers {
    /// The set as a whole takes every media type.
    pub fn matches(&self, _mime: &str) -> (r: bool)
        ensures
            r,
    {
        true
    }

    /// The first renderer that takes the document's media type and has data
    /// for it; the unsupported message where there is none.
    pub fn select<'a>(&self, data: &'a RenderersData) -> (r: RenderChoice<'a>)
        ensures
            match r {
                RenderChoice::Gemini(d) => data.mime@ == gemtext_mime() && data.gemini == Some(
                    *d,
                ),
                RenderChoice::Unsupported(msg) => !(data.mime@ == gemtext_mime()
                    && data.gemini is Some) && msg@ == unsupported_message(data.mime@),
            },
    {
        if self.gemini.matches(data.mime.as_str()) {
            if let Some(d) = &data.gemini {
                return RenderChoice::Gemini(d);
            }
        }
        let mut msg: String = "Unsupported mimetype ".to_owned();
        msg.append(data.mime.as_str());
        RenderChoice::Unsupported(msg)
    }
}

} // verus!
