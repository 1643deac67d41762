//! Core of a tabbed document viewer: the data that a protocol hands over, the
//! stages of loading a document, and the conversion of fetched bytes into the
//! data that a renderer draws.
use vstd::prelude::*;

pub mod gemini;
pub mod renderers;

verus! {

/// Stages that loading a document in a tab goes through, in this order.
#[derive(Clone, Copy, Debug, PartialEq, Eq, Structural)]
pub enum LoadState {
    FindProtocol,
    FindRenderer,
    Deser,
    Render,
}

/// A fetched document: its media type and its raw bytes.
pub struct ProtoData {
    pub mime: String,
    pub data: Box<[u8]>,
}

/// Data that a renderer builds from a fetched document, where it can.
pub trait FromData: Sized + View {
    /// What `from_data` yields on `data`, by its view: `None` where the
    /// document is not of a kind that this data describes.
    spec fn spec_from_data(data: ProtoData) -> Option<Self::V>;

    fn from_data(data: &ProtoData) -> (r: Option<Self>)
        ensures
            match r {
                Some(v) => Self::spec_from_data(*data) == Some(v@),
                None => Self::spec_from_data(*data) is None,
            },
    ;
}

} // verus!
