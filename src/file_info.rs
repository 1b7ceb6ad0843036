use vstd::prelude::*;

use crate::json::{is_json_text, parses_as_json};

verus! {

/// The abstract value of a session record.
pub ghost struct FileInfoView {
    pub id: Seq<char>,
    pub payload: Seq<char>,
}

/// The metadata record of one upload session: its id and the encoded
/// session attributes, which are always one JSON document.
#[derive(Debug, PartialEq, Eq)]
pub struct FileInfo {
    id: String,
    payload: String,
}

impl View for FileInfo {
    type V = FileInfoView;

    closed spec fn view(&self) -> FileInfoView {
        FileInfoView { id: self.id@, payload: self.payload@ }
    }
}

impl FileInfo {
    #[verifier::type_invariant]
    closed spec fn payload_is_json(&self) -> bool {
        is_json_text(self.payload@)
    }

    /// Builds a record; `None` where the payload is not one JSON document.
    pub fn new(id: String, payload: String) -> (r: Option<FileInfo>)
        ensures
            r is Some <==> is_json_text(payload@),
            r matches Some(info) ==> info@ == (FileInfoView { id: id@, payload: payload@ }),
    {
        if parses_as_json(payload.as_str()) {
            Some(FileInfo { id, payload })
        } else {
            None
        }
    }

    pub fn id(&self) -> (r: &str)
        ensures
            r@ == self@.id,
    {
        self.id.as_str()
    }

    pub fn payload(&self) -> (r: &str)
        ensures
            r@ == self@.payload,
            is_json_text(self@.payload),
    {
        proof {
            use_type_invariant(self);
        }
        self.payload.as_str()
    }
}

} // verus!
