use vstd::prelude::*;
use crate::error::Error;

verus! {

/// Whether a string is an acceptable textual UUID: one of the simple,
/// hyphenated, URN or Microsoft GUID forms. The exact grammar belongs to the
/// parser that the host stack uses; acceptance depends on the characters
/// alone.
pub uninterp spec fn uuid_text_wf(s: Seq<char>) -> bool;

/// Relies on uuid::Uuid::parse_str: it accepts a string, or rejects it, as a
/// function of the characters alone (simple, hyphenated, URN and GUID forms).
#[verifier::external_body]
fn uuid_text_valid(s: &str) -> (b: bool)
    ensures
        b == uuid_text_wf(s@),
{
    ::uuid::Uuid::parse_str(s).is_ok()
}

/// A GATT identifier (service, characteristic or descriptor UUID), kept in
/// its textual form. A value of this type always holds text that the host
/// stack's UUID parser accepts.
#[derive(Debug, PartialEq, Eq, Hash)]
pub struct Uuid {
    value: String,
}

impl View for Uuid {
    type V = Seq<char>;

    closed spec fn view(&self) -> Seq<char> {
        self.value@
    }
}

impl Uuid {
    /// The well-formedness invariant: the text parses as a UUID.
    pub closed spec fn wf(&self) -> bool {
        uuid_text_wf(self@)
    }

    /// Accept a textual UUID, or reject it with the parse error.
    pub fn new(value: String) -> (r: Result<Uuid, Error>)
        ensures
            r is Ok <==> uuid_text_wf(value@),
            r matches Ok(u) ==> u@ == value@ && u.wf(),
            r is Err ==> (r matches Err(e) && e matches Error::Uuid(_)),
    {
        if uuid_text_valid(value.as_str()) {
            Ok(Uuid { value })
        } else {
            Err(Error::Uuid("not a textual UUID".to_owned()))
        }
    }

    /// The identifier's text.
    pub fn value(&self) -> (v: &String)
        ensures
            v@ == self@,
    {
        &self.value
    }
}

impl Clone for Uuid {
    fn clone(&self) -> (r: Self)
        ensures
            r == self,
    {
        Uuid { value: self.value.clone() }
    }
}

} // verus!
