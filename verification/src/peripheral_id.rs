use vstd::prelude::*;
use crate::error::Error;

verus! {

/// The identity of a peripheral: an opaque, platform-defined token (UUID-like
/// on some hosts, path-like or address-like on others), kept as the text the
/// host stack reported and persisted by callers through `serialize` and
/// `parse`. The library assumes nothing of its shape beyond being nonempty.
#[derive(Debug, PartialEq, Eq, Hash)]
pub struct PeripheralId {
    value: String,
}

impl View for PeripheralId {
    type V = Seq<char>;

    closed spec fn view(&self) -> Seq<char> {
        self.value@
    }
}

/// What `parse` accepts: every nonempty text names a peripheral, and names
/// itself; the empty text names nothing.
pub open spec fn spec_parse_identity(s: Seq<char>) -> Option<Seq<char>> {
    if s.len() > 0 {
        Some(s)
    } else {
        None
    }
}

impl PeripheralId {
    /// The well-formedness invariant: the identity text is nonempty.
    pub open spec fn wf(&self) -> bool {
        self@.len() > 0
    }

    /// Wrap an identity text known to be nonempty.
    pub fn new(value: String) -> (id: Self)
        requires
            value@.len() > 0,
        ensures
            id@ == value@,
            id.wf(),
    {
        PeripheralId { value }
    }

    /// Read an identity back from its serialized form; the empty text is
    /// rejected, everything else round-trips unchanged.
    pub fn parse(value: String) -> (r: Result<Self, Error>)
        ensures
            r is Ok <==> spec_parse_identity(value@) is Some,
            r matches Ok(id) ==> Some(id@) == spec_parse_identity(value@) && id@ == value@
                && id.wf(),
            r is Err ==> (r matches Err(e) && e matches Error::Uuid(_)),
    {
        if value.as_str().unicode_len() > 0 {
            Ok(PeripheralId { value })
        } else {
            Err(Error::Uuid("empty peripheral identity".to_owned()))
        }
    }

    /// The stable string form of the identity, fit to be persisted and given
    /// back to `parse`.
    pub fn serialize(&self) -> (s: String)
        ensures
            s@ == self@,
    {
        self.value.clone()
    }

    /// Whether two identities name the same peripheral.
    pub fn same_identity(&self, other: &PeripheralId) -> (b: bool)
        ensures
            b == (self@ == other@),
    {
        self.value == other.value
    }
}

impl Clone for PeripheralId {
    fn clone(&self) -> (r: Self)
        ensures
            r == self,
    {
        PeripheralId { value: self.value.clone() }
    }
}

/// Round-trip law: serializing an identity and parsing the result yields the
/// identity again, for every well-formed identity.
pub proof fn lemma_identity_round_trip(id: PeripheralId)
    requires
        id.wf(),
    ensures
        spec_parse_identity(id@) == Some(id@),
{
}

} // verus!
