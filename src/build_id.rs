use vstd::prelude::*;

verus! {

/// The firmware identification record: text placed by the build in a
/// reserved region. The firmware keeps it byte for byte and never reads
/// what it says.
pub struct BuildId {
    bytes: Vec<u8>,
}

impl View for BuildId {
    type V = Seq<u8>;

    closed spec fn view(&self) -> Seq<u8> {
        self.bytes@
    }
}

impl BuildId {
    /// Embeds `bytes` unchanged, whatever they hold.
    pub fn embed(bytes: Vec<u8>) -> (r: BuildId)
        ensures
            r@ == bytes@,
    {
        BuildId { bytes }
    }

    /// The embedded bytes.
    pub fn as_bytes(&self) -> (r: &Vec<u8>)
        ensures
            r@ == self@,
    {
        &self.bytes
    }

    /// The size of the record in bytes.
    pub fn len(&self) -> (r: usize)
        ensures
            r == self@.len(),
    {
        self.bytes.len()
    }
}

} // verus!
