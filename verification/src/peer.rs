use vstd::prelude::*;

verus! {

/// The identity of a peer: the part of its onion address before `.onion`.
/// Two identities are the same peer when their text is the same.
#[derive(Debug, PartialEq, Eq)]
pub struct PeerId {
    address: String,
}

impl View for PeerId {
    type V = Seq<char>;

    closed spec fn view(&self) -> Seq<char> {
        self.address@
    }
}

impl PeerId {
    pub fn new(address: String) -> (id: Self)
        ensures
            id@ == address@,
    {
        PeerId { address }
    }

    pub fn as_str(&self) -> (text: &str)
        ensures
            text@ == self@,
    {
        self.address.as_str()
    }

    /// Whether both name the same peer.
    pub fn same(&self, other: &PeerId) -> (b: bool)
        ensures
            b == (self@ == other@),
    {
        self.address == other.address
    }
}

impl Clone for PeerId {
    fn clone(&self) -> (copy: Self)
        ensures
            copy@ == self@,
    {
        PeerId { address: self.address.clone() }
    }
}

} // verus!
