use vstd::prelude::*;

verus! {

/// Number of bytes in a content-addressed revision id.
pub const ID_LEN: usize = 20;

/// An immutable, content-addressed identifier of one snapshot.
#[derive(Clone, Copy, Debug, PartialEq, Eq, Hash)]
pub struct Revision {
    pub id: [u8; 20],
}

/// True when every byte of the id is zero: the id engines use for a ref
/// that did not exist before.
pub open spec fn zero_id(id: Seq<u8>) -> bool {
    forall|i: int| 0 <= i < id.len() ==> id[i] == 0
}

impl View for Revision {
    type V = Seq<u8>;

    open spec fn view(&self) -> Seq<u8> {
        self.id@
    }
}

impl Revision {
    pub fn from_bytes(id: [u8; 20]) -> (r: Revision)
        ensures
            r.id == id,
    {
        Revision { id }
    }

    pub fn as_bytes(&self) -> (r: [u8; 20])
        ensures
            r == self.id,
    {
        self.id
    }

    /// The all-zero revision.
    pub fn zero() -> (r: Revision)
        ensures
            zero_id(r@),
            r@.len() == ID_LEN,
    {
        Revision { id: [0u8; 20] }
    }

    pub fn is_zero(&self) -> (r: bool)
        ensures
            r == zero_id(self@),
    {
        let mut i: usize = 0;
        while i < ID_LEN
            invariant
                i <= ID_LEN,
                self@.len() == ID_LEN,
                forall|j: int| 0 <= j < i ==> self@[j] == 0,
            decreases ID_LEN - i,
        {
            if self.id[i] != 0 {
                return false;
            }
            i = i + 1;
        }
        true
    }
}

} // verus!
