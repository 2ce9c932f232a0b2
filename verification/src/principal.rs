use vstd::prelude::*;

verus! {

/// An externally issued identity, held as the bytes the host knows it by.
///
/// Two principals are the same identity exactly when their bytes agree; the
/// view of a principal is that byte string.
#[derive(Debug, PartialEq, Eq)]
pub struct Principal {
    pub id: Vec<u8>,
}

impl DeepView for Principal {
    type V = Seq<u8>;

    open spec fn deep_view(&self) -> Seq<u8> {
        self.id@
    }
}

impl View for Principal {
    type V = Seq<u8>;

    open spec fn view(&self) -> Seq<u8> {
        self.id@
    }
}

impl Clone for Principal {
    fn clone(&self) -> (p: Principal)
        ensures
            p@ == self@,
    {
        Principal { id: self.id.clone() }
    }
}

impl Principal {
    /// Wraps the host's bytes for an identity.
    pub fn new(id: Vec<u8>) -> (p: Principal)
        ensures
            p@ == id@,
    {
        Principal { id }
    }

    /// Whether two principals are the same identity.
    pub fn same(&self, other: &Principal) -> (r: bool)
        ensures
            r == (self@ == other@),
    {
        let r = self.id == other.id;
        proof {
            if r {
                assert(self.id@ =~= other.id@);
            }
        }
        r
    }
}

/// Whether `who` is one of `principals`.
pub fn contains(principals: &Vec<Principal>, who: &Principal) -> (r: bool)
    ensures
        r == principals.deep_view().contains(who@),
{
    let mut i: usize = 0;
    while i < principals.len()
        invariant
            i <= principals.len(),
            forall|j: int| 0 <= j < i ==> (#[trigger] principals.deep_view()[j]) != who@,
        decreases principals.len() - i,
    {
        if principals[i].same(who) {
            assert(principals.deep_view()[i as int] == who@);
            return true;
        }
        i += 1;
    }
    false
}

/// A copy of a list of principals, naming the same identities in the same
/// order.
pub fn clone_all(principals: &Vec<Principal>) -> (copy: Vec<Principal>)
    ensures
        copy.deep_view() == principals.deep_view(),
{
    let mut copy: Vec<Principal> = Vec::new();
    let mut i: usize = 0;
    while i < principals.len()
        invariant
            i <= principals.len(),
            copy.len() == i,
            forall|j: int| 0 <= j < i ==> (#[trigger] copy@[j])@ == principals@[j]@,
        decreases principals.len() - i,
    {
        copy.push(principals[i].clone());
        i += 1;
    }
    assert(copy.deep_view() =~= principals.deep_view());
    copy
}

} // verus!
