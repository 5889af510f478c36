//! Identities and asset identifiers, held as the bytes that name them.

use vstd::prelude::*;

verus! {

/// An authenticated identity (an account or a contract), named by its bytes.
#[derive(Clone, Debug, PartialEq, Eq)]
pub struct Principal {
    pub id: Vec<u8>,
}

/// An identifier of a token, named by its bytes; the escrow never inspects it.
#[derive(Clone, Debug, PartialEq, Eq)]
pub struct TokenId {
    pub id: Vec<u8>,
}

impl View for Principal {
    type V = Seq<u8>;

    open spec fn view(&self) -> Seq<u8> {
        self.id@
    }
}

impl View for TokenId {
    type V = Seq<u8>;

    open spec fn view(&self) -> Seq<u8> {
        self.id@
    }
}

/// The identities of a sequence of principals, in order.
pub open spec fn ids(v: Seq<Principal>) -> Seq<Seq<u8>> {
    v.map_values(|p: Principal| p@)
}

fn copy_bytes(b: &Vec<u8>) -> (r: Vec<u8>)
    ensures
        r@ == b@,
{
    let r = b.clone();
    assert(r@ =~= b@);
    r
}

fn same_bytes(a: &Vec<u8>, b: &Vec<u8>) -> (r: bool)
    ensures
        r == (a@ == b@),
{
    if a.len() != b.len() {
        return false;
    }
    let mut i: usize = 0;
    while i < a.len()
        invariant
            a@.len() == b@.len(),
            0 <= i <= a@.len(),
            forall|j: int| 0 <= j < i ==> a@[j] == b@[j],
        decreases a@.len() - i,
    {
        if a[i] != b[i] {
            return false;
        }
        i = i + 1;
    }
    assert(a@ =~= b@);
    true
}

impl Principal {
    pub fn new(id: Vec<u8>) -> (r: Principal)
        ensures
            r@ == id@,
    {
        Principal { id }
    }

    /// Whether the two principals are the same identity.
    pub fn same_as(&self, other: &Principal) -> (r: bool)
        ensures
            r == (self@ == other@),
    {
        same_bytes(&self.id, &other.id)
    }

    pub fn duplicate(&self) -> (r: Principal)
        ensures
            r@ == self@,
    {
        Principal { id: copy_bytes(&self.id) }
    }
}

impl TokenId {
    pub fn new(id: Vec<u8>) -> (r: TokenId)
        ensures
            r@ == id@,
    {
        TokenId { id }
    }

    pub fn duplicate(&self) -> (r: TokenId)
        ensures
            r@ == self@,
    {
        TokenId { id: copy_bytes(&self.id) }
    }
}

/// Whether `p` is one of `members`.
pub fn is_member(members: &Vec<Principal>, p: &Principal) -> (r: bool)
    ensures
        r == ids(members@).contains(p@),
{
    let mut i: usize = 0;
    while i < members.len()
        invariant
            0 <= i <= members@.len(),
            forall|j: int| 0 <= j < i ==> members@[j]@ != p@,
        decreases members@.len() - i,
    {
        if members[i].same_as(p) {
            assert(ids(members@)[i as int] == p@);
            return true;
        }
        i = i + 1;
    }
    assert(!ids(members@).contains(p@)) by {
        assert forall|j: int| 0 <= j < ids(members@).len() implies ids(members@)[j] != p@ by {
            assert(members@[j]@ != p@);
        }
    }
    false
}

} // verus!
