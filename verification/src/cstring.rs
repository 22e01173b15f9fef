//! Zero-terminated byte strings.

use vstd::prelude::*;
use vstd::slice::{slice_subrange, slice_to_vec};

verus! {

/// The position of the first zero byte of `s`, or its length where it has none.
pub open spec fn nul_position(s: Seq<u8>) -> nat
    decreases s.len(),
{
    if s.len() == 0 || s[0] == 0 {
        0
    } else {
        1 + nul_position(s.drop_first())
    }
}

/// Whether `s` is free of zero bytes.
pub open spec fn no_nul(s: Seq<u8>) -> bool {
    forall|i: int| 0 <= i < s.len() ==> s[i] != 0
}

/// Nothing before the first zero byte is zero, and what is at its position is.
pub proof fn lemma_nul_position(s: Seq<u8>)
    ensures
        nul_position(s) <= s.len(),
        no_nul(s.take(nul_position(s) as int)),
        nul_position(s) < s.len() ==> s[nul_position(s) as int] == 0,
    decreases s.len(),
{
    if s.len() > 0 && s[0] != 0 {
        let t = s.drop_first();
        lemma_nul_position(t);
        let n = nul_position(t) as int;
        assert forall|i: int| 0 <= i < n + 1 implies #[trigger] s.take(n + 1)[i] != 0 by {
            if i > 0 {
                assert(t.take(n)[i - 1] == s[i]);
            }
        }
    }
}

/// No other position has these properties.
pub proof fn lemma_nul_position_unique(s: Seq<u8>, p: nat)
    requires
        p <= s.len(),
        no_nul(s.take(p as int)),
        p < s.len() ==> s[p as int] == 0,
    ensures
        nul_position(s) == p,
{
    lemma_nul_position(s);
    let q = nul_position(s);
    if p < q {
        assert(s.take(q as int)[p as int] == 0);
    } else if q < p {
        assert(s.take(p as int)[q as int] == 0);
    }
}

/// The first zero byte of `s`, or its length.
pub fn find_nul(s: &[u8]) -> (p: usize)
    ensures
        p == nul_position(s@),
        p <= s@.len(),
{
    let mut p: usize = 0;
    while p < s.len() && s[p] != 0
        invariant
            p <= s@.len(),
            no_nul(s@.take(p as int)),
        decreases s@.len() - p,
    {
        assert(s@.take(p + 1) =~= s@.take(p as int).push(s@[p as int]));
        p = p + 1;
    }
    proof {
        lemma_nul_position_unique(s@, p as nat);
    }
    p
}

/// A byte string without zero bytes, kept together with the zero that terminates it.
#[derive(Debug)]
pub struct CString {
    bytes: Vec<u8>,
}

impl View for CString {
    type V = Seq<u8>;

    /// The bytes before the terminating zero.
    closed spec fn view(&self) -> Seq<u8> {
        self.bytes@.drop_last()
    }
}

impl CString {
    #[verifier::type_invariant]
    spec fn well_formed(self) -> bool {
        &&& self.bytes@.len() > 0
        &&& self.bytes@.last() == 0
        &&& no_nul(self.bytes@.drop_last())
    }

    /// A copy of `bytes` with a zero behind it; `None` where a zero is among them.
    pub fn new(bytes: &[u8]) -> (r: Option<CString>)
        ensures
            r is Some <==> no_nul(bytes@),
            r matches Some(c) ==> c@ == bytes@,
    {
        let p: usize = find_nul(bytes);
        proof {
            lemma_nul_position(bytes@);
        }
        if p < bytes.len() {
            return None;
        }
        assert(bytes@.take(p as int) =~= bytes@);
        let mut copy: Vec<u8> = slice_to_vec(bytes);
        copy.push(0);
        assert(copy@.drop_last() =~= bytes@);
        Some(CString { bytes: copy })
    }

    /// The bytes before the terminating zero.
    pub fn to_bytes(&self) -> (r: &[u8])
        ensures
            r@ == self@,
            no_nul(self@),
    {
        proof {
            use_type_invariant(self);
        }
        let n: usize = self.bytes.len();
        slice_subrange(self.bytes.as_slice(), 0, n - 1)
    }

    /// The bytes with the terminating zero.
    pub fn to_bytes_with_nul(&self) -> (r: &[u8])
        ensures
            r@ == self@.push(0),
            no_nul(self@),
    {
        proof {
            use_type_invariant(self);
            assert(self.bytes@ =~= self@.push(0));
        }
        self.bytes.as_slice()
    }
}

} // verus!
