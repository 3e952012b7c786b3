use vstd::prelude::*;

verus! {

/// A 32-byte account identity (a public key or a derived address).
#[derive(Clone, Copy, Debug)]
pub struct Identity {
    pub bytes: [u8; 32],
}

impl Identity {
    pub open spec fn view(&self) -> Seq<u8> {
        self.bytes@
    }

    /// The null identity: all bytes zero.
    pub open spec fn is_null_spec(&self) -> bool {
        forall|i: int| 0 <= i < 32 ==> self.bytes@[i] == 0u8
    }

    /// The identity whose bytes are `s`, where `s` is 32 bytes long.
    pub open spec fn from_view(s: Seq<u8>) -> Identity {
        Identity { bytes: choose|b: [u8; 32]| b@ == s }
    }

    /// An array whose first `n` bytes are those of `s`.
    pub open spec fn array_prefix(s: Seq<u8>, n: nat) -> [u8; 32]
        decreases n,
    {
        if n == 0 {
            vstd::array::spec_array_fill_for_copy_type::<u8, 32>(0u8)
        } else {
            vstd::array::spec_array_update(Identity::array_prefix(s, (n - 1) as nat), n - 1, s[n - 1])
        }
    }

    proof fn lemma_array_prefix(s: Seq<u8>, n: nat)
        requires
            n <= 32,
            s.len() == 32,
        ensures
            Identity::array_prefix(s, n)@.len() == 32,
            forall|i: int| 0 <= i < n ==> Identity::array_prefix(s, n)@[i] == s[i],
        decreases n,
    {
        if n > 0 {
            Identity::lemma_array_prefix(s, (n - 1) as nat);
        } else {
            let a = vstd::array::spec_array_fill_for_copy_type::<u8, 32>(0u8);
            assert(a@.len() == 32);
        }
    }

    /// Any 32 bytes are the bytes of an identity.
    pub proof fn lemma_from_view_of_len(s: Seq<u8>)
        requires
            s.len() == 32,
        ensures
            Identity::from_view(s)@ == s,
    {
        Identity::lemma_array_prefix(s, 32);
        let a = Identity::array_prefix(s, 32);
        assert(a@ =~= s);
    }

    /// An identity is determined by its bytes.
    pub proof fn lemma_from_view(a: Identity)
        ensures
            Identity::from_view(a@) == a,
    {
        assert(a.bytes@ == a@);
        let b = Identity::from_view(a@).bytes;
        assert(b =~= a.bytes);
    }

    pub fn null() -> (r: Identity)
        ensures
            r.is_null_spec(),
    {
        Identity { bytes: [0u8; 32] }
    }

    pub fn is_null(&self) -> (r: bool)
        ensures
            r == self.is_null_spec(),
    {
        let mut i: usize = 0;
        while i < 32
            invariant
                0 <= i <= 32,
                forall|j: int| 0 <= j < i ==> self.bytes@[j] == 0u8,
            decreases 32 - i,
        {
            if self.bytes[i] != 0 {
                return false;
            }
            i = i + 1;
        }
        true
    }

    /// The identity's bytes as a vector.
    pub fn to_vec(&self) -> (r: Vec<u8>)
        ensures
            r@ == self@,
    {
        let mut r: Vec<u8> = Vec::new();
        let mut i: usize = 0;
        while i < 32
            invariant
                0 <= i <= 32,
                r@ == self.bytes@.subrange(0, i as int),
            decreases 32 - i,
        {
            r.push(self.bytes[i]);
            i = i + 1;
            assert(r@ =~= self.bytes@.subrange(0, i as int));
        }
        assert(r@ =~= self@);
        r
    }

    /// Byte-wise equality of two identities.
    pub fn same(&self, other: &Identity) -> (r: bool)
        ensures
            r == (self@ == other@),
    {
        let mut i: usize = 0;
        while i < 32
            invariant
                0 <= i <= 32,
                forall|j: int| 0 <= j < i ==> self.bytes@[j] == other.bytes@[j],
            decreases 32 - i,
        {
            if self.bytes[i] != other.bytes[i] {
                return false;
            }
            i = i + 1;
        }
        assert(self@ =~= other@);
        true
    }
}

impl PartialEq for Identity {
    fn eq(&self, other: &Identity) -> (r: bool) {
        self.same(other)
    }
}

impl Eq for Identity {
}

impl vstd::std_specs::cmp::PartialEqSpecImpl for Identity {
    open spec fn obeys_eq_spec() -> bool {
        true
    }

    open spec fn eq_spec(&self, other: &Identity) -> bool {
        self@ == other@
    }
}

} // verus!
