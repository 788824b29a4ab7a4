//! Fixed-width identifiers: account/contract addresses and 32-byte hashes
//! (template identifiers, salts, Merkle roots).
use vstd::prelude::*;

verus! {

broadcast use vstd::array::group_array_axioms;

/// Compares two 32-byte arrays element by element.
pub fn bytes32_eq(a: &[u8; 32], b: &[u8; 32]) -> (r: bool)
    ensures
        r == (a@ == b@),
        r == (*a == *b),
{
    let mut i: usize = 0;
    while i < 32
        invariant
            0 <= i <= 32,
            forall|j: int| 0 <= j < i ==> a@[j] == b@[j],
        decreases 32 - i,
    {
        if a[i] != b[i] {
            proof {
                if *a == *b {
                    assert(a@[i as int] == b@[i as int]);
                }
            }
            return false;
        }
        i = i + 1;
    }
    assert(a@ =~= b@);
    proof {
        vstd::array::axiom_array_ext_equal(*a, *b);
    }
    true
}

/// Whether an address names an account (a public key) or a contract (the
/// hash that identifies a contract instance).
#[derive(Clone, Copy, Debug, PartialEq, Eq, Structural)]
pub enum AddressKind {
    Account,
    Contract,
}

/// An account or contract address: its kind and its 32-byte payload.
#[derive(Clone, Copy, Debug, Eq)]
pub struct Address {
    pub kind: AddressKind,
    pub key: [u8; 32],
}

impl Address {
    /// The address of the account with public key `key`.
    pub fn account(key: [u8; 32]) -> (r: Address)
        ensures
            r.kind == AddressKind::Account,
            r.key == key,
    {
        Address { kind: AddressKind::Account, key }
    }

    /// The address of the contract identified by `key`.
    pub fn contract(key: [u8; 32]) -> (r: Address)
        ensures
            r.kind == AddressKind::Contract,
            r.key == key,
    {
        Address { kind: AddressKind::Contract, key }
    }
}

impl PartialEq for Address {
    fn eq(&self, o: &Address) -> (r: bool)
        ensures
            r == (self.kind == o.kind && self.key@ == o.key@),
    {
        self.kind == o.kind && bytes32_eq(&self.key, &o.key)
    }
}

impl vstd::std_specs::cmp::PartialEqSpecImpl for Address {
    open spec fn obeys_eq_spec() -> bool {
        true
    }

    open spec fn eq_spec(&self, o: &Address) -> bool {
        self.kind == o.kind && self.key@ == o.key@
    }
}

/// A 32-byte value: a code-template identifier, a salt or a Merkle root.
#[derive(Clone, Copy, Debug, Eq)]
pub struct BytesN32 {
    pub bytes: [u8; 32],
}

impl BytesN32 {
    pub fn from_array(bytes: [u8; 32]) -> (r: BytesN32)
        ensures
            r.bytes == bytes,
    {
        BytesN32 { bytes }
    }
}

impl PartialEq for BytesN32 {
    fn eq(&self, o: &BytesN32) -> (r: bool)
        ensures
            r == (self.bytes@ == o.bytes@),
    {
        bytes32_eq(&self.bytes, &o.bytes)
    }
}

impl vstd::std_specs::cmp::PartialEqSpecImpl for BytesN32 {
    open spec fn obeys_eq_spec() -> bool {
        true
    }

    open spec fn eq_spec(&self, o: &BytesN32) -> bool {
        self.bytes@ == o.bytes@
    }
}

/// Address equality coincides with equality of the kinds and the keys.
pub proof fn lemma_address_eq(a: Address, b: Address)
    ensures
        (a.kind == b.kind && a.key@ == b.key@) == (a == b),
{
    if a.key@ == b.key@ {
        vstd::array::axiom_array_ext_equal(a.key, b.key);
    }
}

/// Equality of 32-byte values coincides with equality of their bytes.
pub proof fn lemma_bytes_eq(a: BytesN32, b: BytesN32)
    ensures
        (a.bytes@ == b.bytes@) == (a == b),
{
    if a.bytes@ == b.bytes@ {
        vstd::array::axiom_array_ext_equal(a.bytes, b.bytes);
    }
}

} // verus!
