//! What a factory hands to the host's instantiation primitive: the template
//! to instantiate, the salt that fixes the new instance's address, and the
//! constructor arguments.
use vstd::prelude::*;
use crate::ids::{Address, BytesN32};
use crate::registry::views;

verus! {

/// One constructor argument.
#[derive(Clone, Debug, PartialEq, Eq)]
pub enum ConstructorArg {
    Address(Address),
    I128(i128),
    U32(u32),
    Text(Vec<u8>),
    Hash(BytesN32),
    Addresses(Vec<Address>),
}

/// The abstract value of a constructor argument.
pub enum ArgView {
    Address(Address),
    I128(i128),
    U32(u32),
    Text(Seq<u8>),
    Hash(BytesN32),
    Addresses(Seq<Address>),
}

impl View for ConstructorArg {
    type V = ArgView;

    open spec fn view(&self) -> ArgView {
        match self {
            ConstructorArg::Address(a) => ArgView::Address(*a),
            ConstructorArg::I128(x) => ArgView::I128(*x),
            ConstructorArg::U32(x) => ArgView::U32(*x),
            ConstructorArg::Text(t) => ArgView::Text(t@),
            ConstructorArg::Hash(h) => ArgView::Hash(*h),
            ConstructorArg::Addresses(v) => ArgView::Addresses(v@),
        }
    }
}

/// A request to instantiate `wasm_hash` at the address derived from the
/// factory's own address and `salt`, passing `args` to its constructor.
#[derive(Clone, Debug, PartialEq, Eq)]
pub struct DeployRequest {
    pub wasm_hash: BytesN32,
    pub salt: BytesN32,
    pub args: Vec<ConstructorArg>,
}

impl DeployRequest {
    /// The constructor arguments' abstract values.
    pub open spec fn arg_views(&self) -> Seq<ArgView> {
        views(self.args@)
    }
}

/// Copies a byte string.
pub fn copy_bytes(v: &Vec<u8>) -> (r: Vec<u8>)
    ensures
        r@ == v@,
{
    let mut out: Vec<u8> = Vec::new();
    let mut i: usize = 0;
    while i < v.len()
        invariant
            0 <= i <= v@.len(),
            out@ == v@.take(i as int),
        decreases v@.len() - i,
    {
        out.push(v[i]);
        i = i + 1;
        assert(out@ =~= v@.take(i as int));
    }
    assert(v@.take(i as int) =~= v@);
    out
}

pub open spec fn opt_bytes(o: Option<Vec<u8>>) -> Option<Seq<u8>> {
    match o {
        Some(v) => Some(v@),
        None => None,
    }
}

/// Copies an optional byte string.
pub fn copy_opt_bytes(o: &Option<Vec<u8>>) -> (r: Option<Vec<u8>>)
    ensures
        opt_bytes(r) == opt_bytes(*o),
{
    match o {
        Some(v) => Some(copy_bytes(v)),
        None => None,
    }
}

} // verus!
