//! The parts of the ChainX runtime that the node computes itself: the
//! inherent extrinsics of a block, the runtime version and the conversion of
//! accounts to session keys.

use vstd::prelude::*;

use crate::primitives::SessionKey;

verus! {

broadcast use vstd::array::group_array_axioms;

/// The position of the timestamp set extrinsic.
pub const TIMESTAMP_SET_POSITION: u32 = 0;

/// The position of the offline nodes noting extrinsic.
pub const NOTE_OFFLINE_POSITION: u32 = 2;

/// Concrete runtime type used to parameterize the various modules.
#[derive(Clone, Copy, Debug, PartialEq, Eq, Structural)]
pub struct Concrete;

/// An account, known by its public key.
#[derive(Clone, Copy, Debug)]
pub struct AccountId(pub [u8; 32]);

/// The index of an account in the account list.
pub type AccountIndex = u32;

/// The address format for describing accounts.
#[derive(Clone, Copy, Debug)]
pub enum Address {
    Id(AccountId),
    Index(AccountIndex),
}

/// An ed25519 signature.
pub type Signature = [u8; 64];

/// The calls of the timestamp module.
#[derive(Clone, Copy, Debug, PartialEq, Eq, Structural)]
#[allow(non_camel_case_types)]
pub enum TimestampCall {
    /// Set the current time.
    set(u64),
}

/// The calls that the node itself puts into blocks.
#[derive(Clone, Copy, Debug, PartialEq, Eq, Structural)]
pub enum Call {
    Timestamp(TimestampCall),
}

/// An extrinsic: a call, who sends it and the sender's index.
#[derive(Clone, Copy, Debug)]
pub struct Extrinsic {
    pub signed: Address,
    pub function: Call,
    pub index: u64,
}

/// An extrinsic with its signature, as it stands in a block.
#[derive(Clone, Copy, Debug)]
pub struct UncheckedExtrinsic {
    pub extrinsic: Extrinsic,
    pub signature: Signature,
}

impl UncheckedExtrinsic {
    /// An extrinsic with a signature.
    pub fn new(extrinsic: Extrinsic, signature: Signature) -> (u: Self)
        ensures
            u.extrinsic == extrinsic,
            u.signature == signature,
    {
        UncheckedExtrinsic { extrinsic, signature }
    }
}

/// The data from which the inherent extrinsics of a block are made.
#[derive(Clone, Copy, Debug)]
pub struct InherentData {
    /// The block's timestamp.
    pub timestamp: u64,
}

/// The extrinsic that carries `function` with no real sender: the default
/// (all-zero) account, index 0 and the all-zero signature.
pub open spec fn is_inherent(u: UncheckedExtrinsic, function: Call) -> bool {
    &&& u.extrinsic.signed matches Address::Id(a) && a.0@ == Seq::new(32, |i: int| 0u8)
    &&& u.extrinsic.function == function
    &&& u.extrinsic.index == 0
    &&& u.signature@ == Seq::new(64, |i: int| 0u8)
}

fn make_inherent(function: Call) -> (u: UncheckedExtrinsic)
    ensures
        is_inherent(u, function),
{
    let signed = Address::Id(AccountId([0u8; 32]));
    let u = UncheckedExtrinsic::new(Extrinsic { signed, function, index: 0 }, [0u8; 64]);
    assert(u.signature@ =~= Seq::new(64, |i: int| 0u8));
    proof {
        if let Address::Id(a) = u.extrinsic.signed {
            assert(a.0@ =~= Seq::new(32, |i: int| 0u8));
        }
    }
    u
}

/// The inherent extrinsics of a block: the one that sets the timestamp, at
/// `TIMESTAMP_SET_POSITION`.
pub fn inherent_extrinsics(data: InherentData) -> (inherent: Vec<UncheckedExtrinsic>)
    ensures
        inherent@.len() == 1,
        is_inherent(
            inherent@[TIMESTAMP_SET_POSITION as int],
            Call::Timestamp(TimestampCall::set(data.timestamp)),
        ),
{
    let mut inherent: Vec<UncheckedExtrinsic> = Vec::new();
    inherent.push(make_inherent(Call::Timestamp(TimestampCall::set(data.timestamp))));
    inherent
}

/// The version of a runtime.
#[derive(Clone, Debug)]
pub struct RuntimeVersion {
    pub spec_name: String,
    pub impl_name: String,
    pub authoring_version: u32,
    pub spec_version: u32,
    pub impl_version: u32,
}

/// The version of this runtime.
pub fn runtime_version() -> (v: RuntimeVersion)
    ensures
        v.spec_name@ == "chainx"@,
        v.impl_name@ == "chainpool-chainx"@,
        v.authoring_version == 1,
        v.spec_version == 1,
        v.impl_version == 0,
{
    RuntimeVersion {
        spec_name: "chainx".to_owned(),
        impl_name: "chainpool-chainx".to_owned(),
        authoring_version: 1,
        spec_version: 1,
        impl_version: 0,
    }
}

/// Session key conversion.
#[derive(Clone, Copy, Debug)]
pub struct SessionKeyConversion;

impl SessionKeyConversion {
    /// The session key of an account: the account's public key.
    pub fn convert(a: AccountId) -> (key: SessionKey)
        ensures
            key@ == a.0@,
    {
        a.0
    }
}

} // verus!
