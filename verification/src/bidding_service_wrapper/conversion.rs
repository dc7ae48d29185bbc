//! Conversion between the builder's values and the protocol's messages.
use vstd::prelude::*;

use super::messages::LandedBlockInfo as RPCLandedBlockInfo;
use crate::interfaces::LandedBlockInfo as RealLandedBlockInfo;
use crate::timestamp::{
    unix_timestamp_accepted, Timestamp, MAX_UNIX_TIMESTAMP, MIN_UNIX_TIMESTAMP,
    WIDEST_MAX_UNIX_TIMESTAMP, WIDEST_MIN_UNIX_TIMESTAMP,
};
use crate::u256::{limb_or_zero, limbs_value, U256};

verus! {

/// Why a message could not be read back.
#[derive(Debug, Clone, PartialEq, Eq)]
pub enum ConversionError {
    /// The named field holds a value out of range.
    InvalidArgument(String),
}

/// Whether the limbs past the fourth are zero, so that they fit a `U256`.
pub open spec fn fits_u256(limbs: Seq<u64>) -> bool {
    forall|i: int| 4 <= i < limbs.len() ==> limbs[i] == 0
}

/// Whether `limbs` fit a `U256`: every limb past the fourth is zero.
pub fn limbs_fit_u256(limbs: &[u64]) -> (r: bool)
    ensures
        r == fits_u256(limbs@),
{
    let mut i: usize = 4;
    while i < limbs.len()
        invariant
            4 <= i,
            forall|j: int| 4 <= j < i && j < limbs@.len() ==> limbs@[j] == 0,
        decreases limbs@.len() - i,
    {
        if limbs[i] != 0 {
            return false;
        }
        i = i + 1;
    }
    true
}

/// `r` is the message for `l`.
pub open spec fn is_rpc_landed_block_info(l: RealLandedBlockInfo, r: RPCLandedBlockInfo) -> bool {
    &&& r.block_number == l.block_number
    &&& r.block_timestamp == l.block_timestamp.spec_unix_timestamp()
    &&& r.builder_balance@ == l.builder_balance.limbs@
    &&& r.beneficiary_is_builder == l.beneficiary_is_builder
}

/// `r` is what the message `l` stands for.
pub open spec fn is_real_landed_block_info(l: RPCLandedBlockInfo, r: RealLandedBlockInfo) -> bool {
    &&& r.block_number == l.block_number
    &&& r.block_timestamp.spec_unix_timestamp_nanos() == l.block_timestamp * 1_000_000_000
    &&& r.block_timestamp.spec_unix_timestamp() == l.block_timestamp
    &&& forall|i: int| 0 <= i < 4 ==> r.builder_balance.limbs@[i] == limb_or_zero(l.builder_balance@, i)
    &&& r.builder_balance@ == limbs_value(l.builder_balance@)
    &&& r.beneficiary_is_builder == l.beneficiary_is_builder
}

/// The message for a landed block; the timestamp is sent in whole seconds.
pub fn real2rpc_landed_block_info(l: &RealLandedBlockInfo) -> (r: RPCLandedBlockInfo)
    ensures
        is_rpc_landed_block_info(*l, r),
{
    RPCLandedBlockInfo {
        block_number: l.block_number,
        block_timestamp: l.block_timestamp.unix_timestamp(),
        builder_balance: l.builder_balance.as_limbs_vec(),
        beneficiary_is_builder: l.beneficiary_is_builder,
    }
}

/// The landed block a message stands for. A timestamp that `time` cannot
/// represent is refused (always accepted for years -9999 to 9999, never past
/// years -999999 to 999999). The balance must fit 256 bits.
pub fn rpc2real_landed_block_info(l: &RPCLandedBlockInfo) -> (r: Result<
    RealLandedBlockInfo,
    ConversionError,
>)
    requires
        fits_u256(l.builder_balance@),
    ensures
        r is Ok <==> unix_timestamp_accepted(l.block_timestamp),
        MIN_UNIX_TIMESTAMP <= l.block_timestamp <= MAX_UNIX_TIMESTAMP ==> r is Ok,
        !(WIDEST_MIN_UNIX_TIMESTAMP <= l.block_timestamp <= WIDEST_MAX_UNIX_TIMESTAMP) ==> r is Err,
        r matches Ok(info) ==> is_real_landed_block_info(*l, info),
        r matches Err(ConversionError::InvalidArgument(field)) ==> field@ == "block_timestamp"@,
{
    let block_timestamp = match Timestamp::from_unix_timestamp(l.block_timestamp) {
        Some(t) => t,
        None => {
            return Err(ConversionError::InvalidArgument(String::from_str("block_timestamp")));
        },
    };
    Ok(
        RealLandedBlockInfo {
            block_number: l.block_number,
            block_timestamp,
            builder_balance: U256::from_limbs_slice(l.builder_balance.as_slice()),
            beneficiary_is_builder: l.beneficiary_is_builder,
        },
    )
}

/// Round trip from the builder's value: sending a landed block and reading the
/// message back gives the same block number, flag and balance, and its
/// timestamp to the second.
pub proof fn lemma_real_rpc_round_trip(
    x: RealLandedBlockInfo,
    message: RPCLandedBlockInfo,
    back: RealLandedBlockInfo,
)
    requires
        is_rpc_landed_block_info(x, message),
        is_real_landed_block_info(message, back),
    ensures
        back.block_number == x.block_number,
        back.block_timestamp.spec_unix_timestamp() == x.block_timestamp.spec_unix_timestamp(),
        back.builder_balance.limbs@ == x.builder_balance.limbs@,
        back.builder_balance@ == x.builder_balance@,
        back.beneficiary_is_builder == x.beneficiary_is_builder,
{
    assert forall|i: int| 0 <= i < 4 implies back.builder_balance.limbs@[i]
        == x.builder_balance.limbs@[i] by {
        assert(back.builder_balance.limbs@[i] == limb_or_zero(message.builder_balance@, i));
    }
    assert(back.builder_balance.limbs@ =~= x.builder_balance.limbs@);
}

/// Round trip from a message whose balance has exactly four limbs: reading it
/// and sending the result again gives the same message.
pub proof fn lemma_rpc_real_round_trip(
    y: RPCLandedBlockInfo,
    info: RealLandedBlockInfo,
    again: RPCLandedBlockInfo,
)
    requires
        y.builder_balance@.len() == 4,
        is_real_landed_block_info(y, info),
        is_rpc_landed_block_info(info, again),
    ensures
        again.block_number == y.block_number,
        again.block_timestamp == y.block_timestamp,
        again.builder_balance@ == y.builder_balance@,
        again.beneficiary_is_builder == y.beneficiary_is_builder,
{
    assert forall|i: int| 0 <= i < 4 implies again.builder_balance@[i] == y.builder_balance@[i] by {
        assert(info.builder_balance.limbs@[i] == limb_or_zero(y.builder_balance@, i));
    }
    assert(again.builder_balance@ =~= y.builder_balance@);
}

} // verus!
