//! Host-side identifiers and call contexts, as the execution engine builds them.
use crate::hash_codec::HashValue;
use linera_base::data_types::BlockHeight;
use vstd::prelude::*;

verus! {

/// Declares `linera_base::data_types::BlockHeight`, a block's height in its
/// chain, so that host records can carry it. Its one field, a public `u64`, is
/// read from the type itself: nothing about it is assumed here.
#[verifier::external_type_specification]
pub struct ExBlockHeight(BlockHeight);

/// Identifies a chain by a digest.
#[derive(Clone, Copy, Debug)]
pub struct ChainId(pub HashValue);

/// Identifies the bytecode an application runs, by a digest.
#[derive(Clone, Copy, Debug)]
pub struct BytecodeId(pub HashValue);

/// Where an effect was produced: its chain, block height and position in the block.
#[derive(Clone, Copy, Debug)]
pub struct EffectId {
    pub chain_id: ChainId,
    pub height: BlockHeight,
    pub index: usize,
}

/// The system application, or a user application given by its bytecode and
/// the effect that created it.
#[derive(Clone, Copy, Debug)]
pub enum ApplicationId {
    System,
    User { bytecode: BytecodeId, creation: EffectId },
}

/// A session opened by an application.
#[derive(Clone, Copy, Debug)]
pub struct SessionId {
    pub application_id: ApplicationId,
    pub kind: u64,
    pub index: usize,
}

/// Where an operation is executed.
#[derive(Clone, Copy, Debug)]
pub struct OperationContext {
    pub chain_id: ChainId,
    pub height: BlockHeight,
    pub index: usize,
}

/// Where an effect is executed, and which effect it is.
#[derive(Clone, Copy, Debug)]
pub struct EffectContext {
    pub chain_id: ChainId,
    pub height: BlockHeight,
    pub effect_id: EffectId,
}

/// A call from one application to another.
#[derive(Clone, Copy, Debug)]
pub struct CalleeContext {
    pub chain_id: ChainId,
    pub authenticated_caller_id: Option<ApplicationId>,
}

/// A read-only query.
#[derive(Clone, Copy, Debug)]
pub struct QueryContext {
    pub chain_id: ChainId,
}

} // verus!
