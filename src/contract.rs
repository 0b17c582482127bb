//! Guest records of the contract namespace, for state-mutating entry points,
//! and their construction from host records.
use crate::hash_codec::{encode_words, hash_words, HashValue as HostHashValue};
use crate::host;
use crate::narrowing::{index_fits, narrow_usize, ConversionError};
use vstd::prelude::*;

verus! {

/// A digest as eight 64-bit words, `part1` holding its first eight bytes.
#[derive(Clone, Copy, Debug, PartialEq, Eq)]
pub struct HashValue {
    pub part1: u64,
    pub part2: u64,
    pub part3: u64,
    pub part4: u64,
    pub part5: u64,
    pub part6: u64,
    pub part7: u64,
    pub part8: u64,
}

/// A chain is identified by its digest.
pub type ChainId = HashValue;

/// Where an effect was produced, with its index narrowed to 64 bits.
#[derive(Clone, Copy, Debug, PartialEq, Eq)]
pub struct EffectId {
    pub chain_id: ChainId,
    pub height: u64,
    pub index: u64,
}

/// A user application: its bytecode's digest and the effect that created it.
#[derive(Clone, Copy, Debug, PartialEq, Eq)]
pub struct UserApplicationId {
    pub bytecode: HashValue,
    pub creation: EffectId,
}

/// An application, tagged `System` first and `User` second.
#[derive(Clone, Copy, Debug, PartialEq, Eq)]
pub enum ApplicationId {
    System,
    User(UserApplicationId),
}

/// A session: its owning application, its kind tag and its index.
#[derive(Clone, Copy, Debug, PartialEq, Eq)]
pub struct SessionId {
    pub application_id: ApplicationId,
    pub kind: u64,
    pub index: u64,
}

/// Context of an operation: chain, block height and index in the block.
#[derive(Clone, Copy, Debug, PartialEq, Eq)]
pub struct OperationContext {
    pub chain_id: ChainId,
    pub height: u64,
    pub index: u64,
}

/// Context of an effect: chain, block height and the effect's identifier.
#[derive(Clone, Copy, Debug, PartialEq, Eq)]
pub struct EffectContext {
    pub chain_id: ChainId,
    pub height: u64,
    pub effect_id: EffectId,
}

/// Context of a cross-application call: chain and, if known, the caller.
#[derive(Clone, Copy, Debug, PartialEq, Eq)]
pub struct CalleeContext {
    pub chain_id: ChainId,
    pub authenticated_caller_id: Option<ApplicationId>,
}

impl HashValue {
    /// The eight words, in order.
    pub open spec fn parts(&self) -> Seq<u64> {
        seq![
            self.part1,
            self.part2,
            self.part3,
            self.part4,
            self.part5,
            self.part6,
            self.part7,
            self.part8,
        ]
    }

    /// Splits a digest into its eight little-endian words.
    pub fn from_host(h: HostHashValue) -> (r: HashValue)
        ensures
            r == hash_of(h),
            r.parts() == encode_words(h@),
    {
        let w = hash_words(&h);
        let r = HashValue {
            part1: w[0],
            part2: w[1],
            part3: w[2],
            part4: w[3],
            part5: w[4],
            part6: w[5],
            part7: w[6],
            part8: w[7],
        };
        assert(r.parts() =~= encode_words(h@));
        r
    }
}

/// The guest record of a host digest.
pub open spec fn hash_of(h: HostHashValue) -> HashValue {
    let w = encode_words(h@);
    HashValue {
        part1: w[0],
        part2: w[1],
        part3: w[2],
        part4: w[3],
        part5: w[4],
        part6: w[5],
        part7: w[6],
        part8: w[7],
    }
}

/// The guest record of a host chain identifier: its digest, encoded.
pub open spec fn chain_id_of(c: host::ChainId) -> ChainId {
    hash_of(c.0)
}

/// Whether an effect identifier's index fits the guest record.
pub open spec fn effect_id_fits(e: host::EffectId) -> bool {
    index_fits(e.index as int)
}

/// The guest record of an effect identifier whose index fits.
pub open spec fn effect_id_of(e: host::EffectId) -> EffectId {
    EffectId { chain_id: chain_id_of(e.chain_id), height: e.height.0, index: e.index as u64 }
}

/// Whether every index inside an application identifier fits.
pub open spec fn application_id_fits(a: host::ApplicationId) -> bool {
    match a {
        host::ApplicationId::System => true,
        host::ApplicationId::User { creation, .. } => effect_id_fits(creation),
    }
}

/// The guest record of an application identifier, variant for variant.
pub open spec fn application_id_of(a: host::ApplicationId) -> ApplicationId {
    match a {
        host::ApplicationId::System => ApplicationId::System,
        host::ApplicationId::User { bytecode, creation } => ApplicationId::User(
            UserApplicationId { bytecode: hash_of(bytecode.0), creation: effect_id_of(creation) },
        ),
    }
}

/// Whether every index inside a session identifier fits.
pub open spec fn session_id_fits(s: host::SessionId) -> bool {
    application_id_fits(s.application_id) && index_fits(s.index as int)
}

/// The guest record of a session identifier; its kind passes unchanged.
pub open spec fn session_id_of(s: host::SessionId) -> SessionId {
    SessionId {
        application_id: application_id_of(s.application_id),
        kind: s.kind,
        index: s.index as u64,
    }
}

/// Whether an operation context's index fits.
pub open spec fn operation_context_fits(c: host::OperationContext) -> bool {
    index_fits(c.index as int)
}

/// The guest record of an operation context; its height passes unchanged.
pub open spec fn operation_context_of(c: host::OperationContext) -> OperationContext {
    OperationContext {
        chain_id: chain_id_of(c.chain_id),
        height: c.height.0,
        index: c.index as u64,
    }
}

/// Whether the effect inside an effect context has an index that fits.
pub open spec fn effect_context_fits(c: host::EffectContext) -> bool {
    effect_id_fits(c.effect_id)
}

/// The guest record of an effect context.
pub open spec fn effect_context_of(c: host::EffectContext) -> EffectContext {
    EffectContext {
        chain_id: chain_id_of(c.chain_id),
        height: c.height.0,
        effect_id: effect_id_of(c.effect_id),
    }
}

/// Whether the caller, if any, has every index fitting.
pub open spec fn callee_context_fits(c: host::CalleeContext) -> bool {
    match c.authenticated_caller_id {
        None => true,
        Some(a) => application_id_fits(a),
    }
}

/// The guest record of a callee context: an absent caller stays absent, a
/// present one is converted as an application identifier.
pub open spec fn callee_context_of(c: host::CalleeContext) -> CalleeContext {
    CalleeContext {
        chain_id: chain_id_of(c.chain_id),
        authenticated_caller_id: match c.authenticated_caller_id {
            None => None,
            Some(a) => Some(application_id_of(a)),
        },
    }
}

/// Encodes a host chain identifier for the contract namespace.
pub fn chain_id_from_host(c: host::ChainId) -> (r: ChainId)
    ensures
        r == chain_id_of(c),
{
    HashValue::from_host(c.0)
}

impl EffectId {
    /// Converts an effect identifier, failing with `IndexOverflow` when its
    /// index does not fit in 64 bits.
    pub fn try_from_host(e: host::EffectId) -> (r: Result<EffectId, ConversionError>)
        ensures
            effect_id_fits(e) ==> r == Ok::<EffectId, ConversionError>(effect_id_of(e)),
            !effect_id_fits(e) ==> r == Err::<EffectId, ConversionError>(
                ConversionError::IndexOverflow,
            ),
    {
        match narrow_usize(e.index) {
            Ok(index) => Ok(
                EffectId { chain_id: chain_id_from_host(e.chain_id), height: e.height.0, index },
            ),
            Err(err) => Err(err),
        }
    }
}

impl ApplicationId {
    /// Converts an application identifier variant for variant; a user
    /// application fails only where its creation effect does.
    pub fn try_from_host(a: host::ApplicationId) -> (r: Result<ApplicationId, ConversionError>)
        ensures
            application_id_fits(a) ==> r == Ok::<ApplicationId, ConversionError>(
                application_id_of(a),
            ),
            !application_id_fits(a) ==> r == Err::<ApplicationId, ConversionError>(
                ConversionError::IndexOverflow,
            ),
    {
        match a {
            host::ApplicationId::System => Ok(ApplicationId::System),
            host::ApplicationId::User { bytecode, creation } => {
                match EffectId::try_from_host(creation) {
                    Ok(creation) => Ok(
                        ApplicationId::User(
                            UserApplicationId {
                                bytecode: HashValue::from_host(bytecode.0),
                                creation,
                            },
                        ),
                    ),
                    Err(err) => Err(err),
                }
            },
        }
    }
}

impl SessionId {
    /// Converts a session identifier, failing with `IndexOverflow` when its
    /// application's or its own index does not fit.
    pub fn try_from_host(s: host::SessionId) -> (r: Result<SessionId, ConversionError>)
        ensures
            session_id_fits(s) ==> r == Ok::<SessionId, ConversionError>(session_id_of(s)),
            !session_id_fits(s) ==> r == Err::<SessionId, ConversionError>(
                ConversionError::IndexOverflow,
            ),
    {
        let application_id = match ApplicationId::try_from_host(s.application_id) {
            Ok(id) => id,
            Err(err) => return Err(err),
        };
        match narrow_usize(s.index) {
            Ok(index) => Ok(SessionId { application_id, kind: s.kind, index }),
            Err(err) => Err(err),
        }
    }
}

impl OperationContext {
    /// Converts an operation context, failing with `IndexOverflow` when its
    /// index does not fit.
    pub fn try_from_host(c: host::OperationContext) -> (r: Result<
        OperationContext,
        ConversionError,
    >)
        ensures
            operation_context_fits(c) ==> r == Ok::<OperationContext, ConversionError>(
                operation_context_of(c),
            ),
            !operation_context_fits(c) ==> r == Err::<OperationContext, ConversionError>(
                ConversionError::IndexOverflow,
            ),
    {
        match narrow_usize(c.index) {
            Ok(index) => Ok(
                OperationContext {
                    chain_id: chain_id_from_host(c.chain_id),
                    height: c.height.0,
                    index,
                },
            ),
            Err(err) => Err(err),
        }
    }
}

impl EffectContext {
    /// Converts an effect context, failing where its effect identifier does.
    pub fn try_from_host(c: host::EffectContext) -> (r: Result<EffectContext, ConversionError>)
        ensures
            effect_context_fits(c) ==> r == Ok::<EffectContext, ConversionError>(
                effect_context_of(c),
            ),
            !effect_context_fits(c) ==> r == Err::<EffectContext, ConversionError>(
                ConversionError::IndexOverflow,
            ),
    {
        match EffectId::try_from_host(c.effect_id) {
            Ok(effect_id) => Ok(
                EffectContext {
                    chain_id: chain_id_from_host(c.chain_id),
                    height: c.height.0,
                    effect_id,
                },
            ),
            Err(err) => Err(err),
        }
    }
}

impl CalleeContext {
    /// Converts a callee context, failing where its caller's identifier does.
    pub fn try_from_host(c: host::CalleeContext) -> (r: Result<CalleeContext, ConversionError>)
        ensures
            callee_context_fits(c) ==> r == Ok::<CalleeContext, ConversionError>(
                callee_context_of(c),
            ),
            !callee_context_fits(c) ==> r == Err::<CalleeContext, ConversionError>(
                ConversionError::IndexOverflow,
            ),
    {
        let authenticated_caller_id = match c.authenticated_caller_id {
            None => None,
            Some(id) => match ApplicationId::try_from_host(id) {
                Ok(id) => Some(id),
                Err(err) => return Err(err),
            },
        };
        Ok(CalleeContext { chain_id: chain_id_from_host(c.chain_id), authenticated_caller_id })
    }
}

} // verus!
