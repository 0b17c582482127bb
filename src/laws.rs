//! Properties that relate several conversions.
use crate::contract;
use crate::hash_codec::{decode_words, encode_words, lemma_hash_round_trip, HashValue};
use crate::host;
use crate::service;
use vstd::prelude::*;

verus! {

/// A digest's guest record, in either namespace, gives back the digest when its
/// words are laid end to end as little-endian bytes.
pub proof fn lemma_hash_record_round_trip(h: HashValue)
    ensures
        decode_words(contract::hash_of(h).parts()) == h@,
        decode_words(service::hash_of(h).parts()) == h@,
{
    lemma_hash_round_trip(h@);
    assert(contract::hash_of(h).parts() =~= encode_words(h@));
    assert(service::hash_of(h).parts() =~= encode_words(h@));
}

/// The two namespaces encode digests and chain identifiers word for word alike.
pub proof fn lemma_namespaces_share_encoding(c: host::ChainId)
    ensures
        contract::chain_id_of(c).parts() == service::chain_id_of(c).parts(),
        contract::chain_id_of(c).parts() == encode_words(c.0@),
{
    assert(contract::chain_id_of(c).parts() =~= encode_words(c.0@));
    assert(service::chain_id_of(c).parts() =~= encode_words(c.0@));
}

/// The system application maps to the guest's system variant, and a user
/// application to the guest's user variant carrying its encoded bytecode and its
/// converted creation effect; no other variant is produced.
pub proof fn lemma_application_id_exhaustive(a: host::ApplicationId)
    ensures
        a is System <==> contract::application_id_of(a) is System,
        a is User <==> contract::application_id_of(a) is User,
        a is User ==> contract::application_id_of(a) == contract::ApplicationId::User(
            contract::UserApplicationId {
                bytecode: contract::hash_of(a->bytecode.0),
                creation: contract::effect_id_of(a->creation),
            },
        ),
        a is User ==> (contract::application_id_fits(a) <==> contract::effect_id_fits(
            a->creation,
        )),
{
}

/// An absent caller stays absent, and a present caller is converted exactly as
/// the application identifier is converted on its own.
pub proof fn lemma_callee_caller_as_standalone(c: host::CalleeContext)
    ensures
        c.authenticated_caller_id is None ==> contract::callee_context_of(
            c,
        ).authenticated_caller_id is None,
        c.authenticated_caller_id is Some ==> contract::callee_context_of(c).authenticated_caller_id
            == Some(contract::application_id_of(c.authenticated_caller_id->0)),
        c.authenticated_caller_id is Some ==> (contract::callee_context_fits(c)
            <==> contract::application_id_fits(c.authenticated_caller_id->0)),
        c.authenticated_caller_id is None ==> contract::callee_context_fits(c),
{
}

/// A query context's guest record is its chain identifier and nothing else:
/// two queries on one chain give the same record.
pub proof fn lemma_query_context_is_chain_only(a: host::QueryContext, b: host::QueryContext)
    requires
        a.chain_id.0@ == b.chain_id.0@,
    ensures
        service::query_context_of(a) == service::query_context_of(b),
        service::query_context_of(a).chain_id == service::chain_id_of(a.chain_id),
{
}

/// Every host index up to `u64::MAX` converts, and the guest field equals it.
pub proof fn lemma_index_carried_exactly(
    op: host::OperationContext,
    effect: host::EffectId,
    session: host::SessionId,
)
    ensures
        contract::operation_context_fits(op) <==> op.index <= u64::MAX,
        op.index <= u64::MAX ==> contract::operation_context_of(op).index == op.index,
        contract::effect_id_fits(effect) <==> effect.index <= u64::MAX,
        effect.index <= u64::MAX ==> contract::effect_id_of(effect).index == effect.index,
        session.index <= u64::MAX ==> contract::session_id_of(session).index == session.index,
{
}

} // verus!
