//! What a caller of the engine makes of the way an exchange ended.
//!
//! A caller never sees a transport failure as an error: where the engine
//! could not be reached, or went away before it answered, the caller gets
//! the answer of an engine that holds no index.

use crate::ident::IndexId;
use vstd::prelude::*;

verus! {

/// How a request that expects a reply ended for the caller.
#[derive(Debug)]
pub enum Exchange<T> {
    /// The mailbox did not take the request.
    Unsent,
    /// The mailbox took the request, but the reply channel was closed
    /// without a reply.
    Unanswered,
    /// The engine replied.
    Answered(T),
}

/// What a caller that asked for all identities is told: the engine's reply,
/// or no identities where there is no reply.
pub fn resolve_indexes(exchange: Exchange<Vec<IndexId>>) -> (ids: Vec<IndexId>)
    ensures
        match exchange {
            Exchange::Answered(reply) => ids == reply,
            _ => ids@ == Seq::<IndexId>::empty(),
        },
{
    match exchange {
        Exchange::Answered(reply) => reply,
        _ => Vec::new(),
    }
}

/// What a caller that asked for one handle is told: the engine's reply, or
/// no handle where there is no reply.
pub fn resolve_index<I>(exchange: Exchange<Option<I>>) -> (handle: Option<I>)
    ensures
        handle == match exchange {
            Exchange::Answered(reply) => reply,
            _ => None,
        },
{
    match exchange {
        Exchange::Answered(reply) => reply,
        _ => None,
    }
}

} // verus!
