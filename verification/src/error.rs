//! Failures of remote calls.

use vstd::prelude::*;

verus! {

/// A failed call, with the message for the caller.
#[derive(Debug)]
pub struct RpcError {
    /// What went wrong.
    pub message: String,
}

/// A failure with the given message.
pub fn rpc_error(message: String) -> (r: RpcError)
    ensures
        r.message == message,
{
    RpcError { message }
}

/// The reply to a command: the outer failure is that of reaching the node, the inner one is the
/// node's refusal.
pub type Reply<T> = Result<Result<T, String>, String>;

/// What comes of a reply: the answer, or the message of either failure.
pub open spec fn reply_outcome<T>(reply: Reply<T>) -> Result<T, Seq<char>> {
    match reply {
        Ok(Ok(answer)) => Ok(answer),
        Ok(Err(refusal)) => Err(refusal@),
        Err(fault) => Err(fault@),
    }
}

/// Whether `r` fails with the message of `expected`, or succeeds where `expected` does.
pub open spec fn fails_as<T, U>(r: Result<T, RpcError>, expected: Result<U, Seq<char>>) -> bool {
    match expected {
        Ok(_) => r is Ok,
        Err(message) => r is Err && r->Err_0.message@ == message,
    }
}

/// Turns a reply into the answer to the call.
pub fn handle_actor_call<T>(reply: Reply<T>) -> (r: Result<T, RpcError>)
    ensures
        fails_as(r, reply_outcome(reply)),
        r matches Ok(answer) ==> reply_outcome(reply) == Ok::<T, Seq<char>>(answer),
{
    match reply {
        Ok(Ok(answer)) => Ok(answer),
        Ok(Err(refusal)) => Err(rpc_error(refusal)),
        Err(fault) => Err(rpc_error(fault)),
    }
}

/// An answer goes through unchanged, and so does the message of either failure.
pub proof fn law_reply_answered<T>(reply: Reply<T>, r: Result<T, RpcError>)
    requires
        call_ensures(handle_actor_call::<T>, (reply,), r),
    ensures
        match reply {
            Ok(Ok(answer)) => r == Ok::<T, RpcError>(answer),
            Ok(Err(refusal)) => r is Err && r->Err_0.message@ == refusal@,
            Err(fault) => r is Err && r->Err_0.message@ == fault@,
        },
{
}

} // verus!
