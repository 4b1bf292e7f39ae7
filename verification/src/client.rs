//! The client's side of the protocol: which request an operation sends, and
//! what the agent's answer means.

use crate::protocol::{FailureKind, Request, RequestBody, Response, PROTOCOL_VERSION};
use vstd::prelude::*;
use vstd::string::StringExecFns;

verus! {

/// The request that carries `body`, in this client's version of the protocol.
pub fn request(body: RequestBody) -> (r: Request)
    ensures
        r.protocol == PROTOCOL_VERSION,
        r.body == body,
{
    Request { protocol: PROTOCOL_VERSION, body }
}

/// What an answer means to the caller: a failure is an error, anything else
/// is handed on.
pub fn outcome(response: Response) -> (r: Result<Response, FailureKind>)
    ensures
        match response {
            Response::Failure(kind) => r == Err::<Response, FailureKind>(kind),
            _ => r == Ok::<Response, FailureKind>(response),
        },
{
    match response {
        Response::Failure(kind) => Err(kind),
        other => Ok(other),
    }
}

/// The lines of a listing: each URL, with a line feed between two of them.
pub open spec fn joined(urls: Seq<String>) -> Seq<char>
    decreases urls.len(),
{
    if urls.len() == 0 {
        Seq::<char>::empty()
    } else if urls.len() == 1 {
        urls[0]@
    } else {
        joined(urls.drop_last()) + "\n"@ + urls.last()@
    }
}

/// What `list` shows for an answer: the heading and the queued URLs, one to
/// a line, for a `List` answer; nothing for any other answer.
pub fn listing(response: &Response) -> (shown: Option<String>)
    ensures
        match *response {
            Response::List(urls) => shown matches Some(text) && text@ == "Queue: \n"@ + joined(
                urls@,
            ),
            _ => shown is None,
        },
{
    match response {
        Response::List(urls) => {
            let mut text = "Queue: \n".to_owned();
            let ghost heading = text@;
            let mut i: usize = 0;
            assert(joined(urls@.take(0)) =~= Seq::<char>::empty());
            assert(text@ =~= heading + joined(urls@.take(0)));
            while i < urls.len()
                invariant
                    i <= urls.len(),
                    text@ == heading + joined(urls@.take(i as int)),
                decreases urls.len() - i,
            {
                let ghost before = urls@.take(i as int);
                let ghost next = urls@.take(i + 1);
                assert(next.drop_last() =~= before);
                if i > 0 {
                    text.append("\n");
                }
                text.append(urls[i].as_str());
                i += 1;
                assert(text@ =~= heading + joined(next));
            }
            assert(urls@.take(i as int) =~= urls@);
            Some(text)
        },
        _ => None,
    }
}

} // verus!
