//! What client and agent say to each other, and how one message is told from
//! the next on the wire: each record ends with a line feed.

use vstd::prelude::*;

verus! {

/// The version of the protocol that this agent and this client speak.
pub const PROTOCOL_VERSION: u32 = 1;

/// The byte that ends a record.
pub const RECORD_END: u8 = 10;

/// A request, with the version of the protocol that its sender speaks.
#[derive(Debug, PartialEq)]
pub struct Request {
    pub protocol: u32,
    pub body: RequestBody,
}

/// The requests that the agent understands.
#[derive(Debug, PartialEq)]
pub enum RequestBody {
    Push(String),
    Pop(String),
    ForceProcess,
    Clear,
    List,
    Quit,
}

/// The agent's answers.
#[derive(Debug, PartialEq)]
pub enum Response {
    /// The request was served.
    Success(String),
    /// The URLs of the queued pull requests, oldest first.
    List(Vec<String>),
    /// The request was not served.
    Failure(FailureKind),
}

/// Why a request was not served.
#[derive(Debug, PartialEq)]
pub enum FailureKind {
    /// Reading or writing failed.
    Io(String),
    /// The request could not be decoded.
    Malformed(String),
    /// Unwrapping failed.
    Unwrap(String),
    /// The sender speaks another version of the protocol; this is the agent's.
    VersionMismatch(u32),
    /// The sender is not the user that the agent runs as.
    Auth,
}

/// `r` is the plain acknowledgement `Success("OK")`.
pub open spec fn is_acknowledgement(r: Response) -> bool {
    r matches Response::Success(m) && m@ == "OK"@
}

/// The plain acknowledgement.
pub fn acknowledgement() -> (r: Response)
    ensures
        is_acknowledgement(r),
{
    Response::Success("OK".to_owned())
}

/// A record as it goes on the wire: followed by one line feed.
pub open spec fn framed(record: Seq<u8>) -> Seq<u8> {
    record.push(RECORD_END)
}

/// The first record of what came over the wire: the bytes before the first
/// line feed, or all of them where there is none.
pub open spec fn first_record(bytes: Seq<u8>) -> Seq<u8>
    decreases bytes.len(),
{
    if bytes.len() == 0 || bytes[0] == RECORD_END {
        Seq::<u8>::empty()
    } else {
        seq![bytes[0]] + first_record(bytes.skip(1))
    }
}

/// No byte of `record` is a line feed.
pub open spec fn is_one_line(record: Seq<u8>) -> bool {
    forall|i: int| 0 <= i < record.len() ==> #[trigger] record[i] != RECORD_END
}

/// Puts `record` on the wire: appends the line feed. A record that holds a
/// line feed itself cannot go on the wire.
pub fn frame(record: &Vec<u8>) -> (out: Option<Vec<u8>>)
    ensures
        match out {
            Some(wire) => is_one_line(record@) && wire@ == framed(record@),
            None => !is_one_line(record@),
        },
{
    let mut wire: Vec<u8> = Vec::new();
    let mut i: usize = 0;
    while i < record.len()
        invariant
            i <= record.len(),
            wire@ == record@.take(i as int),
            is_one_line(record@.take(i as int)),
        decreases record.len() - i,
    {
        if record[i] == RECORD_END {
            return None;
        }
        wire.push(record[i]);
        i += 1;
        assert(wire@ =~= record@.take(i as int));
    }
    assert(record@.take(i as int) =~= record@);
    wire.push(RECORD_END);
    Some(wire)
}

/// Takes the first record from what came over the wire.
pub fn read_record(bytes: &Vec<u8>) -> (out: Vec<u8>)
    ensures
        out@ == first_record(bytes@),
{
    let mut out: Vec<u8> = Vec::new();
    let mut i: usize = 0;
    assert(bytes@.skip(0) =~= bytes@);
    assert(out@ + first_record(bytes@) =~= first_record(bytes@));
    while i < bytes.len() && bytes[i] != RECORD_END
        invariant
            i <= bytes.len(),
            out@ + first_record(bytes@.skip(i as int)) == first_record(bytes@),
        decreases bytes.len() - i,
    {
        let ghost rest = bytes@.skip(i as int);
        let ghost before = out@;
        out.push(bytes[i]);
        i += 1;
        assert(rest.skip(1) =~= bytes@.skip(i as int));
        assert(out@ + first_record(bytes@.skip(i as int)) =~= before + first_record(rest));
    }
    assert(first_record(bytes@.skip(i as int)) =~= Seq::<u8>::empty());
    assert(out@ + Seq::<u8>::empty() =~= out@);
    out
}

/// What was framed is read back: a record without a line feed, once framed,
/// is the first record of what is on the wire, whatever follows it.
pub proof fn lemma_framing_round_trip(record: Seq<u8>, rest: Seq<u8>)
    requires
        is_one_line(record),
    ensures
        first_record(framed(record) + rest) == record,
    decreases record.len(),
{
    let wire = framed(record) + rest;
    if record.len() == 0 {
        assert(wire[0] == RECORD_END);
    } else {
        let tail = record.skip(1);
        assert(wire[0] == record[0]);
        assert(wire.skip(1) =~= framed(tail) + rest);
        assert forall|i: int| 0 <= i < tail.len() implies #[trigger] tail[i] != RECORD_END by {
            assert(tail[i] == record[i + 1]);
        }
        lemma_framing_round_trip(tail, rest);
        assert(seq![record[0]] + tail =~= record);
    }
}

} // verus!
