//! The per-connection exchange: one bounded read, then at most one fixed reply.
use vstd::prelude::*;

verus! {

/// Capacity of the buffer that a handler reads into, in bytes.
pub const BUFFER_CAPACITY: usize = 1024;

/// The reply written to every peer that sent at least one byte:
/// `HTTP/1.1 200 OK\r\nContent-Length: 2\r\n\r\nOK`.
pub open spec fn response_bytes() -> Seq<u8> {
    seq![
        72u8, 84, 84, 80, 47, 49, 46, 49, 32, 50, 48, 48, 32, 79, 75, 13, 10,
        67, 111, 110, 116, 101, 110, 116, 45, 76, 101, 110, 103, 116, 104, 58, 32, 50, 13, 10,
        13, 10,
        79, 75,
    ]
}

/// What a handler writes back after reading `received`: nothing when the read
/// was empty, the fixed reply otherwise. The content itself is never inspected.
pub open spec fn reply_spec(received: Seq<u8>) -> Option<Seq<u8>> {
    if received.len() == 0 {
        None
    } else {
        Some(response_bytes())
    }
}

/// The fixed reply as bytes.
pub fn fixed_response() -> (r: Vec<u8>)
    ensures
        r@ == response_bytes(),
{
    let r: Vec<u8> = vec![
        72u8, 84, 84, 80, 47, 49, 46, 49, 32, 50, 48, 48, 32, 79, 75, 13, 10,
        67, 111, 110, 116, 101, 110, 116, 45, 76, 101, 110, 103, 116, 104, 58, 32, 50, 13, 10,
        13, 10,
        79, 75,
    ];
    assert(r@ =~= response_bytes());
    r
}

/// Decides the reply to what one read of a connection returned.
pub fn reply_for(received: &[u8]) -> (r: Option<Vec<u8>>)
    requires
        received@.len() <= BUFFER_CAPACITY,
    ensures
        r.is_some() <==> received@.len() > 0,
        match r {
            Some(v) => reply_spec(received@) == Some(v@),
            None => reply_spec(received@) is None,
        },
{
    if received.len() == 0 {
        None
    } else {
        Some(fixed_response())
    }
}

/// Every non-empty read of at most one buffer gets the same reply, whatever its
/// bytes are, and that reply is the fixed one.
pub proof fn lemma_reply_ignores_content(a: Seq<u8>, b: Seq<u8>)
    requires
        1 <= a.len() <= BUFFER_CAPACITY,
        1 <= b.len() <= BUFFER_CAPACITY,
    ensures
        reply_spec(a) == reply_spec(b),
        reply_spec(a) == Some(response_bytes()),
{
}

/// An empty read gets no reply.
pub proof fn lemma_empty_read_no_reply(received: Seq<u8>)
    requires
        received.len() == 0,
    ensures
        reply_spec(received) is None,
{
}

/// The fixed reply is 40 bytes: a status line, a length header whose value is
/// the digit `2` (byte 33), a blank line ending at byte 38, and from there the
/// two-byte body `OK`.
pub proof fn lemma_response_layout()
    ensures
        response_bytes().len() == 40,
        response_bytes()[33] == 50u8,
        response_bytes().len() - 38 == 2,
        response_bytes().subrange(38, 40) == seq![79u8, 75u8],
        response_bytes().subrange(34, 38) == seq![13u8, 10u8, 13u8, 10u8],
{
    let r = response_bytes();
    assert(r.len() == 40);
    assert(r[33] == 50u8);
    assert(r[38] == 79u8 && r[39] == 75u8);
    assert(r[34] == 13u8 && r[35] == 10u8 && r[36] == 13u8 && r[37] == 10u8);
    assert(response_bytes().subrange(38, 40) =~= seq![79u8, 75u8]);
    assert(response_bytes().subrange(34, 38) =~= seq![13u8, 10u8, 13u8, 10u8]);
}

} // verus!
