//! The reply that every client is sent.

use vstd::prelude::*;
use vstd::string::*;

verus! {

/// The text of the reply.
pub const RESPONSE: &'static str = "Hello, world!";

/// The number of bytes in the reply.
pub const RESPONSE_LEN: usize = 13;

/// The reply as bytes on the wire: the ASCII codes of `Hello, world!`.
pub open spec fn response_bytes() -> Seq<u8> {
    seq![72u8, 101u8, 108u8, 108u8, 111u8, 44u8, 32u8, 119u8, 111u8, 114u8, 108u8, 100u8, 33u8]
}

/// The bytes of the reply are the text `Hello, world!`, one byte for each
/// character, which is also its UTF-8 encoding.
pub proof fn lemma_response_bytes_spell_text()
    ensures
        response_bytes().len() == RESPONSE_LEN,
        RESPONSE@.len() == RESPONSE_LEN,
        forall|i: int| 0 <= i < RESPONSE_LEN ==> response_bytes()[i] == RESPONSE@[i] as u8,
        response_bytes() == RESPONSE.spec_bytes(),
{
    reveal_strlit("Hello, world!");
    assert(is_ascii(RESPONSE));
    is_ascii_spec_bytes(RESPONSE);
    assert(response_bytes() =~= RESPONSE.spec_bytes());
}

/// Computes the reply to a request. The request is read and ignored: the
/// reply is the same for every request, the empty one included.
pub fn respond(request: &[u8]) -> (reply: Vec<u8>)
    ensures
        reply@ == response_bytes(),
{
    proof {
        lemma_response_bytes_spell_text();
    }
    RESPONSE.as_bytes_vec()
}

} // verus!
