//! The address on which the server listens.

use vstd::prelude::*;
use vstd::string::*;

verus! {

/// The host on which the server listens: the loopback interface.
pub const LOCALHOST: &'static str = "127.0.0.1";

/// The socket address for a port: the loopback host, a colon, the port.
pub open spec fn bind_address_of(port: Seq<char>) -> Seq<char> {
    LOCALHOST@ + seq![':'] + port
}

/// Builds the socket address to bind for `port`, which is taken as text and
/// not examined: whether it names a usable port is for the bind to tell.
pub fn bind_address(port: &str) -> (address: String)
    ensures
        address@ == bind_address_of(port@),
{
    proof {
        reveal_strlit(":");
        assert(":"@ =~= seq![':']);
    }
    String::from_str(LOCALHOST).concat(":").concat(port)
}

/// The host is the dotted form of the loopback address, so every address
/// built here is `127.0.0.1:` followed by the port as given.
pub proof fn lemma_bind_address_shape(port: Seq<char>)
    ensures
        LOCALHOST@ == seq!['1', '2', '7', '.', '0', '.', '0', '.', '1'],
        bind_address_of(port) == seq!['1', '2', '7', '.', '0', '.', '0', '.', '1', ':'] + port,
        bind_address_of(port).len() == 10 + port.len(),
{
    reveal_strlit("127.0.0.1");
    assert(LOCALHOST@ =~= seq!['1', '2', '7', '.', '0', '.', '0', '.', '1']);
    assert(bind_address_of(port) =~= seq!['1', '2', '7', '.', '0', '.', '0', '.', '1', ':']
        + port);
}

} // verus!
