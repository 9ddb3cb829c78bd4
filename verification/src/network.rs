//! Decisions of the network layer.

use vstd::prelude::*;

use crate::text::{concat, lemma_replace_all_absent, replace, replace_all};

verus! {

/// How a request travels.
#[derive(Debug, Clone, Copy, PartialEq, Eq, Structural)]
pub enum Protocol {
    Http,
    WebSocket,
}

/// The address of the live channel of a server: the server URL with every
/// `http` turned into `ws` (so `https` into `wss`), then `/ws?token=` and
/// the token.
pub open spec fn socket_url(base_url: Seq<char>, token: Seq<char>) -> Seq<char> {
    replace_all(base_url, "http"@, "ws"@) + "/ws?token="@ + token
}

/// The address of the live channel of the server at `base_url`, for a
/// client holding `token`.
pub fn connect_url(base_url: &str, token: &str) -> (res: String)
    ensures
        res@ == socket_url(base_url@, token@),
{
    proof {
        reveal_strlit("http");
    }
    let ws = replace(base_url, "http", "ws");
    let mut url = concat(ws.as_str(), "/ws?token=");
    url.append(token);
    url
}

/// The live channel of an `http` server is its address with the scheme
/// turned into `ws`, then `/ws?token=` and the token: for a server address
/// `http` followed by a rest holding no further `h`, the channel's address
/// is `ws`, the rest, `/ws?token=` and the token.
pub proof fn lemma_socket_of_http_server(rest: Seq<char>, token: Seq<char>)
    requires
        !rest.contains('h'),
    ensures
        socket_url("http"@ + rest, token) == "ws"@ + rest + "/ws?token="@ + token,
{
    reveal_strlit("http");
    let base = "http"@ + rest;
    assert(base.take(4) =~= "http"@);
    assert(base.skip(4) =~= rest);
    lemma_replace_all_absent(rest, "http"@, "ws"@);
}

} // verus!
