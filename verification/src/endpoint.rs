//! What the command line asks for: the server's protocol, and the transport and
//! address of the client's server.

use vstd::prelude::*;

use crate::text::{replace, same, starts_with};
#[allow(unused_imports)]
use crate::text::{
    occurs, replaced, replaced_absent, replaced_at_front, replaced_keeps_the_others,
    replaced_nothing, replaced_passes_over,
};

verus! {

/// The protocol between the two ends of a tunnel.
#[derive(Clone, Copy, Debug, PartialEq, Eq, Structural)]
pub enum Protocol {
    WebSocket,
    Grpc,
}

/// The protocol that the server was told to speak: `grpc` names gRPC, every
/// other name means WebSocket.
pub fn server_protocol(name: &str) -> (r: Protocol)
    ensures
        r == (if name@ == "grpc"@ {
            Protocol::Grpc
        } else {
            Protocol::WebSocket
        }),
{
    if same(name, "grpc") {
        Protocol::Grpc
    } else {
        Protocol::WebSocket
    }
}

/// Where a client connects to, and how.
#[derive(Debug, PartialEq, Eq)]
pub struct ClientEndpoint {
    pub protocol: Protocol,
    pub url: String,
}

/// Whether a server address asks for gRPC.
pub open spec fn names_grpc(url: Seq<char>) -> bool {
    "grpc://"@.is_prefix_of(url) || "grpcs://"@.is_prefix_of(url)
}

/// The address in the form that a gRPC channel takes.
pub open spec fn grpc_url(url: Seq<char>) -> Seq<char> {
    replaced(replaced(url, "grpc://"@, "http://"@), "grpcs://"@, "https://"@)
}

/// The endpoint that a server address stands for: a `grpc://` or `grpcs://`
/// address is handed to gRPC with its scheme rewritten to `http://` or
/// `https://`; any other address is handed to WebSocket as it is.
pub fn client_endpoint(server_url: String) -> (r: ClientEndpoint)
    ensures
        r.protocol == (if names_grpc(server_url@) {
            Protocol::Grpc
        } else {
            Protocol::WebSocket
        }),
        r.url@ == (if names_grpc(server_url@) {
            grpc_url(server_url@)
        } else {
            server_url@
        }),
{
    if starts_with(server_url.as_str(), "grpc://") || starts_with(
        server_url.as_str(),
        "grpcs://",
    ) {
        proof {
            reveal_strlit("grpc://");
            reveal_strlit("grpcs://");
        }
        let plain = replace(server_url.as_str(), "grpc://", "http://");
        let url = replace(plain.as_str(), "grpcs://", "https://");
        ClientEndpoint { protocol: Protocol::Grpc, url }
    } else {
        ClientEndpoint { protocol: Protocol::WebSocket, url: server_url }
    }
}

/// A plain gRPC address becomes an `http://` address; what follows the scheme
/// is rewritten by the same rule.
pub proof fn grpc_becomes_http(rest: Seq<char>)
    ensures
        names_grpc("grpc://"@ + rest),
        grpc_url("grpc://"@ + rest) == "http://"@ + grpc_url(rest),
{
    reveal_strlit("grpc://");
    reveal_strlit("grpcs://");
    reveal_strlit("http://");
    assert("grpc://"@.is_prefix_of("grpc://"@ + rest));
    replaced_at_front(rest, "grpc://"@, "http://"@);
    let r = replaced(rest, "grpc://"@, "http://"@);
    let whole = "http://"@ + r;
    assert forall|i: int| 0 <= i < "http://"@.len() implies !"grpcs://"@.is_prefix_of(
        #[trigger] whole.skip(i),
    ) by {
        assert(whole.skip(i)[0] == "http://"@[i]);
        assert("grpcs://"@[0] == 'g');
    }
    replaced_passes_over("http://"@, r, "grpcs://"@, "https://"@);
}

/// A secure gRPC address becomes an `https://` address; what follows the scheme
/// is rewritten by the same rule.
pub proof fn grpcs_becomes_https(rest: Seq<char>)
    ensures
        names_grpc("grpcs://"@ + rest),
        grpc_url("grpcs://"@ + rest) == "https://"@ + grpc_url(rest),
{
    reveal_strlit("grpc://");
    reveal_strlit("grpcs://");
    let whole = "grpcs://"@ + rest;
    assert("grpcs://"@.is_prefix_of(whole));
    assert forall|i: int| 0 <= i < "grpcs://"@.len() implies !"grpc://"@.is_prefix_of(
        #[trigger] whole.skip(i),
    ) by {
        let at = whole.skip(i);
        if "grpc://"@.is_prefix_of(at) {
            assert(at.subrange(0, 7)[0] == at[0]);
            assert(at[0] == "grpc://"@[0]);
            assert(at.subrange(0, 7)[4] == at[4]);
            assert(i == 0);
        }
    }
    replaced_passes_over("grpcs://"@, rest, "grpc://"@, "http://"@);
    replaced_at_front(replaced(rest, "grpc://"@, "http://"@), "grpcs://"@, "https://"@);
}

/// Only the scheme changes where the rest of the address names no gRPC scheme.
pub proof fn only_the_scheme_changes(rest: Seq<char>)
    requires
        !occurs(rest, "grpc://"@),
        !occurs(rest, "grpcs://"@),
    ensures
        grpc_url("grpc://"@ + rest) == "http://"@ + rest,
        grpc_url("grpcs://"@ + rest) == "https://"@ + rest,
{
    grpc_becomes_http(rest);
    grpcs_becomes_https(rest);
    replaced_absent(rest, "grpc://"@, "http://"@);
    replaced_absent(rest, "grpcs://"@, "https://"@);
}

/// An address asks for gRPC exactly where it begins with one of the two gRPC schemes.
pub proof fn which_addresses_name_grpc(url: Seq<char>)
    ensures
        names_grpc(url) <==> (url.len() >= 7 && url.take(7) == "grpc://"@) || (url.len() >= 8
            && url.take(8) == "grpcs://"@),
{
    reveal_strlit("grpc://");
    reveal_strlit("grpcs://");
    if url.len() >= 7 {
        assert(url.take(7) == url.subrange(0, 7));
    }
    if url.len() >= 8 {
        assert(url.take(8) == url.subrange(0, 8));
    }
}

/// Where a replaced string begins with a word, so did the string before, if the word has
/// none of the letter that every replacement begins with.
proof fn word_was_there(s: Seq<char>, word: Seq<char>)
    requires
        word.is_prefix_of(replaced(s, "grpc://"@, "http://"@)),
        forall|i: int| 0 <= i < word.len() ==> #[trigger] word[i] != 'h',
    ensures
        word.is_prefix_of(s),
    decreases word.len(),
{
    reveal_strlit("grpc://");
    reveal_strlit("http://");
    if word.len() > 0 {
        let r = replaced(s, "grpc://"@, "http://"@);
        assert(r.subrange(0, word.len() as int)[0] == r[0]);
        assert(word[0] == r[0]);
        if s.len() > 0 && !"grpc://"@.is_prefix_of(s) {
            let rest = word.skip(1);
            let r1 = replaced(s.skip(1), "grpc://"@, "http://"@);
            assert(r == seq![s[0]] + r1);
            assert(r.subrange(0, word.len() as int).skip(1) == r1.subrange(0, rest.len() as int));
            assert(rest.is_prefix_of(r1));
            assert forall|i: int| 0 <= i < rest.len() implies #[trigger] rest[i] != 'h' by {
                assert(rest[i] == word[i + 1]);
            }
            word_was_there(s.skip(1), rest);
            assert(word == seq![word[0]] + rest);
            assert(s.subrange(0, word.len() as int) == seq![s[0]] + s.skip(1).subrange(
                0,
                rest.len() as int,
            ));
        }
    }
}

/// A character at which no gRPC scheme begins stays in the address, and what follows it
/// is rewritten by the same rule; nothing is made of an empty address.
pub proof fn other_characters_stay(c: char, rest: Seq<char>)
    requires
        !names_grpc(seq![c] + rest),
    ensures
        grpc_url(seq![c] + rest) == seq![c] + grpc_url(rest),
        grpc_url(Seq::empty()) == Seq::<char>::empty(),
{
    reveal_strlit("grpc://");
    reveal_strlit("grpcs://");
    replaced_nothing("grpc://"@, "http://"@);
    replaced_nothing("grpcs://"@, "https://"@);
    let plain = replaced(rest, "grpc://"@, "http://"@);
    replaced_keeps_the_others(c, rest, "grpc://"@, "http://"@);
    let whole = seq![c] + plain;
    if "grpcs://"@.is_prefix_of(whole) {
        assert forall|i: int| 0 <= i < "grpcs://"@.len() implies #[trigger] "grpcs://"@[i]
            != 'h' by {
            if i == 0 {
            } else if i == 1 {
            } else if i == 2 {
            } else if i == 3 {
            } else if i == 4 {
            } else if i == 5 {
            } else if i == 6 {
            } else {
            }
        }
        assert(replaced(seq![c] + rest, "grpc://"@, "http://"@) == whole);
        word_was_there(seq![c] + rest, "grpcs://"@);
    }
    replaced_keeps_the_others(c, plain, "grpcs://"@, "https://"@);
}

} // verus!
