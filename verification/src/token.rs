//! The auth/header attacher: binds a bearer credential to a client and
//! stamps the required headers onto an outgoing request's header collection.
use vstd::prelude::*;

use crate::client::{spec_host_and_maybe_port, Client};
use crate::http_handler::{
    check_header_value, header_entries_of, header_slots_of, insert_header, spec_lower_header_name,
    spec_valid_header_value, str_bytes_of,
};

verus! {

/// A bearer credential bound to a client; stateless beyond knowing how to
/// decorate headers.
#[derive(Debug)]
pub struct Token {
    pub client: Client,
    pub token: String,
}

/// What stamping the headers does to a header collection: the content type
/// is set; `Host` is set to the client's host (with optional port), or to
/// `localhost` when that text cannot stand in a header value; and the
/// platform auth header is set to the credential, or left untouched when
/// the credential cannot stand in a header value.
pub open spec fn spec_set_headers(
    m: Map<Seq<char>, Seq<u8>>,
    host_port: Seq<char>,
    token: Seq<char>,
) -> Map<Seq<char>, Seq<u8>> {
    let m1 = m.insert("content-type"@, str_bytes_of("text/plain; charset=utf-8"@));
    let m2 = m1.insert(
        "host"@,
        if spec_valid_header_value(host_port) {
            str_bytes_of(host_port)
        } else {
            str_bytes_of("localhost"@)
        },
    );
    if spec_valid_header_value(token) {
        m2.insert("x-warp10-token"@, str_bytes_of(token))
    } else {
        m2
    }
}

impl Token {
    /// A token from a client and a credential.
    pub fn new(client: Client, token: String) -> (r: Token)
        ensures
            r.client == client,
            r.token == token,
    {
        Token { client, token }
    }

    /// Stamps the three request headers onto the given collection: content
    /// type, `Host` (falling back to `localhost` for a host text that cannot
    /// stand in a header value) and the platform auth header (omitted, and
    /// the request left to proceed unauthenticated, when the credential
    /// cannot stand in a header value).
    pub fn set_headers(&self, headers: &mut http::HeaderMap)
        requires
            header_slots_of(*old(headers)) + 3 <= 6553,
        ensures
            header_entries_of(*final(headers)) == spec_set_headers(
                header_entries_of(*old(headers)),
                spec_host_and_maybe_port(self.client),
                self.token@,
            ),
            header_slots_of(*final(headers)) <= header_slots_of(*old(headers)) + 3,
    {
        proof {
            reveal_strlit("content-type");
            reveal_strlit("host");
            reveal_strlit("x-warp10-token");
            reveal_strlit("text/plain; charset=utf-8");
            reveal_strlit("localhost");
            reveal_with_fuel(spec_lower_header_name, 16);
            assert(spec_lower_header_name("content-type"@));
            assert(spec_lower_header_name("host"@));
            assert(spec_lower_header_name("x-warp10-token"@));
            reveal_with_fuel(spec_valid_header_value, 27);
            assert(spec_valid_header_value("text/plain; charset=utf-8"@));
            assert(spec_valid_header_value("localhost"@));
        }
        insert_header(headers, "content-type", "text/plain; charset=utf-8");
        let host = self.client.host_and_maybe_port();
        if check_header_value(host.as_str()) {
            insert_header(headers, "host", host.as_str());
        } else {
            insert_header(headers, "host", "localhost");
        }
        if check_header_value(self.token.as_str()) {
            insert_header(headers, "x-warp10-token", self.token.as_str());
        }
    }
}

} // verus!
