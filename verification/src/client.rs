//! The endpoint resolver: an immutable holder of the two fully-qualified
//! target URIs derived from one base address, and of the host (with optional
//! port) that belongs in the `Host` header.
use vstd::prelude::*;

use crate::data::{spec_udec, u64_to_dec_string};
use crate::error::Error;
use crate::reader::Reader;
use crate::token::Token;
use crate::writer::Writer;

verus! {

/// What parsing a URI yields: nothing when the text is not a syntactically
/// valid URI, else its host component and its explicit port, each of which
/// the URI may lack.
pub uninterp spec fn uri_parts(s: Seq<char>) -> Option<(Option<Seq<char>>, Option<u16>)>;

/// Relies on `http::uri::Uri`'s `FromStr` (URI syntax validation) and on
/// `Uri::host` and `Uri::port_u16` for the authority components.
#[verifier::external_body]
fn parse_uri_parts(s: &str) -> (r: Result<(Option<String>, Option<u16>), http::uri::InvalidUri>)
    ensures
        match r {
            Ok(parts) => uri_parts(s@) == Some((parts.0.deep_view(), parts.1)),
            Err(_) => uri_parts(s@) is None,
        },
{
    match s.parse::<http::Uri>() {
        Ok(uri) => Ok((uri.host().map(|h| h.to_string()), uri.port_u16())),
        Err(e) => Err(e),
    }
}

/// The ingestion endpoint derived from a base address.
pub open spec fn spec_update_uri(base: Seq<char>) -> Seq<char> {
    base + "/api/v0/update"@
}

/// The execution endpoint derived from a base address.
pub open spec fn spec_exec_uri(base: Seq<char>) -> Seq<char> {
    base + "/api/v0/exec"@
}

/// The two endpoint URIs of one platform instance, derived once from the
/// base address, together with the host and explicit port of the ingestion
/// endpoint; never mutated after construction.
#[derive(Debug)]
pub struct Client {
    pub update_uri: String,
    pub exec_uri: String,
    pub host: Option<String>,
    pub port: Option<u16>,
}

/// The value of the `Host` header: the host, with `:port` appended when the
/// URI names an explicit port, and the literal `localhost` when the URI has
/// no host component.
pub open spec fn spec_host_and_maybe_port(c: Client) -> Seq<char> {
    let host = match c.host {
        Some(h) => h@,
        None => seq!['l', 'o', 'c', 'a', 'l', 'h', 'o', 's', 't'],
    };
    match c.port {
        Some(p) => host + seq![':'] + spec_udec(p as nat),
        None => host,
    }
}

impl Client {
    /// The stored host and port are the ones that parsing the ingestion URI
    /// yields, and both stored URIs parse.
    pub open spec fn wf(self) -> bool {
        uri_parts(self.update_uri@) == Some((self.host.deep_view(), self.port))
            && uri_parts(self.exec_uri@) is Some
    }

    /// A client for the platform at the given base address.  Both endpoint
    /// URIs are derived and validated here, and this fails, with a URI
    /// error, exactly when one of them is not a valid URI.
    pub fn new(uri: &str) -> (r: Result<Client, Error>)
        ensures
            match r {
                Ok(c) => uri_parts(spec_update_uri(uri@)) is Some && uri_parts(
                    spec_exec_uri(uri@),
                ) is Some && c.update_uri@ == spec_update_uri(uri@) && c.exec_uri@ == spec_exec_uri(
                    uri@,
                ) && c.wf(),
                Err(e) => (uri_parts(spec_update_uri(uri@)) is None || uri_parts(
                    spec_exec_uri(uri@),
                ) is None) && e is HttpUriError,
            },
    {
        let mut update_uri = uri.to_owned();
        update_uri.append("/api/v0/update");
        let mut exec_uri = uri.to_owned();
        exec_uri.append("/api/v0/exec");
        let (host, port) = match parse_uri_parts(update_uri.as_str()) {
            Ok(parts) => parts,
            Err(e) => {
                return Err(Error::HttpUriError(e));
            },
        };
        match parse_uri_parts(exec_uri.as_str()) {
            Ok(_) => {},
            Err(e) => {
                return Err(Error::HttpUriError(e));
            },
        }
        Ok(Client { update_uri, exec_uri, host, port })
    }

    /// The ingestion endpoint URI.
    pub fn update_uri(&self) -> (r: &String)
        ensures
            r@ == self.update_uri@,
    {
        &self.update_uri
    }

    /// The execution endpoint URI.
    pub fn exec_uri(&self) -> (r: &String)
        ensures
            r@ == self.exec_uri@,
    {
        &self.exec_uri
    }

    /// The value for the `Host` header: `<host>` or `<host>:<port>`, and
    /// `localhost` when the URI names no host.
    pub fn host_and_maybe_port(&self) -> (r: String)
        ensures
            r@ == spec_host_and_maybe_port(*self),
    {
        let mut host = match &self.host {
            Some(h) => h.clone(),
            None => {
                let s = String::from_str("localhost");
                proof {
                    reveal_strlit("localhost");
                }
                s
            },
        };
        if let Some(p) = self.port {
            host.append(":");
            proof {
                reveal_strlit(":");
            }
            let ps = u64_to_dec_string(p as u64);
            host.append(ps.as_str());
        }
        proof {
            assert(host@ =~= spec_host_and_maybe_port(*self));
        }
        host
    }

    /// An identical client, for handing writers, readers and tokens a copy
    /// of their own.
    pub fn duplicate(&self) -> (c: Client)
        ensures
            c == *self,
    {
        Client {
            update_uri: self.update_uri.clone(),
            exec_uri: self.exec_uri.clone(),
            host: match &self.host {
                Some(h) => Some(h.clone()),
                None => None,
            },
            port: self.port,
        }
    }

    /// A writer for this client, authenticated by the given credential.
    pub fn get_writer(&self, token: String) -> (w: Writer)
        ensures
            w.client == *self,
            w.token.client == *self,
            w.token.token@ == token@,
    {
        Writer::new(self.duplicate(), Token::new(self.duplicate(), token))
    }

    /// A reader for this client, authenticated by the given credential.
    pub fn get_reader(&self, token: String) -> (r: Reader)
        ensures
            r.client == *self,
            r.token@ == token@,
    {
        Reader::new(self.duplicate(), token)
    }
}

} // verus!
