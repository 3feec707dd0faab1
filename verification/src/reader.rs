//! The reader: substitutes the credential into a script body and assembles
//! the authenticated execution request.
use vstd::prelude::*;

use crate::client::{spec_host_and_maybe_port, Client};
use crate::http_handler::{
    header_entries_of, new_header_map, spec_no_header_entries, Warp10Request,
};
use crate::token::{spec_set_headers, Token};

verus! {

/// The placeholder that scripts may use to reference the credential.
pub open spec fn spec_token_marker() -> Seq<char> {
    seq!['$', 'T', 'O', 'K', 'E', 'N']
}

/// The script text with every occurrence of the `$TOKEN` placeholder
/// replaced by the credential: scanned left to right, occurrences do not
/// overlap, and the text between them is kept verbatim.
pub open spec fn spec_substitute_token(s: Seq<char>, token: Seq<char>) -> Seq<char>
    decreases s.len(),
{
    if s.len() < 6 {
        s
    } else if s.take(6) == spec_token_marker() {
        token + spec_substitute_token(s.skip(6), token)
    } else {
        seq![s[0]] + spec_substitute_token(s.skip(1), token)
    }
}

/// True when `p` stands at the front of `s`.
pub open spec fn spec_starts_with(s: Seq<char>, p: Seq<char>) -> bool {
    p.len() <= s.len() && s.take(p.len() as int) == p
}

/// True when the `$TOKEN` placeholder occurs anywhere in `s`.
pub open spec fn spec_has_token_marker(s: Seq<char>) -> bool {
    exists|p: int|
        0 <= p && p + 6 <= s.len() && #[trigger] s.subrange(p, p + 6) == spec_token_marker()
}

/// True when every character of `s` is a lowercase letter or a digit.
pub open spec fn spec_plain_credential(s: Seq<char>) -> bool {
    forall|i: int|
        0 <= i < s.len() ==> (('a' <= #[trigger] s[i] && s[i] <= 'z') || ('0' <= s[i] && s[i]
            <= '9'))
}

/// When a substituted text begins with a proper tail of the placeholder,
/// that tail stood at the front of the unsubstituted text: a credential of
/// lowercase letters and digits contributes no such characters.
proof fn lemma_substitution_head(u: Seq<char>, token: Seq<char>, k: int)
    requires
        1 <= k <= 5,
        token.len() > 0,
        spec_plain_credential(token),
        spec_starts_with(spec_substitute_token(u, token), spec_token_marker().skip(k)),
    ensures
        spec_starts_with(u, spec_token_marker().skip(k)),
    decreases u.len(),
{
    let out = spec_substitute_token(u, token);
    let mk = spec_token_marker().skip(k);
    assert(mk.len() == 6 - k);
    assert(mk[0] == spec_token_marker()[k]);
    if u.len() < 6 {
    } else if u.take(6) == spec_token_marker() {
        assert(out == token + spec_substitute_token(u.skip(6), token));
        assert(out.take(mk.len() as int)[0] == out[0]);
        assert(out[0] == token[0]);
        assert(out[0] == mk[0]);
        assert(false);
    } else {
        let rest = spec_substitute_token(u.skip(1), token);
        assert(out == seq![u[0]] + rest);
        assert(out.take(mk.len() as int)[0] == out[0]);
        assert(out[0] == u[0]);
        assert(u[0] == mk[0]);
        if k == 5 {
            assert(u.take(1) =~= mk);
        } else {
            assert(rest.len() >= mk.len() - 1);
            assert(rest.take(mk.len() - 1) =~= spec_token_marker().skip(k + 1)) by {
                assert(forall|j: int|
                    0 <= j < mk.len() ==> #[trigger] out.take(mk.len() as int)[j] == out[j]);
                assert(forall|j: int| 1 <= j < mk.len() ==> out[j] == rest[j - 1]);
                assert(forall|j: int|
                    0 <= j < mk.len() - 1 ==> #[trigger] spec_token_marker().skip(k + 1)[j]
                        == spec_token_marker().skip(k)[j + 1]);
            }
            lemma_substitution_head(u.skip(1), token, k + 1);
            assert(u.take(mk.len() as int) =~= mk) by {
                assert(u.skip(1).take(mk.len() - 1) == spec_token_marker().skip(k + 1));
                assert(forall|j: int|
                    1 <= j < mk.len() ==> #[trigger] u[j] == u.skip(1).take(mk.len() - 1)[j - 1]);
                assert(forall|j: int|
                    0 <= j < mk.len() - 1 ==> #[trigger] spec_token_marker().skip(k + 1)[j]
                        == mk[j + 1]);
            }
        }
    }
}

/// Substitution leaves no literal `$TOKEN` behind: for a nonempty credential
/// of lowercase letters and digits, the substituted script holds no
/// occurrence of the placeholder.  (A credential carrying `$`, uppercase
/// letters of the placeholder, or nothing at all could let an occurrence
/// reassemble across a substitution boundary.)
pub proof fn lemma_substitution_removes_marker(s: Seq<char>, token: Seq<char>)
    requires
        token.len() > 0,
        spec_plain_credential(token),
    ensures
        !spec_has_token_marker(spec_substitute_token(s, token)),
    decreases s.len(),
{
    let out = spec_substitute_token(s, token);
    let marker = spec_token_marker();
    if s.len() < 6 {
        assert(out == s);
    } else if s.take(6) == marker {
        lemma_substitution_removes_marker(s.skip(6), token);
        let rest = spec_substitute_token(s.skip(6), token);
        assert(out == token + rest);
        assert forall|p: int| 0 <= p && p + 6 <= out.len() implies #[trigger] out.subrange(
            p,
            p + 6,
        ) != marker by {
            if out.subrange(p, p + 6) == marker {
                if p < token.len() {
                    assert(out.subrange(p, p + 6)[0] == out[p]);
                    assert(out[p] == token[p]);
                    assert(marker[0] == '$');
                    assert(false);
                } else {
                    let q = p - token.len();
                    assert(rest.subrange(q, q + 6) =~= out.subrange(p, p + 6));
                    assert(spec_has_token_marker(rest));
                    assert(false);
                }
            }
        }
        assert(!spec_has_token_marker(out));
    } else {
        lemma_substitution_removes_marker(s.skip(1), token);
        let rest = spec_substitute_token(s.skip(1), token);
        assert(out == seq![s[0]] + rest);
        assert forall|p: int| 0 <= p && p + 6 <= out.len() implies #[trigger] out.subrange(
            p,
            p + 6,
        ) != marker by {
            if out.subrange(p, p + 6) == marker {
                if p == 0 {
                    assert(out.subrange(0, 6)[0] == out[0]);
                    assert(out[0] == s[0]);
                    assert(s[0] == marker[0]);
                    assert(rest.len() >= 5);
                    assert(rest.take(5) =~= marker.skip(1)) by {
                        assert(forall|j: int|
                            0 <= j < 6 ==> #[trigger] out.subrange(0, 6)[j] == out[j]);
                        assert(forall|j: int| 1 <= j < 6 ==> out[j] == rest[j - 1]);
                        assert(forall|j: int|
                            0 <= j < 5 ==> #[trigger] marker.skip(1)[j] == marker[j + 1]);
                    }
                    assert(spec_starts_with(rest, marker.skip(1)));
                    lemma_substitution_head(s.skip(1), token, 1);
                    assert(s.take(6) =~= marker) by {
                        assert(s.skip(1).take(5) == marker.skip(1));
                        assert(forall|j: int|
                            1 <= j < 6 ==> #[trigger] s[j] == s.skip(1).take(5)[j - 1]);
                        assert(forall|j: int|
                            0 <= j < 5 ==> #[trigger] marker.skip(1)[j] == marker[j + 1]);
                    }
                    assert(false);
                } else {
                    let q = p - 1;
                    assert(rest.subrange(q, q + 6) =~= out.subrange(p, p + 6)) by {
                        assert(forall|j: int|
                            0 <= j < 6 ==> #[trigger] out.subrange(p, p + 6)[j] == out[p + j]);
                        assert(forall|j: int|
                            1 <= j < out.len() ==> #[trigger] out[j] == rest[j - 1]);
                    }
                    assert(spec_has_token_marker(rest));
                    assert(false);
                }
            }
        }
        assert(!spec_has_token_marker(out));
    }
}

/// Replaces every occurrence of the `$TOKEN` placeholder in the script by
/// the credential.
pub fn substitute_token(script: &str, token: &str) -> (r: String)
    ensures
        r@ == spec_substitute_token(script@, token@),
{
    let n = script.unicode_len();
    let mut out = String::new();
    let mut i: usize = 0;
    proof {
        assert(script@.skip(0) =~= script@);
        assert(out@ + spec_substitute_token(script@, token@) =~= spec_substitute_token(
            script@,
            token@,
        ));
    }
    while i < n
        invariant
            n == script@.len(),
            i <= n,
            spec_substitute_token(script@, token@) == out@ + spec_substitute_token(
                script@.skip(i as int),
                token@,
            ),
        decreases n - i,
    {
        let ghost s = script@.skip(i as int);
        let mut is_marker = false;
        if n >= 6 && i <= n - 6 {
            is_marker = script.get_char(i) == '$' && script.get_char(i + 1) == 'T'
                && script.get_char(i + 2) == 'O' && script.get_char(i + 3) == 'K'
                && script.get_char(i + 4) == 'E' && script.get_char(i + 5) == 'N';
        }
        if is_marker {
            out.append(token);
            proof {
                assert(s.take(6) =~= spec_token_marker());
                assert(s.skip(6) =~= script@.skip(i as int + 6));
                assert(spec_substitute_token(s, token@) == token@ + spec_substitute_token(
                    script@.skip(i as int + 6),
                    token@,
                ));
            }
            i += 6;
        } else {
            let piece = script.substring_char(i, i + 1);
            out.append(piece);
            proof {
                assert(seq![s[0]] =~= script@.subrange(i as int, i as int + 1));
                assert(s.skip(1) =~= script@.skip(i as int + 1));
                if s.len() >= 6 {
                    assert(s.take(6) != spec_token_marker()) by {
                        if s.take(6) == spec_token_marker() {
                            assert(s.take(6)[0] == script@[i as int] && s.take(6)[1] == script@[
                                i as int + 1
                            ] && s.take(6)[2] == script@[i as int + 2] && s.take(6)[3] == script@[
                                i as int + 3
                            ] && s.take(6)[4] == script@[i as int + 4] && s.take(6)[5] == script@[
                                i as int + 5
                            ]);
                            assert(spec_token_marker()[0] == '$' && spec_token_marker()[1] == 'T'
                                && spec_token_marker()[2] == 'O' && spec_token_marker()[3] == 'K'
                                && spec_token_marker()[4] == 'E' && spec_token_marker()[5] == 'N');
                        }
                    }
                }
                assert(spec_substitute_token(s, token@) == seq![s[0]] + spec_substitute_token(
                    script@.skip(i as int + 1),
                    token@,
                ));
            }
            i += 1;
        }
    }
    proof {
        assert(script@.skip(n as int) =~= Seq::<char>::empty());
        assert(spec_substitute_token(script@.skip(n as int), token@) == Seq::<char>::empty());
        assert(out@ + Seq::<char>::empty() =~= out@);
    }
    out
}

/// Issues script-execution requests for one client, authenticated by one
/// credential.
#[derive(Debug)]
pub struct Reader {
    pub client: Client,
    pub token: String,
}

impl Reader {
    /// A reader from a client and a credential.
    pub fn new(client: Client, token: String) -> (r: Reader)
        ensures
            r.client == client,
            r.token == token,
    {
        Reader { client, token }
    }

    /// Assembles the execution request for a script: the script with the
    /// credential substituted for every `$TOKEN` as the body, the client's
    /// execution URI as the target, and the authenticated header set.
    pub fn get_request(&self, warp_script: &str) -> (r: Warp10Request)
        ensures
            r.uri@ == self.client.exec_uri@,
            r.body@ == spec_substitute_token(warp_script@, self.token@),
            header_entries_of(r.headers) == spec_set_headers(
                spec_no_header_entries(),
                spec_host_and_maybe_port(self.client),
                self.token@,
            ),
    {
        let body = substitute_token(warp_script, self.token.as_str());
        let mut headers = new_header_map();
        let t = Token::new(self.client.duplicate(), self.token.clone());
        t.set_headers(&mut headers);
        Warp10Request { uri: self.client.exec_uri().clone(), body, headers }
    }
}

} // verus!
