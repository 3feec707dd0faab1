//! The writer: serializes a batch of data points into a newline-joined body
//! and assembles the authenticated ingestion request.
use vstd::prelude::*;

use crate::client::Client;
use crate::data::{spec_data_line, spec_join, Data, Warp10Serializable};
use crate::http_handler::{
    header_entries_of, new_header_map, spec_no_header_entries, Warp10Request,
};
use crate::token::{spec_set_headers, Token};

verus! {

/// The body of a batch ingestion request: the line of each data point, in
/// input order, joined by single newlines, with no leading or trailing
/// newline.
pub open spec fn spec_batch_body(points: Seq<Data>) -> Seq<char> {
    spec_join(points.map_values(|d: Data| spec_data_line(d)), seq!['\n'])
}

/// Serializes a batch of data points into the newline-joined request body.
pub fn batch_body(data: &Vec<Data>) -> (r: String)
    requires
        forall|i: int| 0 <= i < data@.len() ==> (#[trigger] data@[i]).wire_wf(),
    ensures
        r@ == spec_batch_body(data@),
{
    let mut r = String::new();
    let ghost fragments: Seq<Seq<char>> = data@.map_values(|d: Data| spec_data_line(d));
    let mut i: usize = 0;
    while i < data.len()
        invariant
            i <= data@.len(),
            forall|j: int| 0 <= j < data@.len() ==> (#[trigger] data@[j]).wire_wf(),
            fragments == data@.map_values(|d: Data| spec_data_line(d)),
            r@ == spec_join(fragments.take(i as int), seq!['\n']),
        decreases data@.len() - i,
    {
        if i > 0 {
            r.append("\n");
        }
        let line = data[i].warp10_serialize();
        r.append(line.as_str());
        proof {
            reveal_strlit("\n");
            assert(fragments.take(i + 1) =~= fragments.take(i as int).push(fragments[i as int]));
            crate::data::lemma_join_push(
                fragments.take(i as int),
                seq!['\n'],
                fragments[i as int],
            );
            assert(r@ =~= spec_join(fragments.take(i + 1), seq!['\n']));
        }
        i += 1;
    }
    proof {
        assert(fragments.take(data@.len() as int) =~= fragments);
    }
    r
}

/// A batch of exactly two data points renders as the first point's line, one
/// newline, and the second point's line.
pub proof fn lemma_two_point_batch(a: Data, b: Data)
    ensures
        spec_batch_body(seq![a, b]) == spec_data_line(a) + seq!['\n'] + spec_data_line(b),
{
    let parts = seq![a, b].map_values(|d: Data| spec_data_line(d));
    assert(parts.len() == 2);
    assert(parts.skip(1) =~= seq![spec_data_line(b)]);
    assert(spec_join(parts.skip(1), seq!['\n']) == spec_data_line(b));
    assert(spec_batch_body(seq![a, b]) == spec_data_line(a) + seq!['\n'] + spec_data_line(b));
}

/// Issues ingestion requests for one client, authenticated by one token.
#[derive(Debug)]
pub struct Writer {
    pub client: Client,
    pub token: Token,
}

impl Writer {
    /// A writer from a client and a token.
    pub fn new(client: Client, token: Token) -> (r: Writer)
        ensures
            r.client == client,
            r.token == token,
    {
        Writer { client, token }
    }

    /// Assembles the ingestion request for a batch of data points: the
    /// serialized batch as the body, the client's ingestion URI as the
    /// target, and the authenticated header set.
    pub fn post_request(&self, data: &Vec<Data>) -> (r: Warp10Request)
        requires
            forall|i: int| 0 <= i < data@.len() ==> (#[trigger] data@[i]).wire_wf(),
        ensures
            r.uri@ == self.client.update_uri@,
            r.body@ == spec_batch_body(data@),
            header_entries_of(r.headers) == spec_set_headers(
                spec_no_header_entries(),
                crate::client::spec_host_and_maybe_port(self.token.client),
                self.token.token@,
            ),
    {
        let body = batch_body(data);
        let mut headers = new_header_map();
        self.token.set_headers(&mut headers);
        Warp10Request { uri: self.client.update_uri().clone(), body, headers }
    }
}

} // verus!
