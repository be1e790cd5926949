use vstd::prelude::*;
use vstd::utf8::{decode_utf8, encode_utf8, valid_utf8};

verus! {

/// Address of the catalog query for the service whose entries are relayed.
pub const CATALOG_URL: &'static str = "http://localhost:8500/v1/catalog/service/spinnaker";

/// Address that the relay server listens on.
pub const LISTEN_ADDR: &'static str = "localhost:3000";

/// The status of every reply the relay gives.
pub const STATUS_OK: u16 = 200;

/// Why one exchange with the catalog produced no reply.
#[derive(Clone, Copy, Debug, PartialEq, Eq, Structural)]
pub enum RelayError {
    /// The outbound transfer did not complete.
    Transfer,
    /// The catalog's body is not valid UTF-8 text.
    Decode,
}

/// A reply of the relay server: a status and the full body.
pub struct Reply {
    pub status: u16,
    pub body: String,
}

/// What the catalog query yields, given the bytes that arrived and whether the
/// transfer completed: the body as text, or the reason there is none.
pub open spec fn fetched(bytes: Seq<u8>, transferred: bool) -> Result<Seq<char>, RelayError> {
    if !transferred {
        Err(RelayError::Transfer)
    } else if !valid_utf8(bytes) {
        Err(RelayError::Decode)
    } else {
        Ok(decode_utf8(bytes))
    }
}

/// The reply to a request with the given method and path, once the catalog
/// query has yielded `body`: the request itself plays no part.
pub open spec fn relayed(method: Seq<char>, path: Seq<char>, body: Result<Seq<char>, RelayError>) -> Result<(u16, Seq<char>), RelayError> {
    match body {
        Ok(text) => Ok((STATUS_OK, text)),
        Err(e) => Err(e),
    }
}

/// A reply as status and body text.
pub open spec fn reply_view(r: Result<Reply, RelayError>) -> Result<(u16, Seq<char>), RelayError> {
    match r {
        Ok(reply) => Ok((reply.status, reply.body@)),
        Err(e) => Err(e),
    }
}

/// A text result as its characters.
pub open spec fn text_view(r: Result<String, RelayError>) -> Result<Seq<char>, RelayError> {
    match r {
        Ok(s) => Ok(s@),
        Err(e) => Err(e),
    }
}

/// Relies on `String::from_utf8`: it succeeds exactly on valid UTF-8, and the
/// string then holds the characters that the bytes encode.
#[verifier::external_body]
fn decode_text(bytes: Vec<u8>) -> (r: Option<String>)
    ensures
        r is Some <==> valid_utf8(bytes@),
        r is Some ==> r->0@ == decode_utf8(bytes@),
{
    String::from_utf8(bytes).ok()
}

/// The reply to a request, from what its catalog query yielded: status 200 with
/// that text, whatever the method and path; a failed query stays an error.
pub fn reply_for(method: &str, path: &str, body: Result<String, RelayError>) -> (r: Result<Reply, RelayError>)
    ensures
        reply_view(r) == relayed(method@, path@, text_view(body)),
{
    match body {
        Ok(text) => Ok(Reply { status: STATUS_OK, body: text }),
        Err(e) => Err(e),
    }
}

/// One request's own query of the catalog: the bytes received so far, in the
/// order they arrived.
pub struct Exchange {
    received: Vec<u8>,
}

impl View for Exchange {
    type V = Seq<u8>;

    closed spec fn view(&self) -> Seq<u8> {
        self.received@
    }
}

impl Exchange {
    /// A new exchange, which has received nothing: no earlier exchange's
    /// bytes carry over.
    pub fn new() -> (r: Exchange)
        ensures
            r@ == Seq::<u8>::empty(),
    {
        Exchange { received: Vec::new() }
    }

    /// Takes one chunk of the catalog's body, appending it to what came before,
    /// and reports the whole chunk as taken.
    pub fn receive(&mut self, chunk: &[u8]) -> (n: usize)
        ensures
            final(self)@ == old(self)@ + chunk@,
            n == chunk@.len(),
    {
        let mut i: usize = 0;
        while i < chunk.len()
            invariant
                i <= chunk@.len(),
                self@ == old(self)@ + chunk@.subrange(0, i as int),
            decreases chunk@.len() - i,
        {
            self.received.push(chunk[i]);
            i = i + 1;
            assert(chunk@.subrange(0, i as int) == chunk@.subrange(0, i - 1) + seq![chunk@[i - 1]]);
        }
        assert(chunk@.subrange(0, i as int) == chunk@);
        chunk.len()
    }

    /// The catalog's body as text, once the transfer has ended (`transferred`
    /// says whether it completed).
    pub fn finish(self, transferred: bool) -> (r: Result<String, RelayError>)
        ensures
            text_view(r) == fetched(self@, transferred),
    {
        if !transferred {
            return Err(RelayError::Transfer);
        }
        match decode_text(self.received) {
            Some(text) => Ok(text),
            None => Err(RelayError::Decode),
        }
    }

    /// The reply to a request with the given method and path, from this
    /// exchange's bytes once the transfer has ended.
    pub fn respond(self, method: &str, path: &str, transferred: bool) -> (r: Result<Reply, RelayError>)
        ensures
            reply_view(r) == relayed(method@, path@, fetched(self@, transferred)),
    {
        let body = self.finish(transferred);
        reply_for(method, path, body)
    }
}

/// A catalog body that is valid text is relayed exactly: status 200, and a body
/// whose characters encode back to the very bytes that the catalog sent.
pub proof fn lemma_body_relayed_exactly(method: Seq<char>, path: Seq<char>, bytes: Seq<u8>)
    requires
        valid_utf8(bytes),
    ensures
        relayed(method, path, fetched(bytes, true)) == Ok::<(u16, Seq<char>), RelayError>((STATUS_OK, decode_utf8(bytes))),
        encode_utf8(decode_utf8(bytes)) == bytes,
{
    vstd::utf8::decode_utf8_encode_utf8(bytes);
}

/// Any two requests, whatever their methods and paths, get the same reply from
/// the same catalog outcome, and every reply has status 200.
pub proof fn lemma_reply_ignores_request(
    method1: Seq<char>,
    path1: Seq<char>,
    method2: Seq<char>,
    path2: Seq<char>,
    body: Result<Seq<char>, RelayError>,
)
    ensures
        relayed(method1, path1, body) == relayed(method2, path2, body),
        relayed(method1, path1, body) is Ok ==> relayed(method1, path1, body)->Ok_0.0 == STATUS_OK,
{
}

/// A transfer that did not complete never yields a reply, empty or otherwise:
/// it is an error.
pub proof fn lemma_failed_transfer_gives_no_reply(method: Seq<char>, path: Seq<char>, bytes: Seq<u8>)
    ensures
        relayed(method, path, fetched(bytes, false)) == Err::<(u16, Seq<char>), RelayError>(RelayError::Transfer),
{
}

} // verus!
