//! Parsing the request line of one connection's bytes.

use vstd::prelude::*;

verus! {

/// What parsing one buffer of request bytes yields. The headers are parsed
/// and bounded but never consulted, so only the path is carried out.
pub enum ParseOutcome {
    /// The bytes are not a syntactically valid request line and headers (a
    /// malformed token, a missing version, an unterminated header), or hold
    /// less than a complete request.
    Failure,
    /// The bytes parsed, but no request path was found.
    NoPath,
    /// The bytes parsed and hold this request path.
    Path(Vec<u8>),
}

/// What `httparse` makes of a buffer, under a sixteen-header table and the
/// default parser configuration: `None` for a parse error, `Some(None)` for a
/// parse without a path, `Some(Some(p))` for a parse with path `p`. The
/// parser is a pure function of the bytes, so the result carries a name and
/// nothing more is assumed of it.
pub uninterp spec fn http_parse(buf: Seq<u8>) -> Option<Option<Seq<u8>>>;

/// Relies on `httparse::Request::parse`, run with a fixed table of sixteen
/// headers and the default configuration: its result depends on the buffer's
/// bytes alone. An `Err` is a parse failure, and so is a partial parse: less
/// than a complete request fails closed, since only one read is ever made.
#[verifier::external_body]
pub fn parse_request(buf: &[u8]) -> (r: ParseOutcome)
    ensures
        match r {
            ParseOutcome::Failure => http_parse(buf@) is None,
            ParseOutcome::NoPath => http_parse(buf@) == Some(Option::<Seq<u8>>::None),
            ParseOutcome::Path(p) => http_parse(buf@) == Some(Some(p@)),
        },
{
    let mut headers = [httparse::EMPTY_HEADER; 16];
    let mut req = httparse::Request::new(&mut headers);
    match req.parse(buf) {
        Err(_) => ParseOutcome::Failure,
        Ok(httparse::Status::Partial) => ParseOutcome::Failure,
        Ok(httparse::Status::Complete(_)) => match req.path {
            None => ParseOutcome::NoPath,
            Some(p) => ParseOutcome::Path(p.as_bytes().to_vec()),
        },
    }
}

} // verus!
