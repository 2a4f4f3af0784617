//! The properties the server keeps, stated over the specification-level
//! pipeline and proved once for all inputs.

use vstd::prelude::*;
use crate::mime::{extension_spec, mime_spec};
use crate::parse::http_parse;
use crate::resolve::{
    contains_dds, dds_at, decode_spaces, joined, pct20_at, resolved_spec, sanitize_spec,
    strip_dotdot,
};
use crate::response::{
    dec_rep, ok_blank_line, ok_length_header, ok_response_spec, ok_status_and_type, resp_400,
    resp_404, resp_500,
};
use crate::handler::{spec_outcome, spec_response, spec_state, OutcomeSpec, StateSpec};

verus! {

/// A 200 response carries its body verbatim at its end, after the blank line:
/// the bytes of the response from the body's offset on equal the file's bytes
/// exactly.
pub proof fn lemma_ok_response_body_exact(path: Seq<u8>, body: Seq<u8>)
    ensures
        ok_response_spec(path, body).len() >= body.len() + ok_status_and_type().len(),
        ok_response_spec(path, body).skip(
            ok_response_spec(path, body).len() - body.len(),
        ) =~= body,
        ok_response_spec(path, body).take(ok_status_and_type().len() as int) =~= ok_status_and_type(),
{
}

/// A valid request for the root path `/` is answered from the index file:
/// the terminal state serves `dir/index`, and with the file's contents `c`
/// the response opens with the 200 status line and ends with `c`, byte for
/// byte.
pub proof fn lemma_root_request_serves_index(
    buf: Seq<u8>,
    dir: Seq<u8>,
    index: Seq<u8>,
    not_found: Option<Seq<u8>>,
    c: Seq<u8>,
)
    requires
        http_parse(buf) matches Some(pt) && pt matches Some(p) && sanitize_spec(p) == seq![47u8],
    ensures
        spec_outcome(buf, dir, index) == OutcomeSpec::ResolvedFile(joined(dir, index)),
        spec_state(spec_outcome(buf, dir, index), true, dir, not_found) == StateSpec::FileFound(
            joined(dir, index),
        ),
        spec_response(
            spec_state(spec_outcome(buf, dir, index), true, dir, not_found),
            Some(c),
        ) == ok_response_spec(joined(dir, index), c),
        spec_response(
            spec_state(spec_outcome(buf, dir, index), true, dir, not_found),
            Some(c),
        ).skip(
            spec_response(
                spec_state(spec_outcome(buf, dir, index), true, dir, not_found),
                Some(c),
            ).len() - c.len(),
        ) =~= c,
        spec_response(
            spec_state(spec_outcome(buf, dir, index), true, dir, not_found),
            Some(c),
        ).take(ok_status_and_type().len() as int) =~= ok_status_and_type(),
{
    lemma_ok_response_body_exact(joined(dir, index), c);
}

/// A request for `/<name>` whose candidate file exists is answered from that
/// file: the candidate is `dir/name`, and with the file's contents `c` the
/// response is the 200 response whose Content-Length renders `c.len()` and
/// whose body is `c`, byte for byte.
pub proof fn lemma_existing_file_served(
    buf: Seq<u8>,
    dir: Seq<u8>,
    index: Seq<u8>,
    not_found: Option<Seq<u8>>,
    name: Seq<u8>,
    c: Seq<u8>,
)
    requires
        http_parse(buf) matches Some(pt) && pt matches Some(p) && sanitize_spec(p) == seq![47u8]
            + name,
        name.len() > 0,
    ensures
        spec_outcome(buf, dir, index) == OutcomeSpec::ResolvedFile(joined(dir, name)),
        spec_state(spec_outcome(buf, dir, index), true, dir, not_found) == StateSpec::FileFound(
            joined(dir, name),
        ),
        spec_response(
            spec_state(spec_outcome(buf, dir, index), true, dir, not_found),
            Some(c),
        ) == ok_status_and_type() + mime_spec(extension_spec(joined(dir, name)))
            + ok_length_header() + dec_rep(c.len()) + ok_blank_line() + c,
        spec_response(
            spec_state(spec_outcome(buf, dir, index), true, dir, not_found),
            Some(c),
        ).skip(
            spec_response(
                spec_state(spec_outcome(buf, dir, index), true, dir, not_found),
                Some(c),
            ).len() - c.len(),
        ) =~= c,
{
    let san = seq![47u8] + name;
    assert(san.len() == 1 + name.len());
    assert(san != seq![47u8]);
    assert(san.skip(1) =~= name);
    lemma_ok_response_body_exact(joined(dir, name), c);
}

/// A request whose candidate file does not exist, with no not-found file
/// configured, is answered with the exact 404 response, which has no body.
pub proof fn lemma_missing_file_404(
    buf: Seq<u8>,
    dir: Seq<u8>,
    index: Seq<u8>,
    contents: Option<Seq<u8>>,
)
    requires
        http_parse(buf) matches Some(pt) && pt is Some,
    ensures
        spec_state(spec_outcome(buf, dir, index), false, dir, None) == StateSpec::FileNotFound,
        spec_response(spec_state(spec_outcome(buf, dir, index), false, dir, None), contents)
            == resp_404(),
{
}

/// A request whose candidate file does not exist, with a not-found file
/// configured, is answered from `dir/nf` with a 200 response whose body is
/// that file's contents, byte for byte.
pub proof fn lemma_missing_file_fallback(
    buf: Seq<u8>,
    dir: Seq<u8>,
    index: Seq<u8>,
    nf: Seq<u8>,
    c: Seq<u8>,
)
    requires
        http_parse(buf) matches Some(pt) && pt is Some,
    ensures
        spec_state(spec_outcome(buf, dir, index), false, dir, Some(nf)) == StateSpec::FileFound(
            joined(dir, nf),
        ),
        spec_response(
            spec_state(spec_outcome(buf, dir, index), false, dir, Some(nf)),
            Some(c),
        ) == ok_response_spec(joined(dir, nf), c),
        spec_response(
            spec_state(spec_outcome(buf, dir, index), false, dir, Some(nf)),
            Some(c),
        ).skip(
            spec_response(
                spec_state(spec_outcome(buf, dir, index), false, dir, Some(nf)),
                Some(c),
            ).len() - c.len(),
        ) =~= c,
        spec_response(
            spec_state(spec_outcome(buf, dir, index), false, dir, Some(nf)),
            Some(c),
        ).take(ok_status_and_type().len() as int) =~= ok_status_and_type(),
{
    lemma_ok_response_body_exact(joined(dir, nf), c);
}

/// Every candidate path is rooted under the served directory lexically: it
/// opens with `dir` followed by a slash, whatever the request path was.
pub proof fn lemma_candidate_rooted(san: Seq<u8>, dir: Seq<u8>, index: Seq<u8>)
    ensures
        resolved_spec(san, dir, index).len() > dir.len(),
        resolved_spec(san, dir, index).take(dir.len() + 1 as int) =~= dir + seq![47u8],
{
}

/// Decoding opens with a space where `%20` stood, and with the first input
/// byte otherwise; it never yields less than one byte for a non-empty input.
proof fn lemma_decode_head(s: Seq<u8>)
    requires
        s.len() > 0,
    ensures
        decode_spaces(s).len() > 0,
        pct20_at(s, 0) ==> decode_spaces(s)[0] == 32u8,
        !pct20_at(s, 0) ==> decode_spaces(s)[0] == s[0],
{
}

/// Decoding `%20` to spaces cannot form a `../` that was not already there:
/// the bytes of a decoded occurrence would have had to stand contiguously in
/// the input, since decoding only copies bytes or puts spaces between them.
proof fn lemma_decode_no_dds(s: Seq<u8>)
    requires
        !contains_dds(s),
    ensures
        !contains_dds(decode_spaces(s)),
    decreases s.len(),
{
    if s.len() == 0 {
    } else if pct20_at(s, 0) {
        let t = s.skip(3);
        assert(!contains_dds(t)) by {
            if contains_dds(t) {
                let i = choose|i: int| dds_at(t, i);
                assert(dds_at(s, i + 3));
            }
        }
        lemma_decode_no_dds(t);
        let d = decode_spaces(t);
        assert(decode_spaces(s) == seq![32u8] + d);
        assert forall|i: int| !dds_at(seq![32u8] + d, i) by {
            if dds_at(seq![32u8] + d, i) {
                if i == 0 {
                    assert((seq![32u8] + d)[0] == 32u8);
                } else {
                    assert(dds_at(d, i - 1));
                }
            }
        }
    } else {
        let t = s.skip(1);
        assert(!contains_dds(t)) by {
            if contains_dds(t) {
                let i = choose|i: int| dds_at(t, i);
                assert(dds_at(s, i + 1));
            }
        }
        lemma_decode_no_dds(t);
        let d = decode_spaces(t);
        assert(decode_spaces(s) == seq![s[0]] + d);
        assert forall|i: int| !dds_at(seq![s[0]] + d, i) by {
            if dds_at(seq![s[0]] + d, i) {
                if i > 0 {
                    assert(dds_at(d, i - 1));
                } else {
                    assert(s[0] == 46u8);
                    assert(d[0] == 46u8 && d[1] == 47u8);
                    assert(t.len() > 0);
                    lemma_decode_head(t);
                    assert(!pct20_at(t, 0));
                    assert(t[0] == 46u8);
                    assert(s[1] == 46u8);
                    let t2 = t.skip(1);
                    assert(d == seq![t[0]] + decode_spaces(t2));
                    assert(decode_spaces(t2)[0] == 47u8);
                    assert(t2.len() > 0);
                    lemma_decode_head(t2);
                    assert(!pct20_at(t2, 0));
                    assert(t2[0] == 47u8);
                    assert(s[2] == 47u8);
                    assert(dds_at(s, 0));
                }
            }
        }
    }
}

/// When the stripping pass has left no `../` in the request path, the
/// candidate is the served directory, a slash, and a remainder that holds no
/// `../` either: the resolved path cannot climb out of the directory. A
/// request path in which the removal itself forms a new `../` is outside this
/// statement; such a candidate is still rooted under the directory lexically,
/// but its remainder can climb.
pub proof fn lemma_traversal_contained(raw: Seq<u8>, dir: Seq<u8>, index: Seq<u8>)
    requires
        !contains_dds(strip_dotdot(raw)),
        sanitize_spec(raw) != seq![47u8],
    ensures
        ({
            let c = resolved_spec(sanitize_spec(raw), dir, index);
            &&& c.take(dir.len() + 1 as int) =~= dir + seq![47u8]
            &&& !contains_dds(c.skip(dir.len() + 1 as int))
        }),
{
    lemma_decode_no_dds(strip_dotdot(raw));
    let san = sanitize_spec(raw);
    lemma_candidate_rooted(san, dir, index);
    let c = resolved_spec(san, dir, index);
    if san.len() > 0 {
        let rest = san.skip(1);
        assert(c.skip(dir.len() + 1 as int) =~= rest);
        assert(!contains_dds(rest)) by {
            if contains_dds(rest) {
                let i = choose|i: int| dds_at(rest, i);
                assert(dds_at(san, i + 1));
            }
        }
    } else {
        assert(c.skip(dir.len() + 1 as int) =~= Seq::<u8>::empty());
    }
}

/// Buffers that do not parse are answered with the exact 500 response,
/// whatever the filesystem would have said.
pub proof fn lemma_malformed_500(
    buf: Seq<u8>,
    dir: Seq<u8>,
    index: Seq<u8>,
    not_found: Option<Seq<u8>>,
    exists: bool,
    contents: Option<Seq<u8>>,
)
    requires
        http_parse(buf) is None,
    ensures
        spec_response(
            spec_state(spec_outcome(buf, dir, index), exists, dir, not_found),
            contents,
        ) == resp_500(),
{
}

/// Buffers that parse without a path token are answered with the exact 400
/// response, whatever the filesystem would have said.
pub proof fn lemma_no_path_400(
    buf: Seq<u8>,
    dir: Seq<u8>,
    index: Seq<u8>,
    not_found: Option<Seq<u8>>,
    exists: bool,
    contents: Option<Seq<u8>>,
)
    requires
        http_parse(buf) == Some(Option::<Seq<u8>>::None),
    ensures
        spec_response(
            spec_state(spec_outcome(buf, dir, index), exists, dir, not_found),
            contents,
        ) == resp_400(),
{
}

} // verus!
