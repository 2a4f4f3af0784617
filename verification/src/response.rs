//! Construction of the exact response bytes for each terminal request state.

use vstd::prelude::*;

verus! {

/// The decimal digits of `n`, most significant first, with no digits at all
/// for zero.
pub open spec fn dec_digits(n: nat) -> Seq<u8>
    decreases n,
{
    if n == 0 {
        Seq::empty()
    } else {
        dec_digits(n / 10) + seq![(48 + n % 10) as u8]
    }
}

/// The decimal rendering of `n`: its digits, or the single digit `0`.
pub open spec fn dec_rep(n: nat) -> Seq<u8> {
    if n == 0 {
        seq![48u8]
    } else {
        dec_digits(n)
    }
}

/// Renders `n` in decimal.
pub fn usize_to_dec(n: usize) -> (r: Vec<u8>)
    ensures
        r@ == dec_rep(n as nat),
{
    let mut out: Vec<u8> = Vec::new();
    if n == 0 {
        out.push(48);
        proof {
            assert(out@ =~= dec_rep(0));
        }
        return out;
    }
    let mut m: usize = n;
    proof {
        assert(dec_digits(n as nat) + Seq::<u8>::empty() =~= dec_digits(n as nat));
    }
    while m > 0
        invariant
            dec_digits(n as nat) == dec_digits(m as nat) + out@,
        decreases m,
    {
        let d: u8 = (m % 10) as u8 + 48;
        let ghost out_before = out@;
        out.insert(0, d);
        proof {
            assert(out@ =~= seq![d] + out_before);
            assert(dec_digits(m as nat) == dec_digits((m / 10) as nat) + seq![d]);
            assert(dec_digits((m / 10) as nat) + out@ =~= dec_digits(m as nat) + out_before);
        }
        m = m / 10;
    }
    out
}

/// The whole response for an internal failure: status line, no headers, empty body.
pub open spec fn resp_500() -> Seq<u8> {
    seq![72u8, 84, 84, 80, 47, 49, 46, 49, 32, 53, 48, 48, 32, 73, 78, 84, 69, 82, 78, 65, 76, 32, 83, 69, 82, 86, 69, 82, 32, 69, 82, 82, 79, 82, 13, 10, 13, 10]
}

/// The bytes of `resp_500`.
pub fn resp_500_bytes() -> (r: Vec<u8>)
    ensures
        r@ == resp_500(),
{
    let r: Vec<u8> = vec![72u8, 84, 84, 80, 47, 49, 46, 49, 32, 53, 48, 48, 32, 73, 78, 84, 69, 82, 78, 65, 76, 32, 83, 69, 82, 86, 69, 82, 32, 69, 82, 82, 79, 82, 13, 10, 13, 10];
    proof {
        assert(r@ =~= resp_500());
    }
    r
}

/// The whole response for a request without a path: status line, no headers, empty body.
pub open spec fn resp_400() -> Seq<u8> {
    seq![72u8, 84, 84, 80, 47, 49, 46, 49, 32, 52, 48, 48, 32, 66, 65, 68, 32, 82, 69, 81, 85, 69, 83, 84, 13, 10, 13, 10]
}

/// The bytes of `resp_400`.
pub fn resp_400_bytes() -> (r: Vec<u8>)
    ensures
        r@ == resp_400(),
{
    let r: Vec<u8> = vec![72u8, 84, 84, 80, 47, 49, 46, 49, 32, 52, 48, 48, 32, 66, 65, 68, 32, 82, 69, 81, 85, 69, 83, 84, 13, 10, 13, 10];
    proof {
        assert(r@ =~= resp_400());
    }
    r
}

/// The whole response for a missing file: status line, no headers, empty body.
pub open spec fn resp_404() -> Seq<u8> {
    seq![72u8, 84, 84, 80, 47, 49, 46, 49, 32, 52, 48, 52, 32, 78, 79, 84, 32, 70, 79, 85, 78, 68, 13, 10, 13, 10]
}

/// The bytes of `resp_404`.
pub fn resp_404_bytes() -> (r: Vec<u8>)
    ensures
        r@ == resp_404(),
{
    let r: Vec<u8> = vec![72u8, 84, 84, 80, 47, 49, 46, 49, 32, 52, 48, 52, 32, 78, 79, 84, 32, 70, 79, 85, 78, 68, 13, 10, 13, 10];
    proof {
        assert(r@ =~= resp_404());
    }
    r
}

/// The 200 status line followed by the opening of the Content-type header.
pub open spec fn ok_status_and_type() -> Seq<u8> {
    seq![72u8, 84, 84, 80, 47, 49, 46, 49, 32, 50, 48, 48, 32, 79, 75, 13, 10, 67, 111, 110, 116, 101, 110, 116, 45, 116, 121, 112, 101, 58, 32]
}

/// The bytes of `ok_status_and_type`.
fn ok_status_and_type_bytes() -> (r: Vec<u8>)
    ensures
        r@ == ok_status_and_type(),
{
    let r: Vec<u8> = vec![72u8, 84, 84, 80, 47, 49, 46, 49, 32, 50, 48, 48, 32, 79, 75, 13, 10, 67, 111, 110, 116, 101, 110, 116, 45, 116, 121, 112, 101, 58, 32];
    proof {
        assert(r@ =~= ok_status_and_type());
    }
    r
}

/// The opening of the Content-Length header, with the line break that ends the Content-type header.
pub open spec fn ok_length_header() -> Seq<u8> {
    seq![13u8, 10, 67, 111, 110, 116, 101, 110, 116, 45, 76, 101, 110, 103, 116, 104, 58, 32]
}

/// The bytes of `ok_length_header`.
fn ok_length_header_bytes() -> (r: Vec<u8>)
    ensures
        r@ == ok_length_header(),
{
    let r: Vec<u8> = vec![13u8, 10, 67, 111, 110, 116, 101, 110, 116, 45, 76, 101, 110, 103, 116, 104, 58, 32];
    proof {
        assert(r@ =~= ok_length_header());
    }
    r
}

/// The line break ending the Content-Length header and the blank line before the body.
pub open spec fn ok_blank_line() -> Seq<u8> {
    seq![13u8, 10, 13, 10]
}

/// The bytes of `ok_blank_line`.
fn ok_blank_line_bytes() -> (r: Vec<u8>)
    ensures
        r@ == ok_blank_line(),
{
    let r: Vec<u8> = vec![13u8, 10, 13, 10];
    proof {
        assert(r@ =~= ok_blank_line());
    }
    r
}

/// The whole 200 response for a file at `path` whose contents are `body`:
/// status line, a Content-type header from the path's extension, a
/// Content-Length header with the exact byte count of the body, a blank line,
/// then the body bytes verbatim.
pub open spec fn ok_response_spec(path: Seq<u8>, body: Seq<u8>) -> Seq<u8> {
    ok_status_and_type() + crate::mime::mime_spec(crate::mime::extension_spec(path))
        + ok_length_header() + dec_rep(body.len()) + ok_blank_line() + body
}

/// Builds the whole 200 response for a file at `path` with contents `body`.
pub fn build_ok_response(path: &[u8], body: Vec<u8>) -> (r: Vec<u8>)
    ensures
        r@ == ok_response_spec(path@, body@),
{
    let mut out: Vec<u8> = Vec::new();
    let mut head = ok_status_and_type_bytes();
    out.append(&mut head);
    let ext = crate::mime::extension_of(path);
    let mut mime = match &ext {
        Some(e) => crate::mime::mime_for(Some(e.as_slice())),
        None => crate::mime::mime_for(None),
    };
    out.append(&mut mime);
    let mut header2 = ok_length_header_bytes();
    out.append(&mut header2);
    let mut len_dec = usize_to_dec(body.len());
    out.append(&mut len_dec);
    let mut blank = ok_blank_line_bytes();
    out.append(&mut blank);
    let mut b = body;
    out.append(&mut b);
    proof {
        assert(out@ =~= ok_response_spec(path@, body@));
    }
    out
}

} // verus!
