//! Turning a raw request path into a candidate file path under the served
//! directory.
//!
//! Sanitization is deliberately minimal, and is mirrored exactly by the spec
//! functions here: every left-to-right occurrence of `../` is removed in one
//! pass, and every `%20` is decoded to a space. No other percent-escapes are
//! decoded, and no canonical-path containment check is made; the candidate is
//! always the served directory, a slash, and the sanitized remainder.

use vstd::prelude::*;

verus! {

/// True when `../` stands at position `i` of `s`.
pub open spec fn dds_at(s: Seq<u8>, i: int) -> bool {
    &&& 0 <= i
    &&& i + 3 <= s.len()
    &&& s[i] == 46u8
    &&& s[i + 1] == 46u8
    &&& s[i + 2] == 47u8
}

/// True when `../` stands anywhere in `s`.
pub open spec fn contains_dds(s: Seq<u8>) -> bool {
    exists|i: int| dds_at(s, i)
}

/// One left-to-right pass that removes each non-overlapping occurrence of
/// `../`. A later occurrence formed by the removal itself (as in `....//`)
/// survives the pass.
pub open spec fn strip_dotdot(s: Seq<u8>) -> Seq<u8>
    decreases s.len(),
{
    if s.len() == 0 {
        Seq::empty()
    } else if dds_at(s, 0) {
        strip_dotdot(s.skip(3))
    } else {
        seq![s[0]] + strip_dotdot(s.skip(1))
    }
}

/// True when `%20` stands at position `i` of `s`.
pub open spec fn pct20_at(s: Seq<u8>, i: int) -> bool {
    &&& 0 <= i
    &&& i + 3 <= s.len()
    &&& s[i] == 37u8
    &&& s[i + 1] == 50u8
    &&& s[i + 2] == 48u8
}

/// One left-to-right pass that replaces each occurrence of `%20` by a space.
pub open spec fn decode_spaces(s: Seq<u8>) -> Seq<u8>
    decreases s.len(),
{
    if s.len() == 0 {
        Seq::empty()
    } else if pct20_at(s, 0) {
        seq![32u8] + decode_spaces(s.skip(3))
    } else {
        seq![s[0]] + decode_spaces(s.skip(1))
    }
}

/// The whole sanitization: strip `../`, then decode `%20`.
pub open spec fn sanitize_spec(s: Seq<u8>) -> Seq<u8> {
    decode_spaces(strip_dotdot(s))
}

/// `dir`, a slash, then `rest`.
pub open spec fn joined(dir: Seq<u8>, rest: Seq<u8>) -> Seq<u8> {
    dir + seq![47u8] + rest
}

/// The candidate file path for a sanitized request path: the index file for
/// the root path `/`, otherwise the sanitized path with its first byte
/// dropped, joined under `dir`.
pub open spec fn resolved_spec(san: Seq<u8>, dir: Seq<u8>, index: Seq<u8>) -> Seq<u8> {
    if san == seq![47u8] {
        joined(dir, index)
    } else if san.len() > 0 {
        joined(dir, san.skip(1))
    } else {
        joined(dir, Seq::empty())
    }
}

/// Removes each left-to-right occurrence of `../` from `s`.
pub fn strip_parent_refs(s: &[u8]) -> (r: Vec<u8>)
    ensures
        r@ == strip_dotdot(s@),
{
    let mut out: Vec<u8> = Vec::new();
    let mut i: usize = 0;
    proof {
        assert(s@.skip(0) =~= s@);
        assert(Seq::<u8>::empty() + strip_dotdot(s@) =~= strip_dotdot(s@));
    }
    while i < s.len()
        invariant
            i <= s@.len(),
            strip_dotdot(s@) == out@ + strip_dotdot(s@.skip(i as int)),
        decreases s@.len() - i,
    {
        let ghost tail = s@.skip(i as int);
        if s.len() - i >= 3 && s[i] == 46 && s[i + 1] == 46 && s[i + 2] == 47 {
            proof {
                assert(dds_at(tail, 0));
                assert(tail.skip(3) =~= s@.skip(i as int + 3));
            }
            i = i + 3;
        } else {
            proof {
                assert(!dds_at(tail, 0));
                assert(tail.skip(1) =~= s@.skip(i as int + 1));
            }
            let ghost out_before = out@;
            out.push(s[i]);
            proof {
                assert(out@ + strip_dotdot(s@.skip(i as int + 1)) =~= out_before + strip_dotdot(
                    tail,
                ));
            }
            i = i + 1;
        }
    }
    proof {
        assert(s@.skip(s@.len() as int) =~= Seq::<u8>::empty());
    }
    out
}

/// Replaces each left-to-right occurrence of `%20` in `s` by a space.
pub fn decode_space_escapes(s: &[u8]) -> (r: Vec<u8>)
    ensures
        r@ == decode_spaces(s@),
{
    let mut out: Vec<u8> = Vec::new();
    let mut i: usize = 0;
    proof {
        assert(s@.skip(0) =~= s@);
        assert(Seq::<u8>::empty() + decode_spaces(s@) =~= decode_spaces(s@));
    }
    while i < s.len()
        invariant
            i <= s@.len(),
            decode_spaces(s@) == out@ + decode_spaces(s@.skip(i as int)),
        decreases s@.len() - i,
    {
        let ghost tail = s@.skip(i as int);
        if s.len() - i >= 3 && s[i] == 37 && s[i + 1] == 50 && s[i + 2] == 48 {
            proof {
                assert(pct20_at(tail, 0));
                assert(tail.skip(3) =~= s@.skip(i as int + 3));
            }
            let ghost out_before = out@;
            out.push(32);
            proof {
                assert(out@ + decode_spaces(s@.skip(i as int + 3)) =~= out_before + decode_spaces(
                    tail,
                ));
            }
            i = i + 3;
        } else {
            proof {
                assert(!pct20_at(tail, 0));
                assert(tail.skip(1) =~= s@.skip(i as int + 1));
            }
            let ghost out_before = out@;
            out.push(s[i]);
            proof {
                assert(out@ + decode_spaces(s@.skip(i as int + 1)) =~= out_before + decode_spaces(
                    tail,
                ));
            }
            i = i + 1;
        }
    }
    proof {
        assert(s@.skip(s@.len() as int) =~= Seq::<u8>::empty());
    }
    out
}

/// The whole sanitization of a raw request path.
pub fn sanitize_path(raw: &[u8]) -> (r: Vec<u8>)
    ensures
        r@ == sanitize_spec(raw@),
{
    let stripped = strip_parent_refs(raw);
    decode_space_escapes(stripped.as_slice())
}

/// Joins `rest` under `dir` with a single slash between them.
pub fn join_under(dir: &[u8], rest: &[u8]) -> (r: Vec<u8>)
    ensures
        r@ == joined(dir@, rest@),
{
    let mut out: Vec<u8> = Vec::new();
    crate::bytes::push_all(&mut out, dir);
    out.push(47);
    crate::bytes::push_all(&mut out, rest);
    proof {
        assert(out@ =~= joined(dir@, rest@));
    }
    out
}

/// Resolves a sanitized request path to the candidate file path under `dir`.
pub fn resolve_path(san: &[u8], dir: &[u8], index: &[u8]) -> (r: Vec<u8>)
    ensures
        r@ == resolved_spec(san@, dir@, index@),
{
    if san.len() == 1 && san[0] == 47 {
        proof {
            assert(san@ =~= seq![47u8]);
        }
        join_under(dir, index)
    } else if san.len() > 0 {
        proof {
            assert(san@ != seq![47u8]);
        }
        let rest = vstd::slice::slice_subrange(san, 1, san.len());
        join_under(dir, rest)
    } else {
        proof {
            assert(san@ != seq![47u8]);
        }
        let empty: Vec<u8> = Vec::new();
        join_under(dir, empty.as_slice())
    }
}

} // verus!
