//! The request state machine: from one connection's bytes to the exact
//! response bytes, with the two filesystem events (does the candidate exist,
//! what did the read return) handed in as plain values.

use vstd::prelude::*;
use crate::bytes::opt_vec_view;
use crate::config::Config;
use crate::parse::{http_parse, parse_request, ParseOutcome};
use crate::resolve::{resolve_path, resolved_spec, sanitize_path, sanitize_spec};
use crate::response::{
    build_ok_response, ok_response_spec, resp_400, resp_400_bytes, resp_404, resp_404_bytes,
    resp_500, resp_500_bytes,
};

verus! {

/// What parsing and path resolution made of one request, before the
/// filesystem is consulted.
pub enum RequestOutcome {
    /// The bytes did not parse; the response is 500.
    Unparsable,
    /// The bytes parsed but hold no path; the response is 400.
    MissingPath,
    /// The bytes parsed, and the path resolved to this candidate file path
    /// under the served directory.
    ResolvedFile(Vec<u8>),
}

/// The specification-level mirror of `RequestOutcome`.
pub enum OutcomeSpec {
    Unparsable,
    MissingPath,
    ResolvedFile(Seq<u8>),
}

impl View for RequestOutcome {
    type V = OutcomeSpec;

    open spec fn view(&self) -> OutcomeSpec {
        match self {
            RequestOutcome::Unparsable => OutcomeSpec::Unparsable,
            RequestOutcome::MissingPath => OutcomeSpec::MissingPath,
            RequestOutcome::ResolvedFile(p) => OutcomeSpec::ResolvedFile(p@),
        }
    }
}

/// State of a request while being processed. Each variant but `NotProcessed`
/// is terminal and names the response it is answered with.
pub enum RequestState {
    /// Nothing has been decided yet; answered like a parse error, with 500.
    NotProcessed,
    /// The request bytes did not parse; answered with 500.
    ParseError,
    /// The request parsed but holds no path; answered with 400.
    BadRequest,
    /// The candidate file does not exist and no not-found file is set;
    /// answered with 404.
    FileNotFound,
    /// This file is to be served with 200; its contents become the body.
    FileFound(Vec<u8>),
}

/// The specification-level mirror of `RequestState`.
pub enum StateSpec {
    NotProcessed,
    ParseError,
    BadRequest,
    FileNotFound,
    FileFound(Seq<u8>),
}

impl View for RequestState {
    type V = StateSpec;

    open spec fn view(&self) -> StateSpec {
        match self {
            RequestState::NotProcessed => StateSpec::NotProcessed,
            RequestState::ParseError => StateSpec::ParseError,
            RequestState::BadRequest => StateSpec::BadRequest,
            RequestState::FileNotFound => StateSpec::FileNotFound,
            RequestState::FileFound(p) => StateSpec::FileFound(p@),
        }
    }
}

/// What parsing and resolution yield for one buffer: the parse failure, the
/// missing path, or the candidate path resolved under `dir`.
pub open spec fn spec_outcome(buf: Seq<u8>, dir: Seq<u8>, index: Seq<u8>) -> OutcomeSpec {
    match http_parse(buf) {
        None => OutcomeSpec::Unparsable,
        Some(None) => OutcomeSpec::MissingPath,
        Some(Some(p)) => OutcomeSpec::ResolvedFile(resolved_spec(sanitize_spec(p), dir, index)),
    }
}

/// The terminal state reached from an outcome once the filesystem has been
/// asked whether the candidate exists: a found candidate is served; a missing
/// one falls back to the not-found file when one is set, and to a plain 404
/// otherwise.
pub open spec fn spec_state(
    o: OutcomeSpec,
    exists: bool,
    dir: Seq<u8>,
    not_found: Option<Seq<u8>>,
) -> StateSpec {
    match o {
        OutcomeSpec::Unparsable => StateSpec::ParseError,
        OutcomeSpec::MissingPath => StateSpec::BadRequest,
        OutcomeSpec::ResolvedFile(candidate) => if exists {
            StateSpec::FileFound(candidate)
        } else {
            match not_found {
                Some(n) => StateSpec::FileFound(crate::resolve::joined(dir, n)),
                None => StateSpec::FileNotFound,
            }
        },
    }
}

/// The exact response bytes for a terminal state, given what reading the
/// found file returned: its contents, or `None` for a failed read, which is
/// answered like an internal failure.
pub open spec fn spec_response(s: StateSpec, contents: Option<Seq<u8>>) -> Seq<u8> {
    match s {
        StateSpec::NotProcessed => resp_500(),
        StateSpec::ParseError => resp_500(),
        StateSpec::BadRequest => resp_400(),
        StateSpec::FileNotFound => resp_404(),
        StateSpec::FileFound(path) => match contents {
            Some(c) => ok_response_spec(path, c),
            None => resp_500(),
        },
    }
}

/// Parses one buffer of request bytes and resolves the requested path to a
/// candidate file path under the served directory.
pub fn request_outcome(buf: &[u8], config: &Config) -> (r: RequestOutcome)
    ensures
        r@ == spec_outcome(buf@, config.dir@, config.index@),
{
    match parse_request(buf) {
        ParseOutcome::Failure => RequestOutcome::Unparsable,
        ParseOutcome::NoPath => RequestOutcome::MissingPath,
        ParseOutcome::Path(p) => {
            let san = sanitize_path(p.as_slice());
            let candidate = resolve_path(
                san.as_slice(),
                config.dir.as_slice(),
                config.index.as_slice(),
            );
            RequestOutcome::ResolvedFile(candidate)
        },
    }
}

/// Moves an outcome to its terminal state, given whether the candidate path
/// exists on the filesystem. For an outcome that carries no candidate,
/// `exists` is not consulted.
pub fn state_after_check(outcome: RequestOutcome, exists: bool, config: &Config) -> (s:
    RequestState)
    ensures
        s@ == spec_state(outcome@, exists, config.dir@, opt_vec_view(config.not_found)),
{
    match outcome {
        RequestOutcome::Unparsable => RequestState::ParseError,
        RequestOutcome::MissingPath => RequestState::BadRequest,
        RequestOutcome::ResolvedFile(candidate) => {
            if exists {
                RequestState::FileFound(candidate)
            } else {
                match &config.not_found {
                    Some(n) => RequestState::FileFound(
                        crate::resolve::join_under(config.dir.as_slice(), n.as_slice()),
                    ),
                    None => RequestState::FileNotFound,
                }
            }
        },
    }
}

/// Builds the exact response bytes for a terminal state. For a found file,
/// `contents` holds what the read returned; a failed read (`None`) is
/// answered with 500 so that one request's failure stays its own. For every
/// other state `contents` is not consulted.
pub fn response_bytes(state: &RequestState, contents: Option<Vec<u8>>) -> (r: Vec<u8>)
    ensures
        r@ == spec_response(state@, opt_vec_view(contents)),
{
    match state {
        RequestState::NotProcessed => resp_500_bytes(),
        RequestState::ParseError => resp_500_bytes(),
        RequestState::BadRequest => resp_400_bytes(),
        RequestState::FileNotFound => resp_404_bytes(),
        RequestState::FileFound(path) => match contents {
            Some(c) => build_ok_response(path.as_slice(), c),
            None => resp_500_bytes(),
        },
    }
}

} // verus!
