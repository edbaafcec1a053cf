//! The sync cycle executor: one conditional-fetch-compare-write step per
//! descriptor. The HTTP request and the file reads and writes happen
//! outside this library; what stands here is the decision logic — which
//! responses update the token cache, which rewrite the file, and which
//! outcome each step reports.

use vstd::prelude::*;
use crate::cache::EtagCache;
use crate::detect::{differs, line_diff, spec_differs};

verus! {

/// Why a step failed. Network and status failures are isolated to one
/// descriptor: the cycle goes on.
#[derive(Clone, Debug, PartialEq, Eq)]
pub enum FailReason {
    /// The server answered with a status outside the success family that is
    /// not "not modified".
    HttpStatus { status: u16 },
    /// The request never produced a response.
    Transport,
}

/// What the server answered to one conditional GET, reduced to the signals
/// the executor acts on.
#[derive(Clone, Debug, PartialEq, Eq)]
pub enum FetchResponse {
    /// A success-family (2xx) status: the body, and the validation token
    /// from the response, if it carried one.
    Success { etag: Option<String>, body: String },
    /// A "not modified" (304) answer to a conditional request.
    NotModified,
    /// Any other status code.
    HttpError { status: u16 },
    /// A transport failure: no response at all.
    TransportError,
}

/// The reported outcome of one step for one descriptor.
#[derive(Clone, Debug, PartialEq, Eq)]
pub enum CycleOutcome {
    /// The file was rewritten with the fetched body.
    Written { bytes_len: usize, additions: usize, removals: usize },
    /// The body came back but matches what is stored: the file is untouched.
    SkippedUnchanged,
    /// The server said "not modified": the file is untouched.
    SkippedNotModified,
    /// The fetch failed: the file is untouched.
    Failed { reason: FailReason },
}

/// What one step does to the cache: only a successful response that carries
/// a token touches it, and only at this URL.
pub open spec fn spec_cache_after(
    m: Map<Seq<char>, Seq<char>>,
    url: Seq<char>,
    resp: FetchResponse,
) -> Map<Seq<char>, Seq<char>> {
    match resp {
        FetchResponse::Success { etag: Some(t), body: _ } => m.insert(url, t@),
        _ => m,
    }
}

/// Whether one step rewrites the file: only a successful response whose
/// body counts as changed against the stored text.
pub open spec fn spec_writes(resp: FetchResponse, current: Seq<char>) -> bool {
    match resp {
        FetchResponse::Success { etag: _, body } => spec_differs(current, body@),
        _ => false,
    }
}

/// The outcome one step reports, as a function of the response and the
/// stored text.
pub open spec fn spec_outcome(resp: FetchResponse, current: Seq<char>) -> CycleOutcome {
    match resp {
        FetchResponse::Success { etag: _, body } => if spec_differs(current, body@) {
            CycleOutcome::Written {
                bytes_len: vstd::utf8::encode_utf8(body@).len() as usize,
                additions: line_diff(current, body@).0 as usize,
                removals: line_diff(current, body@).1 as usize,
            }
        } else {
            CycleOutcome::SkippedUnchanged
        },
        FetchResponse::NotModified => CycleOutcome::SkippedNotModified,
        FetchResponse::HttpError { status } => CycleOutcome::Failed {
            reason: FailReason::HttpStatus { status },
        },
        FetchResponse::TransportError => CycleOutcome::Failed { reason: FailReason::Transport },
    }
}

/// What one step asks of the caller after it returns: the outcome to
/// report, and whether the fetched body must be written to the file.
#[derive(Clone, Debug, PartialEq, Eq)]
pub struct StepDecision {
    pub outcome: CycleOutcome,
    pub write_file: bool,
}

/// One conditional-fetch-compare-write step, after the response for `url`
/// has come back. `current` is the stored file's text, the empty string
/// where the file is absent. The caller writes the body to the file exactly
/// when `write_file` says so; nothing else about the file changes.
pub fn apply_response(
    cache: &mut EtagCache,
    url: &String,
    resp: &FetchResponse,
    current: &String,
) -> (r: StepDecision)
    requires
        current@.len() < 0x7fff_ffff,
        *resp matches FetchResponse::Success { body, .. } ==> body@.len() < 0x7fff_ffff,
    ensures
        final(cache)@ == spec_cache_after(old(cache)@, url@, *resp),
        r.outcome == spec_outcome(*resp, current@),
        r.write_file == spec_writes(*resp, current@),
        // a body identical to the stored text is never written
        *resp matches FetchResponse::Success { body, .. } && body@ == current@ ==> !r.write_file
            && r.outcome == CycleOutcome::SkippedUnchanged,
        // "not modified" touches neither the file nor the cache
        *resp is NotModified ==> !r.write_file && final(cache)@ == old(cache)@ && r.outcome
            == CycleOutcome::SkippedNotModified,
        // a failure touches neither the file nor the cache
        (*resp is HttpError || *resp is TransportError) ==> !r.write_file && final(cache)@ == old(
            cache,
        )@ && r.outcome is Failed,
{
    match resp {
        FetchResponse::Success { etag, body } => {
            if let Some(token) = etag {
                cache.put(url, token.clone());
            }
            let (changed, additions, removals) = differs(current.as_str(), body.as_str());
            if changed {
                StepDecision {
                    outcome: CycleOutcome::Written {
                        bytes_len: body.as_str().len(),
                        additions,
                        removals,
                    },
                    write_file: true,
                }
            } else {
                StepDecision { outcome: CycleOutcome::SkippedUnchanged, write_file: false }
            }
        },
        FetchResponse::NotModified => StepDecision {
            outcome: CycleOutcome::SkippedNotModified,
            write_file: false,
        },
        FetchResponse::HttpError { status } => StepDecision {
            outcome: CycleOutcome::Failed { reason: FailReason::HttpStatus { status: *status } },
            write_file: false,
        },
        FetchResponse::TransportError => StepDecision {
            outcome: CycleOutcome::Failed { reason: FailReason::Transport },
            write_file: false,
        },
    }
}

/// The cache-validation precondition for the next request to `url`: the
/// token stored for it, if any.
pub open spec fn spec_header(m: Map<Seq<char>, Seq<char>>, url: Seq<char>) -> Option<Seq<char>> {
    if m.contains_key(url) {
        Some(m[url])
    } else {
        None
    }
}

/// The token to attach to the next conditional request for `url`, straight
/// from the cache.
pub fn prepare_request<'a>(cache: &'a EtagCache, url: &String) -> (r: Option<&'a String>)
    ensures
        match r {
            Some(t) => spec_header(cache@, url@) == Some(t@),
            None => spec_header(cache@, url@) is None,
        },
{
    cache.get(url)
}

/// A successful fetch that carries a validation token makes the next
/// request for the same URL present exactly that token, whatever the cache
/// held before.
pub proof fn lemma_token_presented_next(
    m: Map<Seq<char>, Seq<char>>,
    url: Seq<char>,
    etag: Option<String>,
    body: String,
    token: String,
)
    requires
        etag == Some(token),
    ensures
        spec_header(spec_cache_after(m, url, FetchResponse::Success { etag, body }), url) == Some(
            token@,
        ),
{
}

/// The cache after a run of steps, oldest first; each step is the URL it
/// was for and the response it saw.
pub open spec fn spec_cache_after_run(
    m: Map<Seq<char>, Seq<char>>,
    steps: Seq<(Seq<char>, FetchResponse)>,
) -> Map<Seq<char>, Seq<char>>
    decreases steps.len(),
{
    if steps.len() == 0 {
        m
    } else {
        spec_cache_after(
            spec_cache_after_run(m, steps.drop_last()),
            steps.last().0,
            steps.last().1,
        )
    }
}

/// Whether one step was a successful fetch for `url` that carried `token`.
pub open spec fn spec_step_supplies(
    step: (Seq<char>, FetchResponse),
    url: Seq<char>,
    token: Seq<char>,
) -> bool {
    step.0 == url && match step.1 {
        FetchResponse::Success { etag: Some(t), body: _ } => t@ == token,
        _ => false,
    }
}

/// The cache never holds a token for a URL that has not returned a
/// successful response: every token in a cache grown from cold traces back
/// to a successful response for that URL that carried exactly that token.
pub proof fn lemma_cache_only_holds_earned_tokens(
    steps: Seq<(Seq<char>, FetchResponse)>,
    url: Seq<char>,
)
    requires
        spec_cache_after_run(Map::empty(), steps).contains_key(url),
    ensures
        exists|i: int|
            0 <= i < steps.len() && #[trigger] spec_step_supplies(
                steps[i],
                url,
                spec_cache_after_run(Map::empty(), steps)[url],
            ),
    decreases steps.len(),
{
    let cache = spec_cache_after_run(Map::empty(), steps);
    let prev = spec_cache_after_run(Map::empty(), steps.drop_last());
    let last = steps.last();
    if last.0 == url && last.1 matches FetchResponse::Success { etag: Some(t), .. } {
        assert(spec_step_supplies(steps[steps.len() - 1], url, cache[url]));
    } else {
        assert(cache[url] == prev[url] && prev.contains_key(url));
        lemma_cache_only_holds_earned_tokens(steps.drop_last(), url);
        let j = choose|j: int|
            0 <= j < steps.drop_last().len() && #[trigger] spec_step_supplies(
                steps.drop_last()[j],
                url,
                prev[url],
            );
        assert(spec_step_supplies(steps[j], url, cache[url]));
    }
}

/// Idempotence: if one cycle's step for a descriptor fetched body `b`, and
/// the next cycle's response reports no remote change — "not modified", or
/// a success whose body is again `b` — then the second step writes nothing,
/// whatever the first step did to the file.
pub proof fn lemma_second_cycle_writes_nothing(
    current: Seq<char>,
    first: FetchResponse,
    second: FetchResponse,
)
    requires
        first matches FetchResponse::Success { body: b1, .. } && (second is NotModified || (
        second matches FetchResponse::Success { body: b2, .. } && b2@ == b1@)),
    ensures
        !spec_writes(
            second,
            if spec_writes(first, current) {
                first->Success_body@
            } else {
                current
            },
        ),
{
}

} // verus!
