//! The source resolver: classifying a request and deciding, attempt by
//! attempt, how the media-resolution tool is to be invoked.
//!
//! The tool itself runs elsewhere. [`TrackRequest::first_attempt`] says how
//! to invoke it first, and [`TrackRequest::next_step`] takes what came back
//! and says whether resolution is over or which attempt follows.

use vstd::prelude::*;
use vstd::string::*;
use crate::text::{contains, occurs_at, occurs_in, starts_with, trim, trimmed};
use crate::track::{ArgSet, FormatFilter, ResolvedTrack, Stage, TrackModel};

verus! {

/// Where a request is to be resolved.
#[derive(Clone, Copy, Debug, PartialEq, Eq, Structural)]
pub enum Provider {
    /// A URL that the general resolver streams directly.
    Direct,
    /// A URL of the alternate platform, whose streams need indirection.
    Indirect,
    /// Free text, resolved by search.
    Search,
}

/// Whether `input` is an explicit URL.
pub open spec fn is_url_text(input: Seq<char>) -> bool {
    occurs_at(input, "http://"@, 0) || occurs_at(input, "https://"@, 0)
}

/// The provider inferred from `input`.
pub open spec fn provider_of(input: Seq<char>) -> Provider {
    if !is_url_text(input) {
        Provider::Search
    } else if occurs_in(input, "soundcloud.com"@) {
        Provider::Indirect
    } else {
        Provider::Direct
    }
}

/// The mathematical value of a [`TrackRequest`].
pub struct RequestModel {
    pub input: Seq<char>,
    pub is_url: bool,
    pub provider: Provider,
}

/// The request that `input` stands for.
pub open spec fn classified(input: Seq<char>) -> RequestModel {
    RequestModel { input, is_url: is_url_text(input), provider: provider_of(input) }
}

/// The argument set of the general resolver for direct URLs and searches.
pub open spec fn general_args() -> ArgSet {
    ArgSet {
        no_playlist: true,
        format_filter: FormatFilter::BestAudio,
        print_uri: false,
        extractor_variant: true,
        skip_cert_check: true,
        prefer_free_formats: true,
        socket_timeout: Some(30u32),
        retries: Some(3u32),
        fragment_retries: None,
        abort_on_unavailable_fragment: false,
    }
}

/// The argument set of the one invocation that asks for a stream URI.
pub open spec fn fast_args() -> ArgSet {
    ArgSet {
        no_playlist: true,
        format_filter: FormatFilter::HttpMp3,
        print_uri: true,
        extractor_variant: true,
        skip_cert_check: false,
        prefer_free_formats: false,
        socket_timeout: None,
        retries: None,
        fragment_retries: None,
        abort_on_unavailable_fragment: false,
    }
}

/// The argument set under which a URI from the fast path is streamed.
pub open spec fn stream_args() -> ArgSet {
    ArgSet {
        no_playlist: true,
        format_filter: FormatFilter::Unfiltered,
        print_uri: false,
        extractor_variant: false,
        skip_cert_check: false,
        prefer_free_formats: false,
        socket_timeout: Some(60u32),
        retries: Some(5u32),
        fragment_retries: None,
        abort_on_unavailable_fragment: false,
    }
}

/// The extended argument set of the robust path.
pub open spec fn robust_args() -> ArgSet {
    ArgSet {
        no_playlist: true,
        format_filter: FormatFilter::HttpMp3Unsegmented,
        print_uri: false,
        extractor_variant: true,
        skip_cert_check: true,
        prefer_free_formats: false,
        socket_timeout: Some(60u32),
        retries: Some(5u32),
        fragment_retries: Some(5u32),
        abort_on_unavailable_fragment: true,
    }
}

/// One invocation of the tool: what to hand it, and as which stage.
#[derive(Debug, PartialEq, Eq)]
pub struct Attempt {
    pub stage: Stage,
    pub target: String,
    pub args: ArgSet,
}

/// The mathematical value of an [`Attempt`].
pub struct AttemptModel {
    pub stage: Stage,
    pub target: Seq<char>,
    pub args: ArgSet,
}

impl View for Attempt {
    type V = AttemptModel;

    open spec fn view(&self) -> AttemptModel {
        AttemptModel { stage: self.stage, target: self.target@, args: self.args }
    }
}

/// What an invocation of the tool came back with.
#[derive(Debug, PartialEq, Eq)]
pub struct ToolOutcome {
    /// Whether the tool reported success.
    pub success: bool,
    /// What the tool printed.
    pub output: String,
    /// The tool's account of a failure.
    pub message: String,
}

/// The mathematical value of a [`ToolOutcome`].
pub struct OutcomeModel {
    pub success: bool,
    pub output: Seq<char>,
    pub message: Seq<char>,
}

impl View for ToolOutcome {
    type V = OutcomeModel;

    open spec fn view(&self) -> OutcomeModel {
        OutcomeModel { success: self.success, output: self.output@, message: self.message@ }
    }
}

/// A failed resolution: the stage that failed and the tool's message.
#[derive(Debug, PartialEq, Eq)]
pub struct ResolveError {
    pub stage: Stage,
    pub message: String,
}

/// The mathematical value of a [`ResolveError`].
pub struct ErrorModel {
    pub stage: Stage,
    pub message: Seq<char>,
}

impl View for ResolveError {
    type V = ErrorModel;

    open spec fn view(&self) -> ErrorModel {
        ErrorModel { stage: self.stage, message: self.message@ }
    }
}

/// What follows an attempt.
#[derive(Debug, PartialEq, Eq)]
pub enum Step {
    /// The tool is to be invoked once more.
    Invoke(Attempt),
    /// Resolution is over.
    Done(Result<ResolvedTrack, ResolveError>),
}

/// The mathematical value of a [`Step`].
pub enum StepModel {
    Invoke(AttemptModel),
    Done(Result<TrackModel, ErrorModel>),
}

impl View for Step {
    type V = StepModel;

    open spec fn view(&self) -> StepModel {
        match *self {
            Step::Invoke(a) => StepModel::Invoke(a@),
            Step::Done(Ok(t)) => StepModel::Done(Ok(t@)),
            Step::Done(Err(e)) => StepModel::Done(Err(e@)),
        }
    }
}

/// Whether a fast-path invocation yielded a stream URI: the tool reported
/// success and printed more than white space.
pub open spec fn fast_path_hit(outcome: OutcomeModel) -> bool {
    outcome.success && trimmed(outcome.output).len() > 0
}

/// The attempt that the robust path makes for `request`.
pub open spec fn robust_attempt(request: RequestModel) -> AttemptModel {
    AttemptModel { stage: Stage::Robust, target: request.input, args: robust_args() }
}

/// The first attempt for `request`.
pub open spec fn first_attempt_of(request: RequestModel) -> AttemptModel {
    match request.provider {
        Provider::Direct => AttemptModel {
            stage: Stage::Direct,
            target: request.input,
            args: general_args(),
        },
        Provider::Indirect => AttemptModel {
            stage: Stage::Fast,
            target: request.input,
            args: fast_args(),
        },
        Provider::Search => AttemptModel {
            stage: Stage::Search,
            target: "ytsearch:"@ + request.input,
            args: general_args(),
        },
    }
}

/// What follows `attempt` for `request`, given its `outcome`. A fast attempt
/// that yields a URI ends resolution with that URI; one that does not is
/// followed by the robust attempt. Every other attempt ends resolution, with
/// its own target as the track or with the tool's message as the error.
pub open spec fn next_step_of(request: RequestModel, attempt: AttemptModel, outcome: OutcomeModel)
    -> StepModel {
    if attempt.stage == Stage::Fast {
        if fast_path_hit(outcome) {
            StepModel::Done(
                Ok(TrackModel { uri: trimmed(outcome.output), args: stream_args(), path: Stage::Fast }),
            )
        } else {
            StepModel::Invoke(robust_attempt(request))
        }
    } else if outcome.success {
        StepModel::Done(
            Ok(TrackModel { uri: attempt.target, args: attempt.args, path: attempt.stage }),
        )
    } else {
        StepModel::Done(Err(ErrorModel { stage: attempt.stage, message: outcome.message }))
    }
}

/// A raw user request together with what was inferred from it.
#[derive(Debug, PartialEq, Eq)]
pub struct TrackRequest {
    input: String,
    is_url: bool,
    provider: Provider,
}

impl View for TrackRequest {
    type V = RequestModel;

    closed spec fn view(&self) -> RequestModel {
        RequestModel { input: self.input@, is_url: self.is_url, provider: self.provider }
    }
}

impl TrackRequest {
    /// Classifies `input`: a URL if it begins with a web scheme, free text
    /// otherwise; a URL of the alternate platform needs indirection.
    pub fn new(input: String) -> (r: TrackRequest)
        ensures
            r@ == classified(input@),
    {
        let text = input.as_str();
        let is_url = starts_with(text, "http://") || starts_with(text, "https://");
        let provider = if !is_url {
            Provider::Search
        } else if contains(text, "soundcloud.com") {
            Provider::Indirect
        } else {
            Provider::Direct
        };
        TrackRequest { input, is_url, provider }
    }

    /// The raw input.
    pub fn input(&self) -> (s: &str)
        ensures
            s@ == self@.input,
    {
        self.input.as_str()
    }

    /// Whether the input is an explicit URL.
    pub fn is_url(&self) -> (b: bool)
        ensures
            b == self@.is_url,
    {
        self.is_url
    }

    /// The inferred provider.
    pub fn provider(&self) -> (p: Provider)
        ensures
            p == self@.provider,
    {
        self.provider
    }

    /// The first invocation of the tool for this request.
    pub fn first_attempt(&self) -> (a: Attempt)
        ensures
            a@ == first_attempt_of(self@),
    {
        match self.provider {
            Provider::Direct => Attempt {
                stage: Stage::Direct,
                target: self.input.clone(),
                args: general(),
            },
            Provider::Indirect => Attempt {
                stage: Stage::Fast,
                target: self.input.clone(),
                args: fast(),
            },
            Provider::Search => Attempt {
                stage: Stage::Search,
                target: String::from_str("ytsearch:").concat(self.input.as_str()),
                args: general(),
            },
        }
    }

    /// What follows `attempt`, given what the tool came back with.
    pub fn next_step(&self, attempt: Attempt, outcome: ToolOutcome) -> (step: Step)
        ensures
            step@ == next_step_of(self@, attempt@, outcome@),
    {
        match attempt.stage {
            Stage::Fast => {
                let uri = trim(outcome.output.as_str());
                if outcome.success && uri.as_str().unicode_len() > 0 {
                    Step::Done(Ok(ResolvedTrack { uri, args: stream(), path: Stage::Fast }))
                } else {
                    Step::Invoke(
                        Attempt { stage: Stage::Robust, target: self.input.clone(), args: robust() },
                    )
                }
            },
            _ => {
                if outcome.success {
                    Step::Done(
                        Ok(
                            ResolvedTrack {
                                uri: attempt.target,
                                args: attempt.args,
                                path: attempt.stage,
                            },
                        ),
                    )
                } else {
                    Step::Done(
                        Err(ResolveError { stage: attempt.stage, message: outcome.message }),
                    )
                }
            },
        }
    }
}

/// See [`general_args`].
pub fn general() -> (a: ArgSet)
    ensures
        a == general_args(),
{
    ArgSet {
        no_playlist: true,
        format_filter: FormatFilter::BestAudio,
        print_uri: false,
        extractor_variant: true,
        skip_cert_check: true,
        prefer_free_formats: true,
        socket_timeout: Some(30u32),
        retries: Some(3u32),
        fragment_retries: None,
        abort_on_unavailable_fragment: false,
    }
}

/// See [`fast_args`].
pub fn fast() -> (a: ArgSet)
    ensures
        a == fast_args(),
{
    ArgSet {
        no_playlist: true,
        format_filter: FormatFilter::HttpMp3,
        print_uri: true,
        extractor_variant: true,
        skip_cert_check: false,
        prefer_free_formats: false,
        socket_timeout: None,
        retries: None,
        fragment_retries: None,
        abort_on_unavailable_fragment: false,
    }
}

/// See [`stream_args`].
pub fn stream() -> (a: ArgSet)
    ensures
        a == stream_args(),
{
    ArgSet {
        no_playlist: true,
        format_filter: FormatFilter::Unfiltered,
        print_uri: false,
        extractor_variant: false,
        skip_cert_check: false,
        prefer_free_formats: false,
        socket_timeout: Some(60u32),
        retries: Some(5u32),
        fragment_retries: None,
        abort_on_unavailable_fragment: false,
    }
}

/// See [`robust_args`].
pub fn robust() -> (a: ArgSet)
    ensures
        a == robust_args(),
{
    ArgSet {
        no_playlist: true,
        format_filter: FormatFilter::HttpMp3Unsegmented,
        print_uri: false,
        extractor_variant: true,
        skip_cert_check: true,
        prefer_free_formats: false,
        socket_timeout: Some(60u32),
        retries: Some(5u32),
        fragment_retries: Some(5u32),
        abort_on_unavailable_fragment: true,
    }
}

/// A resolution never loops: whatever an attempt is followed by ends the
/// resolution, so the tool is invoked at most twice for a request.
pub proof fn lemma_at_most_one_fallback(
    request: RequestModel,
    attempt: AttemptModel,
    first: OutcomeModel,
    second: OutcomeModel,
)
    ensures
        next_step_of(request, attempt, first) is Invoke ==> attempt.stage == Stage::Fast
            && next_step_of(request, attempt, first) == StepModel::Invoke(robust_attempt(request))
            && next_step_of(request, robust_attempt(request), second) is Done,
{
}

/// When the fast attempt for a request that needs indirection fails, the
/// robust attempt follows with the extended argument set, and what it yields
/// is what resolution returns: the request itself as the track on success,
/// the tool's message as a robust-stage error on failure.
pub proof fn lemma_fallback_result(request: RequestModel, fast: OutcomeModel, robust: OutcomeModel)
    requires
        request.provider == Provider::Indirect,
        !fast_path_hit(fast),
    ensures
        first_attempt_of(request).stage == Stage::Fast,
        next_step_of(request, first_attempt_of(request), fast) == StepModel::Invoke(
            AttemptModel { stage: Stage::Robust, target: request.input, args: robust_args() },
        ),
        robust.success ==> next_step_of(request, robust_attempt(request), robust)
            == StepModel::Done(
            Ok(TrackModel { uri: request.input, args: robust_args(), path: Stage::Robust }),
        ),
        !robust.success ==> next_step_of(request, robust_attempt(request), robust)
            == StepModel::Done(Err(ErrorModel { stage: Stage::Robust, message: robust.message })),
{
}

} // verus!
