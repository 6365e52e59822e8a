//! The dispatcher: one request from grounding to response.
//!
//! The dispatcher makes no call itself. It is a state machine that is handed
//! the outcome of the call it asked for last and answers with the next call
//! to make, or with the finished response. A run asks for at most three
//! calls: a search, the preferred backend, and the fallback.

use vstd::prelude::*;
use vstd::string::StringExecFns;
use crate::backend::{
    answer, call_for, planned_call, read_answer, Backend, BackendCall, BackendCallView,
    BackendError,
};
use crate::classify::{category_of, classify, Category};
use crate::config::{Config, ConfigView};
use crate::grounding::{
    context_of, context_text, retrieve, retrieved, search_call, search_call_for, views,
    DocumentView, GroundingDocument, SearchCall, SearchCallView,
};
use crate::outcome::{Outcome, OutcomeView};

verus! {

/// A request as it arrives.
#[derive(Clone, Debug, PartialEq, Eq)]
pub struct Request {
    pub text: String,
    /// The model the sender would like. It is carried along and decides
    /// nothing.
    pub preferred_model: Option<String>,
}

/// The answer to one request.
#[derive(Clone, Debug, PartialEq, Eq)]
pub struct Response {
    pub success: bool,
    pub text: String,
    pub sources: Vec<GroundingDocument>,
    pub backend_used: String,
    pub grounding_performed: bool,
}

/// A response as plain text.
pub struct ResponseView {
    pub success: bool,
    pub text: Seq<char>,
    pub sources: Seq<DocumentView>,
    pub backend_used: Seq<char>,
    pub grounding_performed: bool,
}

impl View for Response {
    type V = ResponseView;

    open spec fn view(&self) -> ResponseView {
        ResponseView {
            success: self.success,
            text: self.text@,
            sources: views(self.sources@),
            backend_used: self.backend_used@,
            grounding_performed: self.grounding_performed,
        }
    }
}

/// The way a backend comes to be asked.
#[derive(Clone, Copy, Debug, PartialEq, Eq, Structural)]
pub enum Route {
    /// The code backend, for a request about code.
    Preferred,
    /// The general backend, after the code backend failed.
    Fallback,
    /// The general backend, for a request that is not about code.
    Direct,
}

/// What a run is waiting for.
#[derive(Clone, Copy, Debug, PartialEq, Eq, Structural)]
pub enum Stage {
    /// The outcome of the search call.
    Grounding,
    /// The outcome of the backend call made on this route.
    Generating(Route),
}

/// A run that waits for the outcome of a call.
#[derive(Debug, PartialEq, Eq)]
pub struct Pending {
    pub config: Config,
    /// The text of the request.
    pub text: String,
    /// The documents retrieved; none while the search is under way.
    pub sources: Vec<GroundingDocument>,
    pub stage: Stage,
}

/// A waiting run as a mathematical value.
pub struct PendingView {
    pub config: ConfigView,
    pub text: Seq<char>,
    pub sources: Seq<DocumentView>,
    pub stage: Stage,
}

impl View for Pending {
    type V = PendingView;

    open spec fn view(&self) -> PendingView {
        PendingView {
            config: self.config@,
            text: self.text@,
            sources: views(self.sources@),
            stage: self.stage,
        }
    }
}

/// What the dispatcher asks of its caller next.
#[derive(Debug, PartialEq, Eq)]
pub enum Step {
    /// Make this search call and resume the run with its outcome.
    Search(Pending, SearchCall),
    /// Make this backend call and resume the run with its outcome.
    Generate(Pending, BackendCall),
    /// The run is over; this is the response.
    Done(Response),
}

/// A step as a mathematical value.
pub enum StepView {
    Search(PendingView, SearchCallView),
    Generate(PendingView, BackendCallView),
    Done(ResponseView),
}

impl View for Step {
    type V = StepView;

    open spec fn view(&self) -> StepView {
        match self {
            Step::Search(pending, call) => StepView::Search(pending@, call@),
            Step::Generate(pending, call) => StepView::Generate(pending@, call@),
            Step::Done(response) => StepView::Done(response@),
        }
    }
}

/// The backend that a route leads to.
pub open spec fn backend_on(route: Route) -> Backend {
    match route {
        Route::Preferred => Backend::Code,
        Route::Fallback => Backend::General,
        Route::Direct => Backend::General,
    }
}

/// The name under which a response records the route that produced it.
pub open spec fn label(route: Route) -> Seq<char> {
    match route {
        Route::Preferred => "code-backend"@,
        Route::Fallback => "general-backend (fallback)"@,
        Route::Direct => "general-backend"@,
    }
}

/// The route on which a request starts: the code backend for a request
/// about code, the general backend otherwise.
pub open spec fn first_route(text: Seq<char>) -> Route {
    match category_of(text) {
        Category::Code => Route::Preferred,
        Category::General => Route::Direct,
    }
}

/// The response that ends a run on `route` with `text` as the answer. It
/// always reports success, also when the text is empty because every
/// backend failed.
pub open spec fn response_of(sources: Seq<DocumentView>, text: Seq<char>, route: Route)
    -> ResponseView {
    ResponseView {
        success: true,
        text,
        sources,
        backend_used: label(route),
        grounding_performed: context_text(sources).len() > 0,
    }
}

/// The route to try when the backend on `route` has failed, if there is
/// one: only the preferred route has a fallback.
pub open spec fn route_after(route: Route) -> Option<Route> {
    match route {
        Route::Preferred => Some(Route::Fallback),
        Route::Fallback => None,
        Route::Direct => None,
    }
}

/// The number of routes that can still be fallen back on from `route`.
pub open spec fn fallbacks_left(route: Route) -> nat {
    match route {
        Route::Preferred => 1,
        Route::Fallback => 0,
        Route::Direct => 0,
    }
}

/// The step that tries `route`: the call of its backend, or, where the
/// backend is not configured, what follows its failure.
pub open spec fn attempt(
    config: ConfigView,
    text: Seq<char>,
    sources: Seq<DocumentView>,
    route: Route,
) -> StepView
    decreases fallbacks_left(route), 1nat,
{
    match planned_call(backend_on(route), config, text, context_text(sources)) {
        Ok(call) => StepView::Generate(
            PendingView { config, text, sources, stage: Stage::Generating(route) },
            call,
        ),
        Err(_) => after_failure(config, text, sources, route),
    }
}

/// The step after the backend on `route` failed: the attempt of the next
/// route where there is one, otherwise the response with an empty text,
/// recorded under the route that failed last.
pub open spec fn after_failure(
    config: ConfigView,
    text: Seq<char>,
    sources: Seq<DocumentView>,
    route: Route,
) -> StepView
    decreases fallbacks_left(route), 0nat,
{
    match route_after(route) {
        Some(next) => attempt(config, text, sources, next),
        None => StepView::Done(response_of(sources, Seq::empty(), route)),
    }
}

/// The first step of a run: the search call, or, where the search provider
/// is not configured, the first attempt with no documents.
pub open spec fn begun(config: ConfigView, text: Seq<char>) -> StepView {
    match search_call_for(config, text) {
        Some(call) => StepView::Search(
            PendingView { config, text, sources: Seq::empty(), stage: Stage::Grounding },
            call,
        ),
        None => attempt(config, text, Seq::empty(), first_route(text)),
    }
}

/// The step that follows the search: the first attempt for the request,
/// with the documents that the search gave.
pub open spec fn after_grounding(pending: PendingView, sources: Seq<DocumentView>) -> StepView {
    attempt(pending.config, pending.text, sources, first_route(pending.text))
}

/// The step that follows a backend call on `route`: the response where the
/// call gave an answer, what follows a failure where it gave none.
pub open spec fn after_answer(
    pending: PendingView,
    route: Route,
    result: Result<Seq<char>, BackendError>,
) -> StepView {
    match result {
        Ok(text) => StepView::Done(response_of(pending.sources, text, route)),
        Err(_) => after_failure(pending.config, pending.text, pending.sources, route),
    }
}

/// The step that follows when a waiting run is handed the outcome of its
/// call.
pub open spec fn resumed(pending: PendingView, outcome: OutcomeView) -> StepView {
    match pending.stage {
        Stage::Grounding => after_grounding(pending, retrieved(outcome)),
        Stage::Generating(route) => after_answer(
            pending,
            route,
            answer(backend_on(route), outcome),
        ),
    }
}

/// What a backend call came to, with the answer as plain text.
pub open spec fn result_text(result: Result<String, BackendError>) -> Result<
    Seq<char>,
    BackendError,
> {
    match result {
        Ok(text) => Ok(text@),
        Err(error) => Err(error),
    }
}

/// The backend that a route leads to.
pub fn backend_of(route: Route) -> (backend: Backend)
    ensures
        backend == backend_on(route),
{
    match route {
        Route::Preferred => Backend::Code,
        Route::Fallback => Backend::General,
        Route::Direct => Backend::General,
    }
}

/// The name under which a response records a route.
pub fn label_of(route: Route) -> (name: String)
    ensures
        name@ == label(route),
{
    match route {
        Route::Preferred => String::from_str("code-backend"),
        Route::Fallback => String::from_str("general-backend (fallback)"),
        Route::Direct => String::from_str("general-backend"),
    }
}

/// Ends a run on `route` with `text` as the answer.
fn finish(sources: Vec<GroundingDocument>, text: String, route: Route) -> (step: Step)
    ensures
        step@ == StepView::Done(response_of(views(sources@), text@, route)),
{
    let context = context_of(&sources);
    let grounding_performed = !context.as_str().is_empty();
    Step::Done(
        Response {
            success: true,
            text,
            sources,
            backend_used: label_of(route),
            grounding_performed,
        },
    )
}

/// The route to try when the backend on `route` has failed.
pub fn next_route(route: Route) -> (next: Option<Route>)
    ensures
        next == route_after(route),
{
    match route {
        Route::Preferred => Some(Route::Fallback),
        Route::Fallback => None,
        Route::Direct => None,
    }
}

/// Goes on after the backend on `route` failed.
fn recover(config: Config, text: String, sources: Vec<GroundingDocument>, route: Route) -> (step:
    Step)
    ensures
        step@ == after_failure(config@, text@, views(sources@), route),
    decreases fallbacks_left(route), 0nat,
{
    match next_route(route) {
        Some(next) => try_route(config, text, sources, next),
        None => finish(sources, String::new(), route),
    }
}

/// Tries `route` for a request with its documents: asks for the call of the
/// route's backend, and goes on as after a failure where that backend is not
/// configured.
pub fn try_route(config: Config, text: String, sources: Vec<GroundingDocument>, route: Route)
    -> (step: Step)
    ensures
        step@ == attempt(config@, text@, views(sources@), route),
    decreases fallbacks_left(route), 1nat,
{
    let context = context_of(&sources);
    match call_for(backend_of(route), &config, text.as_str(), context.as_str()) {
        Ok(call) => Step::Generate(
            Pending { config, text, sources, stage: Stage::Generating(route) },
            call,
        ),
        Err(_) => recover(config, text, sources, route),
    }
}

/// The route on which a request starts.
pub fn route_for(text: &str) -> (route: Route)
    ensures
        route == first_route(text@),
{
    match classify(text) {
        Category::Code => Route::Preferred,
        Category::General => Route::Direct,
    }
}

/// Begins the run for a request.
///
/// The first step is the search call where the search provider is
/// configured. Where it is not, grounding is skipped and the run starts with
/// the backend.
pub fn begin(config: Config, request: Request) -> (step: Step)
    ensures
        step@ == begun(config@, request.text@),
{
    let text = request.text;
    match search_call(&config, text.as_str()) {
        Some(call) => {
            let sources: Vec<GroundingDocument> = Vec::new();
            assert(views(sources@) =~= Seq::empty());
            Step::Search(Pending { config, text, sources, stage: Stage::Grounding }, call)
        },
        None => {
            let sources: Vec<GroundingDocument> = Vec::new();
            assert(views(sources@) =~= Seq::empty());
            let route = route_for(text.as_str());
            try_route(config, text, sources, route)
        },
    }
}

impl Pending {
    /// Resumes the run with the outcome of the call it was waiting for.
    ///
    /// After the search, the request is classified and its first backend
    /// tried. After a backend call, the answer ends the run; a failure of
    /// the code backend leads to the general one, a failure of the general
    /// backend ends the run with an empty text.
    pub fn resume(self, outcome: &Outcome) -> (step: Step)
        ensures
            step@ == resumed(self@, outcome@),
    {
        match self.stage {
            Stage::Grounding => {
                let sources = retrieve(outcome);
                self.grounded(sources)
            },
            Stage::Generating(route) => {
                let result = read_answer(backend_of(route), outcome);
                self.answered(route, result)
            },
        }
    }

    /// Goes on after the search, with the documents it gave: classifies the
    /// request and tries its first route. The documents that the run held
    /// before are dropped.
    pub fn grounded(self, sources: Vec<GroundingDocument>) -> (step: Step)
        ensures
            step@ == after_grounding(self@, views(sources@)),
    {
        let route = route_for(self.text.as_str());
        try_route(self.config, self.text, sources, route)
    }

    /// Goes on after a backend call on `route`, with what the call came to.
    /// An answer ends the run. A failure on the preferred route leads to the
    /// fallback; a failure on another route ends the run with an empty text.
    pub fn answered(self, route: Route, result: Result<String, BackendError>) -> (step: Step)
        ensures
            step@ == after_answer(self@, route, result_text(result)),
    {
        match result {
            Ok(text) => finish(self.sources, text, route),
            Err(_) => recover(self.config, self.text, self.sources, route),
        }
    }
}

} // verus!
