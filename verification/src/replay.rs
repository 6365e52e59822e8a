//! Whole runs of the dispatcher, and what holds of every run.
//!
//! A run is replayed here against recorded outcomes: one for the search
//! call, one for the code backend, one for the general backend. Each is
//! used only if the run asks for that call.

use vstd::prelude::*;
use crate::backend::{answer, planned_call, Backend, BackendError};
use crate::config::{Config, ConfigView};
use crate::dispatch::{
    after_failure, attempt, backend_on, begin, begun, first_route, label, response_of, resumed,
    PendingView, Request, Response, ResponseView, Route, Stage, Step, StepView,
};
use crate::grounding::{
    context_text, lemma_context_empty_iff_no_documents, lemma_retrieved_bounded, retrieved,
    search_call_for, DocumentView, MAX_RESULTS,
};
use crate::outcome::{Outcome, OutcomeView};

verus! {

/// The number of calls that a run at this stage may still ask for, the one
/// it waits for included.
pub open spec fn calls_left(stage: Stage) -> nat {
    match stage {
        Stage::Grounding => 3,
        Stage::Generating(Route::Preferred) => 2,
        Stage::Generating(_) => 1,
    }
}

/// The number of calls that a run may still ask for, the one of this step
/// included.
pub open spec fn calls_ahead(step: StepView) -> nat {
    match step {
        StepView::Search(pending, _) => calls_left(pending.stage),
        StepView::Generate(pending, _) => calls_left(pending.stage),
        StepView::Done(_) => 0,
    }
}

/// The recorded outcome that answers the call of a stage.
pub open spec fn outcome_at(
    stage: Stage,
    search: OutcomeView,
    code: OutcomeView,
    general: OutcomeView,
) -> OutcomeView {
    match stage {
        Stage::Grounding => search,
        Stage::Generating(route) => match backend_on(route) {
            Backend::Code => code,
            Backend::General => general,
        },
    }
}

/// Every step of a run leaves fewer calls ahead than the one before: a run
/// asks for at most three calls and then ends.
pub proof fn lemma_resume_progress(pending: PendingView, outcome: OutcomeView)
    ensures
        calls_ahead(resumed(pending, outcome)) < calls_left(pending.stage),
{
    reveal_with_fuel(attempt, 3);
    reveal_with_fuel(after_failure, 3);
}

/// The response that a run ends with when it goes on from `step` and each
/// call it asks for is answered by the recorded outcome for it.
pub open spec fn settled(
    step: StepView,
    search: OutcomeView,
    code: OutcomeView,
    general: OutcomeView,
) -> ResponseView
    decreases calls_ahead(step),
{
    match step {
        StepView::Done(response) => response,
        StepView::Search(pending, _) => {
            proof {
                lemma_resume_progress(
                    pending,
                    outcome_at(pending.stage, search, code, general),
                );
            }
            settled(
                resumed(pending, outcome_at(pending.stage, search, code, general)),
                search,
                code,
                general,
            )
        },
        StepView::Generate(pending, _) => {
            proof {
                lemma_resume_progress(
                    pending,
                    outcome_at(pending.stage, search, code, general),
                );
            }
            settled(
                resumed(pending, outcome_at(pending.stage, search, code, general)),
                search,
                code,
                general,
            )
        },
    }
}

/// The documents that a request is grounded with: those retrieved where
/// the search provider is configured, none where it is not.
pub open spec fn sources_for(config: ConfigView, text: Seq<char>, search: OutcomeView) -> Seq<
    DocumentView,
> {
    if search_call_for(config, text) is Some {
        retrieved(search)
    } else {
        Seq::empty()
    }
}

/// What asking a backend comes to: its answer, or the reason there is none,
/// which is `NotConfigured` where the call cannot even be planned.
pub open spec fn asked(
    backend: Backend,
    config: ConfigView,
    text: Seq<char>,
    context: Seq<char>,
    outcome: OutcomeView,
) -> Result<Seq<char>, BackendError> {
    match planned_call(backend, config, text, context) {
        Ok(_) => answer(backend, outcome),
        Err(error) => Err(error),
    }
}

/// An answer, or the empty text in place of a failure.
pub open spec fn text_or_empty(result: Result<Seq<char>, BackendError>) -> Seq<char> {
    match result {
        Ok(text) => text,
        Err(_) => Seq::empty(),
    }
}

/// The response to a request, said in one piece: ground the text, pick the
/// route by its category, ask the code backend first where the request is
/// about code, and the general backend where it is not or where the code
/// backend failed.
pub open spec fn dispatched(
    config: ConfigView,
    text: Seq<char>,
    search: OutcomeView,
    code: OutcomeView,
    general: OutcomeView,
) -> ResponseView {
    let sources = sources_for(config, text, search);
    let context = context_text(sources);
    let from_general = text_or_empty(asked(Backend::General, config, text, context, general));
    match first_route(text) {
        Route::Preferred => match asked(Backend::Code, config, text, context, code) {
            Ok(answer) => response_of(sources, answer, Route::Preferred),
            Err(_) => response_of(sources, from_general, Route::Fallback),
        },
        _ => response_of(sources, from_general, Route::Direct),
    }
}

/// Stepping through a run from its beginning ends in the response that
/// [`dispatched`] describes.
pub proof fn lemma_run_dispatches(
    config: ConfigView,
    text: Seq<char>,
    search: OutcomeView,
    code: OutcomeView,
    general: OutcomeView,
)
    ensures
        settled(begun(config, text), search, code, general) == dispatched(
            config,
            text,
            search,
            code,
            general,
        ),
{
    reveal_with_fuel(settled, 4);
    reveal_with_fuel(attempt, 3);
    reveal_with_fuel(after_failure, 3);
}

/// Picks the recorded outcome that answers the call of a stage.
fn outcome_for<'a>(stage: Stage, search: &'a Outcome, code: &'a Outcome, general: &'a Outcome)
    -> (outcome: &'a Outcome)
    ensures
        outcome@ == outcome_at(stage, search@, code@, general@),
{
    match stage {
        Stage::Grounding => search,
        Stage::Generating(Route::Preferred) => code,
        Stage::Generating(_) => general,
    }
}

/// Runs the dispatcher for a request against recorded outcomes, from the
/// first step to the response. An outcome is looked at only if the run asks
/// for its call.
pub fn dispatch_with(
    config: Config,
    request: Request,
    search: &Outcome,
    code: &Outcome,
    general: &Outcome,
) -> (response: Response)
    ensures
        response@ == dispatched(config@, request.text@, search@, code@, general@),
        response.success,
        response@.sources.len() <= MAX_RESULTS,
{
    proof {
        lemma_run_dispatches(config@, request.text@, search@, code@, general@);
        lemma_response_bounds(config@, request.text@, search@, code@, general@);
    }
    let ghost goal = dispatched(config@, request.text@, search@, code@, general@);
    let mut step = begin(config, request);
    loop
        invariant
            goal == dispatched(config@, request.text@, search@, code@, general@),
            settled(step@, search@, code@, general@) == goal,
            goal.success,
            goal.sources.len() <= MAX_RESULTS,
        decreases calls_ahead(step@),
    {
        let ghost current = step@;
        match step {
            Step::Done(response) => {
                assert(current == StepView::Done(response@));
                return response;
            },
            Step::Search(pending, _) => {
                proof {
                    lemma_resume_progress(
                        pending@,
                        outcome_at(pending.stage, search@, code@, general@),
                    );
                }
                let outcome = outcome_for(pending.stage, search, code, general);
                step = pending.resume(outcome);
            },
            Step::Generate(pending, _) => {
                proof {
                    lemma_resume_progress(
                        pending@,
                        outcome_at(pending.stage, search@, code@, general@),
                    );
                }
                let outcome = outcome_for(pending.stage, search, code, general);
                step = pending.resume(outcome);
            },
        }
    }
}

/// Every response reports success and carries at most [`MAX_RESULTS`]
/// documents.
pub proof fn lemma_response_bounds(
    config: ConfigView,
    text: Seq<char>,
    search: OutcomeView,
    code: OutcomeView,
    general: OutcomeView,
)
    ensures
        dispatched(config, text, search, code, general).success,
        dispatched(config, text, search, code, general).sources.len() <= MAX_RESULTS,
        dispatched(config, text, search, code, general).sources == sources_for(
            config,
            text,
            search,
        ),
{
    lemma_retrieved_bounded(search);
}

/// A response says that grounding was performed exactly when the context
/// text handed to the backends is not empty, and that is exactly when there
/// is at least one document.
pub proof fn lemma_grounding_flag(sources: Seq<DocumentView>, text: Seq<char>, route: Route)
    ensures
        response_of(sources, text, route).grounding_performed <==> context_text(sources).len()
            > 0,
        response_of(sources, text, route).grounding_performed <==> sources.len() > 0,
        !response_of(sources, text, route).grounding_performed <==> sources.len() == 0,
{
    lemma_context_empty_iff_no_documents(sources);
}

/// The same holds of the response to every request, whatever the outcomes.
pub proof fn lemma_dispatched_grounding_flag(
    config: ConfigView,
    text: Seq<char>,
    search: OutcomeView,
    code: OutcomeView,
    general: OutcomeView,
)
    ensures
        ({
            let response = dispatched(config, text, search, code, general);
            &&& response.grounding_performed <==> context_text(response.sources).len() > 0
            &&& response.grounding_performed <==> response.sources.len() > 0
        }),
{
    lemma_context_empty_iff_no_documents(sources_for(config, text, search));
}

/// A response records exactly one route: the preferred one where the
/// request is about code and the code backend answered, the fallback where
/// the request is about code and the code backend failed, the direct one
/// where the request is not about code.
pub proof fn lemma_recorded_route(
    config: ConfigView,
    text: Seq<char>,
    search: OutcomeView,
    code: OutcomeView,
    general: OutcomeView,
)
    ensures
        ({
            let response = dispatched(config, text, search, code, general);
            let context = context_text(sources_for(config, text, search));
            let from_code = asked(Backend::Code, config, text, context, code);
            &&& response.backend_used == label(Route::Preferred) <==> first_route(text)
                == Route::Preferred && from_code is Ok
            &&& response.backend_used == label(Route::Fallback) <==> first_route(text)
                == Route::Preferred && from_code is Err
            &&& response.backend_used == label(Route::Direct) <==> first_route(text)
                == Route::Direct
            &&& response.backend_used == label(Route::Preferred) ==> from_code == Ok::<
                Seq<char>,
                BackendError,
            >(response.text)
        }),
{
    lemma_labels_differ();
}

/// When the code backend fails, because it is not configured or because
/// its call gave no answer, the general backend is tried next on the
/// fallback route, and its call carries the task and the context that the
/// code backend's call carried, or would have carried.
pub proof fn lemma_fallback_keeps_task_and_context(
    config: ConfigView,
    text: Seq<char>,
    sources: Seq<DocumentView>,
    code: OutcomeView,
)
    requires
        asked(Backend::Code, config, text, context_text(sources), code) is Err,
    ensures
        ({
            let context = context_text(sources);
            let first = attempt(config, text, sources, Route::Preferred);
            let reached = if planned_call(Backend::Code, config, text, context) is Ok {
                resumed(first->Generate_0, code)
            } else {
                first
            };
            &&& planned_call(Backend::Code, config, text, context) matches Ok(call) ==> {
                &&& first is Generate
                &&& first->Generate_0.stage == Stage::Generating(Route::Preferred)
                &&& first->Generate_1 == call
                &&& call.backend == Backend::Code
                &&& call.task == text
                &&& call.context == context
            }
            &&& reached == attempt(config, text, sources, Route::Fallback)
            &&& planned_call(Backend::General, config, text, context) matches Ok(call) ==> {
                &&& reached is Generate
                &&& reached->Generate_0.stage == Stage::Generating(Route::Fallback)
                &&& reached->Generate_0.sources == sources
                &&& reached->Generate_1 == call
                &&& call.backend == Backend::General
                &&& call.task == text
                &&& call.context == context
            }
            &&& planned_call(Backend::General, config, text, context) is Err ==> reached
                == StepView::Done(response_of(sources, Seq::empty(), Route::Fallback))
        }),
{
}

/// A run on the fallback route ends with the outcome of the general
/// backend's call, and its response is recorded under the fallback's name,
/// which is not the name of a direct use of the general backend.
pub proof fn lemma_fallback_is_recorded(pending: PendingView, general: OutcomeView)
    requires
        pending.stage == Stage::Generating(Route::Fallback),
    ensures
        resumed(pending, general) == StepView::Done(
            response_of(
                pending.sources,
                text_or_empty(answer(Backend::General, general)),
                Route::Fallback,
            ),
        ),
        resumed(pending, general)->Done_0.backend_used == label(Route::Fallback),
        label(Route::Fallback) != label(Route::Direct),
{
    lemma_labels_differ();
}

/// The three names under which a response records its route differ from one
/// another.
pub proof fn lemma_labels_differ()
    ensures
        label(Route::Fallback) != label(Route::Direct),
        label(Route::Fallback) != label(Route::Preferred),
        label(Route::Preferred) != label(Route::Direct),
{
    reveal_strlit("code-backend");
    reveal_strlit("general-backend (fallback)");
    reveal_strlit("general-backend");
    assert("code-backend"@.len() == 12);
    assert("general-backend (fallback)"@.len() == 26);
    assert("general-backend"@.len() == 15);
}

/// A run is a function of what it is given: two runs for the same text,
/// under the same settings, whose calls end in the same outcomes, give the
/// same response, field for field and character for character.
pub proof fn lemma_dispatch_repeats(
    config: ConfigView,
    text: Seq<char>,
    search: OutcomeView,
    code: OutcomeView,
    general: OutcomeView,
    first: Response,
    second: Response,
)
    requires
        first@ == dispatched(config, text, search, code, general),
        second@ == dispatched(config, text, search, code, general),
    ensures
        first@ == second@,
        first.success == second.success,
        first.text@ == second.text@,
        first.backend_used@ == second.backend_used@,
        first.grounding_performed == second.grounding_performed,
        first.sources@.len() == second.sources@.len(),
        forall|i: int|
            0 <= i < first.sources@.len() ==> (#[trigger] first.sources@[i])@
                == second.sources@[i]@,
{
    assert(first@.sources.len() == first.sources@.len());
    assert(second@.sources.len() == second.sources@.len());
    assert forall|i: int| 0 <= i < first.sources@.len() implies (#[trigger] first.sources@[i])@
        == second.sources@[i]@ by {
        assert(first@.sources[i] == first.sources@[i]@);
        assert(second@.sources[i] == second.sources@[i]@);
    }
}

} // verus!
