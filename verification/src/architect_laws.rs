//! What holds of every run of the solutions architect.

use crate::architect::{
    architect_step, architect_wf, fresh_architect, ArchitectStage, ArchitectView,
};
use crate::basic_agent::AgentState;
use crate::factsheet::{
    document_extends, is_selection, law_nothing_excluded_keeps_all,
    law_surviving_urls_keep_their_order, surviving_urls, FactSheetView, ProjectScope,
};
use crate::protocol::{
    is_healthy, AgentActionView, AgentEventView, FatalError, GatewayTaskView, ProbeOutcome,
};
use vstd::prelude::*;

verus! {

/// The agent, the document and the requests after the host has reported
/// `events`, one after the other, to the agent `a` on the document `d`.
pub open spec fn architect_run(a: ArchitectView, d: FactSheetView, events: Seq<AgentEventView>)
    -> (ArchitectView, FactSheetView, Seq<AgentActionView>)
    decreases events.len(),
{
    if events.len() == 0 {
        (a, d, Seq::empty())
    } else {
        let before = architect_run(a, d, events.drop_last());
        let next = architect_step(before.0, before.1, events.last());
        (next.0, next.1, before.2.push(next.2))
    }
}

/// A step leads from a well-formed agent to a well-formed agent.
pub proof fn law_architect_step_keeps_wf(a: ArchitectView, d: FactSheetView, e: AgentEventView)
    requires
        architect_wf(a),
    ensures
        architect_wf(architect_step(a, d, e).0),
{
}

/// No step changes the agent's objective or position, or what it remembers.
pub proof fn law_architect_step_keeps_attributes(
    a: ArchitectView,
    d: FactSheetView,
    e: AgentEventView,
)
    ensures
        architect_step(a, d, e).0.objective == a.objective,
        architect_step(a, d, e).0.position == a.position,
        architect_step(a, d, e).0.memory == a.memory,
{
}

/// A run leads from a well-formed agent to a well-formed agent.
pub proof fn law_architect_run_keeps_wf(
    a: ArchitectView,
    d: FactSheetView,
    events: Seq<AgentEventView>,
)
    requires
        architect_wf(a),
    ensures
        architect_wf(architect_run(a, d, events).0),
    decreases events.len(),
{
    if events.len() > 0 {
        law_architect_run_keeps_wf(a, d, events.drop_last());
        let before = architect_run(a, d, events.drop_last());
        law_architect_step_keeps_wf(before.0, before.1, events.last());
    }
}

/// A step keeps what the document held, and leaves the code and the routes
/// as they were.
pub proof fn law_architect_step_extends_document(
    a: ArchitectView,
    d: FactSheetView,
    e: AgentEventView,
)
    ensures
        document_extends(d, architect_step(a, d, e).1),
        architect_step(a, d, e).1.backend_code == d.backend_code,
        architect_step(a, d, e).1.api_endpoint_schema == d.api_endpoint_schema,
{
}

/// A run keeps what the document held.
pub proof fn law_architect_run_extends_document(
    a: ArchitectView,
    d: FactSheetView,
    events: Seq<AgentEventView>,
)
    ensures
        document_extends(d, architect_run(a, d, events).1),
    decreases events.len(),
{
    if events.len() > 0 {
        law_architect_run_extends_document(a, d, events.drop_last());
        let before = architect_run(a, d, events.drop_last());
        law_architect_step_extends_document(before.0, before.1, events.last());
    }
}

/// An agent says `Finish` only when its lifecycle has ended, and gives the
/// run up only with the failure that it has kept.
pub proof fn law_architect_ends_as_it_says(a: ArchitectView, d: FactSheetView, e: AgentEventView)
    requires
        architect_wf(a),
    ensures
        architect_step(a, d, e).2 is Finish ==> architect_step(a, d, e).0.state
            == AgentState::Finished && architect_step(a, d, e).0.stage == ArchitectStage::Closed,
        forall|error: FatalError|
            architect_step(a, d, e).2 == AgentActionView::Abort(error) ==> architect_step(
                a,
                d,
                e,
            ).0.failure == Some(error) && architect_step(a, d, e).0.stage
                == ArchitectStage::Closed,
{
}

/// Where the scope asks for no outside data, the architect finishes as soon
/// as the scope is known: it stores the scope, asks for no URLs and leaves
/// the document's list of URLs as it was.
pub proof fn law_no_outside_data_ends_the_work(d: FactSheetView, scope: ProjectScope)
    requires
        !scope.is_external_urls_required,
    ensures
        ({
            let run = architect_run(
                fresh_architect(),
                d,
                seq![AgentEventView::Proceed, AgentEventView::ScopeDecoded(scope)],
            );
            &&& run.0.state == AgentState::Finished
            &&& run.1 == (FactSheetView { project_scope: Some(scope), ..d })
            &&& run.1.external_url == d.external_url
            &&& run.2 == seq![
                AgentActionView::AskGateway(
                    GatewayTaskView::ProjectScope { description: d.project_description },
                ),
                AgentActionView::Finish,
            ]
        }),
{
    let first = seq![AgentEventView::Proceed];
    let both = seq![AgentEventView::Proceed, AgentEventView::ScopeDecoded(scope)];
    assert(both.drop_last() =~= first);
    assert(first.drop_last() =~= Seq::<AgentEventView>::empty());
    reveal_with_fuel(architect_run, 3);
    let run = architect_run(fresh_architect(), d, both);
    assert(run.2 =~= seq![
        AgentActionView::AskGateway(
            GatewayTaskView::ProjectScope { description: d.project_description },
        ),
        AgentActionView::Finish,
    ]);
}

/// The reports of the probes with the outcomes `outcomes`.
pub open spec fn probe_reports(outcomes: Seq<ProbeOutcome>) -> Seq<AgentEventView> {
    Seq::new(outcomes.len(), |i: int| AgentEventView::Probed(outcomes[i]))
}

/// The URLs whose probe was not healthy, in the order of the probes: the
/// probe of `urls[i]` gave `outcomes[i]`.
pub open spec fn unhealthy_urls(urls: Seq<Seq<char>>, outcomes: Seq<ProbeOutcome>) -> Seq<
    Seq<char>,
>
    decreases outcomes.len(),
{
    if outcomes.len() == 0 {
        Seq::empty()
    } else {
        let before = unhealthy_urls(urls, outcomes.drop_last());
        if is_healthy(outcomes.last()) {
            before
        } else {
            before.push(urls[outcomes.len() - 1])
        }
    }
}

/// A URL is among the unhealthy ones exactly if one of its probes was not
/// healthy.
pub proof fn lemma_unhealthy_urls_contains(
    urls: Seq<Seq<char>>,
    outcomes: Seq<ProbeOutcome>,
    url: Seq<char>,
)
    ensures
        unhealthy_urls(urls, outcomes).contains(url) <==> exists|i: int|
            0 <= i < outcomes.len() && urls[i] == url && !is_healthy(#[trigger] outcomes[i]),
    decreases outcomes.len(),
{
    if outcomes.len() > 0 {
        let front = outcomes.drop_last();
        let last = outcomes.len() - 1;
        let before = unhealthy_urls(urls, front);
        let all = unhealthy_urls(urls, outcomes);
        lemma_unhealthy_urls_contains(urls, front, url);
        if all.contains(url) {
            let k = choose|k: int| 0 <= k < all.len() && all[k] == url;
            if k < before.len() {
                assert(before[k] == url);
                let i = choose|i: int|
                    0 <= i < front.len() && urls[i] == url && !is_healthy(#[trigger] front[i]);
                assert(outcomes[i] == front[i]);
            } else {
                assert(!is_healthy(outcomes[last]));
            }
        }
        if exists|i: int|
            0 <= i < outcomes.len() && urls[i] == url && !is_healthy(#[trigger] outcomes[i]) {
            let i = choose|i: int|
                0 <= i < outcomes.len() && urls[i] == url && !is_healthy(#[trigger] outcomes[i]);
            if i < last {
                assert(front[i] == outcomes[i]);
                let k = choose|k: int| 0 <= k < before.len() && before[k] == url;
                assert(all[k] == url);
            } else {
                assert(all[all.len() - 1] == url);
            }
        }
    }
}

/// The architect in the middle of its probes, or after them.
pub open spec fn architect_probing(
    a: ArchitectView,
    urls: Seq<Seq<char>>,
    outcomes: Seq<ProbeOutcome>,
) -> ArchitectView {
    let probing = ArchitectView {
        probe_urls: urls,
        probe_index: outcomes.len(),
        exclude_urls: unhealthy_urls(urls, outcomes),
        ..a
    };
    if outcomes.len() < urls.len() {
        ArchitectView {
            state: AgentState::UnitTesting,
            stage: ArchitectStage::AwaitingProbe,
            ..probing
        }
    } else {
        ArchitectView { state: AgentState::Finished, stage: ArchitectStage::Closed, ..probing }
    }
}

/// The list of URLs in the middle of the probes, or after them.
pub open spec fn urls_after_probes(urls: Seq<Seq<char>>, outcomes: Seq<ProbeOutcome>) -> Seq<
    Seq<char>,
> {
    if outcomes.len() < urls.len() {
        urls
    } else {
        surviving_urls(urls, unhealthy_urls(urls, outcomes))
    }
}

proof fn lemma_probes_advance(
    a: ArchitectView,
    d: FactSheetView,
    urls: Seq<Seq<char>>,
    outcomes: Seq<ProbeOutcome>,
)
    requires
        a.stage == ArchitectStage::AwaitingUrls,
        a.failure is None,
        outcomes.len() <= urls.len(),
    ensures
        ({
            let run = architect_run(
                a,
                d,
                seq![AgentEventView::UrlsDecoded(urls)] + probe_reports(outcomes),
            );
            &&& run.0 == architect_probing(a, urls, outcomes)
            &&& run.1 == (FactSheetView {
                external_url: Some(urls_after_probes(urls, outcomes)),
                ..d
            })
            &&& run.2.len() == outcomes.len() + 1
            &&& outcomes.len() == urls.len() ==> run.2.last() == AgentActionView::Finish
        }),
    decreases outcomes.len(),
{
    let events = seq![AgentEventView::UrlsDecoded(urls)] + probe_reports(outcomes);
    if outcomes.len() == 0 {
        assert(events =~= seq![AgentEventView::UrlsDecoded(urls)]);
        assert(events.drop_last() =~= Seq::<AgentEventView>::empty());
        reveal_with_fuel(architect_run, 2);
        assert(unhealthy_urls(urls, outcomes) =~= Seq::<Seq<char>>::empty());
        law_nothing_excluded_keeps_all(urls);
    } else {
        let front = outcomes.drop_last();
        lemma_probes_advance(a, d, urls, front);
        assert(events.drop_last() =~= seq![AgentEventView::UrlsDecoded(urls)] + probe_reports(
            front,
        ));
        assert(events.last() == AgentEventView::Probed(outcomes.last()));
        if unhealthy_urls(urls, outcomes).len() == 0 {
            assert(unhealthy_urls(urls, outcomes) =~= Seq::<Seq<char>>::empty());
            law_nothing_excluded_keeps_all(urls);
        }
    }
}

/// Once every URL has been probed, the document holds the URLs of which no
/// probe failed, in the order in which the gateway gave them, and the
/// architect has finished. A failed probe takes its URL from the list and
/// does not end the run.
pub proof fn law_probes_remove_the_urls_that_fail(
    a: ArchitectView,
    d: FactSheetView,
    urls: Seq<Seq<char>>,
    outcomes: Seq<ProbeOutcome>,
) -> (picks: Seq<int>)
    requires
        a.stage == ArchitectStage::AwaitingUrls,
        a.failure is None,
        outcomes.len() == urls.len(),
    ensures
        ({
            let run = architect_run(
                a,
                d,
                seq![AgentEventView::UrlsDecoded(urls)] + probe_reports(outcomes),
            );
            let kept = surviving_urls(urls, unhealthy_urls(urls, outcomes));
            &&& run.0.state == AgentState::Finished
            &&& run.0.failure is None
            &&& run.2.last() == AgentActionView::Finish
            &&& run.1 == (FactSheetView { external_url: Some(kept), ..d })
            &&& is_selection(urls, kept, picks)
            &&& forall|i: int|
                0 <= i < urls.len() ==> (picks.contains(i) <==> forall|j: int|
                    0 <= j < urls.len() && urls[j] == urls[i] ==> is_healthy(
                        #[trigger] outcomes[j],
                    ))
        }),
{
    lemma_probes_advance(a, d, urls, outcomes);
    let excluded = unhealthy_urls(urls, outcomes);
    let picks = law_surviving_urls_keep_their_order(urls, excluded);
    assert forall|i: int| 0 <= i < urls.len() implies (picks.contains(i) <==> forall|j: int|
        0 <= j < urls.len() && urls[j] == urls[i] ==> is_healthy(#[trigger] outcomes[j])) by {
        lemma_unhealthy_urls_contains(urls, outcomes, urls[i]);
    }
    picks
}

/// The moves of the lifecycle: to the tests of the URLs from the discovery,
/// and to `Finished` from everywhere.
pub open spec fn is_architect_move(before: AgentState, after: AgentState) -> bool {
    ||| before == after
    ||| before == AgentState::Discovery && after == AgentState::UnitTesting
    ||| after == AgentState::Finished
}

/// The lifecycle moves forward only, and nothing follows `Finished`.
pub proof fn law_architect_lifecycle_moves_forward(
    a: ArchitectView,
    d: FactSheetView,
    e: AgentEventView,
)
    requires
        architect_wf(a),
    ensures
        is_architect_move(a.state, architect_step(a, d, e).0.state),
        a.state == AgentState::Finished ==> architect_step(a, d, e).0.state
            == AgentState::Finished,
{
}

/// What the document of an agent that started new holds at each point of
/// the agent's work: the scope from the moment it has come, the URLs from
/// the moment they are tested.
pub open spec fn architect_has_filled(a: ArchitectView, d: FactSheetView) -> bool {
    &&& a.stage == ArchitectStage::Idle ==> a.state == AgentState::Discovery
    &&& a.state != AgentState::Discovery || a.stage == ArchitectStage::AwaitingUrls
        ==> d.project_scope is Some
    &&& a.state == AgentState::UnitTesting ==> d.external_url is Some
}

/// A step keeps the document as full as the agent's work needs it.
pub proof fn law_architect_step_fills_document(a: ArchitectView, d: FactSheetView, e: AgentEventView)
    requires
        architect_wf(a),
        architect_has_filled(a, d),
    ensures
        architect_has_filled(architect_step(a, d, e).0, architect_step(a, d, e).1),
{
}

/// An architect that started new and has finished leaves a document with a
/// scope.
pub proof fn law_finished_architect_has_filled_document(
    d: FactSheetView,
    events: Seq<AgentEventView>,
)
    ensures
        architect_has_filled(
            architect_run(fresh_architect(), d, events).0,
            architect_run(fresh_architect(), d, events).1,
        ),
        architect_run(fresh_architect(), d, events).0.state == AgentState::Finished
            ==> architect_run(fresh_architect(), d, events).1.project_scope is Some,
    decreases events.len(),
{
    if events.len() > 0 {
        let front = events.drop_last();
        law_finished_architect_has_filled_document(d, front);
        law_architect_run_keeps_wf(fresh_architect(), d, front);
        let before = architect_run(fresh_architect(), d, front);
        law_architect_step_fills_document(before.0, before.1, events.last());
    }
}

} // verus!
