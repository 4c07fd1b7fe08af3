use vstd::prelude::*;

use crate::application::use_cases::new_project::answers;
use crate::application::use_cases::new_project::flow_rank;
use crate::application::use_cases::new_project::run_outcome;
use crate::application::use_cases::new_project::run_trace;
use crate::application::use_cases::new_project::seed_step;
use crate::application::use_cases::new_project::start_flow;
use crate::application::use_cases::new_project::stage_of;
use crate::application::use_cases::new_project::finishing;
use crate::application::use_cases::new_project::resolved_options;
use crate::application::use_cases::new_project::options_known;
use crate::application::use_cases::new_project::told;
use crate::application::use_cases::new_project::trace_from;
use crate::application::use_cases::new_project::run_from;
use crate::application::use_cases::new_project::query_rank;
use crate::application::use_cases::new_project::Event;
use crate::application::use_cases::new_project::NewProjectFlow;
use crate::application::use_cases::new_project::Next;
use crate::application::use_cases::new_project::Notice;
use crate::application::use_cases::new_project::Query;
use crate::application::use_cases::new_project::Reply;
use crate::application::use_cases::new_project::Stage;
use crate::application::use_cases::new_project::StepView;
use crate::domain::project::ArchitectureProfile;
use crate::domain::project::NewProjectRequest;
use crate::domain::project::PackageManager;
use crate::domain::project::ResolvedOptions;
use crate::domain::project::UiChoice;
use crate::domain::styles_choice::StylesChoice;
use crate::error::SeedError;

verus! {

/// One move keeps the flow well formed, lowers the rank of what it waits
/// for, and waits exactly for what it asks.
pub proof fn lemma_seed_step(flow: NewProjectFlow, reply: Reply)
    requires
        flow.wf(),
        flow.pending is Some,
        answers(reply, flow.pending.unwrap()),
    ensures
        seed_step(flow, reply).0.wf(),
        flow_rank(seed_step(flow, reply).0) < flow_rank(flow),
        seed_step(flow, reply).0.request == flow.request,
        match seed_step(flow, reply).1.next {
            Next::Ask(query) => seed_step(flow, reply).0.pending == Some(query),
            Next::Finish(_) => seed_step(flow, reply).0.pending is None,
        },
{
}

/// The first move waits for what it asks, from a well-formed flow.
pub proof fn lemma_start_flow(request: NewProjectRequest)
    ensures
        start_flow(request).0.wf(),
        start_flow(request).0.request == request,
        start_flow(request).1.next matches Next::Ask(query) && start_flow(request).0.pending == Some(query),
{
}

/// The options a request confirmed up front (`--yes`) is seeded with: what it
/// gives, and npm, the clean architecture, no UI library and no styles for
/// the rest.
pub open spec fn confirmed_options(request: NewProjectRequest) -> ResolvedOptions {
    ResolvedOptions {
        ui: request.ui.unwrap_or(UiChoice::NoUi),
        styles: request.styles.unwrap_or(StylesChoice::NoStyles),
        package_manager: request.package_manager.unwrap_or(PackageManager::Npm),
        architecture: request.architecture.unwrap_or(ArchitectureProfile::Clean),
        skip_install: request.skip_install,
    }
}

/// The answers of ports that all succeed, for a project that does not exist
/// yet and ends up in `dir`.
pub open spec fn smooth_replies(dir: String) -> Seq<Reply> {
    seq![Reply::Done, Reply::Flag(false), Reply::Done, Reply::Dir(dir), Reply::Done, Reply::Done]
}

/// Law: a request confirmed up front (`--yes`) asks nothing of the user; when
/// every port succeeds it checks the tools of its package manager, makes sure
/// the project does not exist yet, scaffolds it, applies the architecture
/// template and the UI integration, announcing and closing each stage, and
/// ends with the summary and success.
#[verifier::spinoff_prover]
#[verifier::rlimit(40)]
pub proof fn law_confirmed_request_seeds_in_order(request: NewProjectRequest, dir: String)
    requires
        request.yes,
    ensures
        run_outcome(request, smooth_replies(dir)) == Some(Ok::<(), SeedError>(())),
        run_trace(request, smooth_replies(dir)) == seq![
            Event::Told(Notice::StageStart(Stage::Preflight)),
            Event::Asked(Query::EnsureRequiredTools(confirmed_options(request).package_manager)),
            Event::Told(Notice::StageOk(Stage::Preflight)),
            Event::Asked(Query::ProjectExists),
            Event::Told(Notice::StageStart(Stage::Scaffold)),
            Event::Asked(Query::ScaffoldAngularProject(confirmed_options(request))),
            Event::Told(Notice::StageOk(Stage::Scaffold)),
            Event::Asked(Query::ProjectDir),
            Event::Told(Notice::StageStart(Stage::Template)),
            Event::Asked(Query::ApplyArchitectureTemplate(confirmed_options(request).architecture)),
            Event::Told(Notice::StageOk(Stage::Template)),
            Event::Told(Notice::StageStart(Stage::UiSetup)),
            Event::Asked(Query::ApplyUiIntegration(
                confirmed_options(request).ui,
                confirmed_options(request).package_manager,
            )),
            Event::Told(Notice::StageOk(Stage::UiSetup)),
            Event::Told(Notice::Summary(confirmed_options(request))),
        ],
{
    let options = confirmed_options(request);
    let replies = smooth_replies(dir);
    let (f0, s0) = start_flow(request);
    assert(resolved_options(f0) == options);
    let (f1, s1) = seed_step(f0, Reply::Done);
    let (f2, s2) = seed_step(f1, Reply::Flag(false));
    let (f3, s3) = seed_step(f2, Reply::Done);
    let (f4, s4) = seed_step(f3, Reply::Dir(dir));
    let (f5, s5) = seed_step(f4, Reply::Done);
    let (f6, s6) = seed_step(f5, Reply::Done);
    assert(s6.next == Next::Finish(Ok::<(), SeedError>(())));
    let r5 = replies.drop_first().drop_first().drop_first().drop_first().drop_first();
    let r4 = replies.drop_first().drop_first().drop_first().drop_first();
    let r3 = replies.drop_first().drop_first().drop_first();
    let r2 = replies.drop_first().drop_first();
    let r1 = replies.drop_first();
    assert(r5 =~= seq![Reply::Done]);
    assert(r4 =~= seq![Reply::Done, Reply::Done]);
    assert(r3 =~= seq![Reply::Dir(dir), Reply::Done, Reply::Done]);
    assert(r2 =~= seq![Reply::Done, Reply::Dir(dir), Reply::Done, Reply::Done]);
    assert(r1 =~= seq![Reply::Flag(false), Reply::Done, Reply::Dir(dir), Reply::Done, Reply::Done]);
    assert(r5.drop_first() =~= Seq::<Reply>::empty());
    assert(run_from(f6, s6, Seq::<Reply>::empty()) == Some(Ok::<(), SeedError>(())));
    assert(run_from(f5, s5, r5) == Some(Ok::<(), SeedError>(())));
    assert(run_from(f4, s4, r4) == Some(Ok::<(), SeedError>(())));
    assert(run_from(f3, s3, r3) == Some(Ok::<(), SeedError>(())));
    assert(run_from(f2, s2, r2) == Some(Ok::<(), SeedError>(())));
    assert(run_from(f1, s1, r1) == Some(Ok::<(), SeedError>(())));
    assert(run_from(f0, s0, replies) == Some(Ok::<(), SeedError>(())));

    let t6 = trace_from(f6, s6, Seq::<Reply>::empty());
    assert(t6 =~= seq![
        Event::Told(Notice::StageOk(Stage::UiSetup)),
        Event::Told(Notice::Summary(options)),
    ]);
    let t5 = trace_from(f5, s5, r5);
    assert(t5 =~= seq![
        Event::Told(Notice::StageOk(Stage::Template)),
        Event::Told(Notice::StageStart(Stage::UiSetup)),
        Event::Asked(Query::ApplyUiIntegration(options.ui, options.package_manager)),
    ] + t6);
    let t4 = trace_from(f4, s4, r4);
    assert(t4 =~= seq![
        Event::Told(Notice::StageStart(Stage::Template)),
        Event::Asked(Query::ApplyArchitectureTemplate(options.architecture)),
    ] + t5);
    let t3 = trace_from(f3, s3, r3);
    assert(t3 =~= seq![
        Event::Told(Notice::StageOk(Stage::Scaffold)),
        Event::Asked(Query::ProjectDir),
    ] + t4);
    let t2 = trace_from(f2, s2, r2);
    assert(t2 =~= seq![
        Event::Told(Notice::StageStart(Stage::Scaffold)),
        Event::Asked(Query::ScaffoldAngularProject(options)),
    ] + t3);
    let t1 = trace_from(f1, s1, r1);
    assert(t1 =~= seq![
        Event::Told(Notice::StageOk(Stage::Preflight)),
        Event::Asked(Query::ProjectExists),
    ] + t2);
    let t0 = trace_from(f0, s0, replies);
    assert(t0 =~= seq![
        Event::Told(Notice::StageStart(Stage::Preflight)),
        Event::Asked(Query::EnsureRequiredTools(options.package_manager)),
    ] + t1);
}

/// Law: when the work of a stage fails, that stage is reported failed and the
/// run ends with the failure; nothing else is shown and no later work is
/// asked for.
pub proof fn law_failed_stage_is_reported(flow: NewProjectFlow, error: SeedError)
    requires
        flow.wf(),
        flow.pending matches Some(query) && stage_of(query) is Some,
    ensures
        seed_step(flow, Reply::Failed(error)) == finishing(
            flow,
            seq![Notice::StageError(stage_of(flow.pending.unwrap()).unwrap())],
            Err(error),
        ),
{
}

/// Law: a failed prompt, or a working directory that cannot be found, ends
/// the run with that failure and shows nothing.
pub proof fn law_failed_question_ends_silently(flow: NewProjectFlow, error: SeedError)
    requires
        flow.wf(),
        flow.pending matches Some(query) && (query_rank(query) >= 10 || query == Query::ProjectDir),
    ensures
        seed_step(flow, Reply::Failed(error)) == finishing(flow, Seq::<Notice>::empty(), Err(error)),
{
    assert(seq![] =~= Seq::<Notice>::empty());
}

/// Law: a project whose directory already exists is refused with an error
/// naming it, before any scaffolding starts.
pub proof fn law_existing_project_is_refused(flow: NewProjectFlow)
    requires
        flow.wf(),
        flow.pending == Some(Query::ProjectExists),
    ensures
        seed_step(flow, Reply::Flag(true)) == finishing(
            flow,
            Seq::<Notice>::empty(),
            Err(SeedError::ProjectExists { project_name: flow.request.project_name }),
        ),
{
    assert(seq![] =~= Seq::<Notice>::empty());
}

/// Law: a run ends successfully exactly when it shows the summary, and the
/// summary, of the run's options, is the last thing it shows.
pub proof fn law_summary_closes_successful_runs(flow: NewProjectFlow, reply: Reply)
    requires
        flow.wf(),
        flow.pending is Some,
        answers(reply, flow.pending.unwrap()),
    ensures
        ({
            let step = seed_step(flow, reply).1;
            &&& step.next matches Next::Finish(Ok(_)) ==> step.notices.len() > 0 && step.notices.last()
                == Notice::Summary(resolved_options(flow))
            &&& (exists|i: int| 0 <= i < step.notices.len() && #[trigger] step.notices[i] is Summary)
                ==> step.next matches Next::Finish(Ok(_))
        }),
{
}

/// Law: the banner is shown only to a person at a terminal: a request that is
/// not confirmed up front asks whether the run is under continuous
/// integration and, if not, whether a terminal is attached; the banner comes
/// before preflight exactly when it is.
pub proof fn law_banner_only_for_watched_runs(flow: NewProjectFlow, ci: bool, terminal: bool)
    requires
        flow.wf(),
        flow.pending == Some(Query::IsCi),
    ensures
        ci ==> seed_step(flow, Reply::Flag(ci)).1.notices == seq![Notice::StageStart(Stage::Preflight)],
        !ci ==> seed_step(flow, Reply::Flag(ci)).1 == (StepView {
            notices: Seq::<Notice>::empty(),
            next: Next::Ask(Query::IsInteractiveTerminal),
        }),
        !ci ==> seed_step(seed_step(flow, Reply::Flag(ci)).0, Reply::Flag(terminal)).1.notices == if terminal {
            seq![Notice::ShowBanner, Notice::StageStart(Stage::Preflight)]
        } else {
            seq![Notice::StageStart(Stage::Preflight)]
        },
{
    assert(seq![] =~= Seq::<Notice>::empty());
    assert(Seq::<Notice>::empty().push(Notice::StageStart(Stage::Preflight))
        =~= seq![Notice::StageStart(Stage::Preflight)]);
    assert(seq![Notice::ShowBanner].push(Notice::StageStart(Stage::Preflight))
        =~= seq![Notice::ShowBanner, Notice::StageStart(Stage::Preflight)]);
}

/// Whether an event may occur in a run for `request`: the user is asked only
/// for options the request leaves open, and only when it is not confirmed up
/// front, which also rules out the banner and the questions leading to it.
pub open spec fn fits_request(request: NewProjectRequest, event: Event) -> bool {
    match event {
        Event::Asked(Query::SelectPackageManager) => request.package_manager is None && !request.yes,
        Event::Asked(Query::SelectArchitecture) => request.architecture is None && !request.yes,
        Event::Asked(Query::SelectUi) => request.ui is None && !request.yes,
        Event::Asked(Query::SelectStyles) => request.styles is None && !request.yes,
        Event::Asked(Query::IsCi) => !request.yes,
        Event::Asked(Query::IsInteractiveTerminal) => !request.yes,
        Event::Told(Notice::ShowBanner) => !request.yes,
        _ => true,
    }
}

proof fn lemma_step_notices_fit(flow: NewProjectFlow, reply: Reply)
    requires
        flow.wf(),
        flow.pending is Some,
        answers(reply, flow.pending.unwrap()),
    ensures
        forall|i: int| 0 <= i < seed_step(flow, reply).1.notices.len()
            ==> fits_request(flow.request, Event::Told(#[trigger] seed_step(flow, reply).1.notices[i])),
{
    let notices = seed_step(flow, reply).1.notices;
    assert forall|i: int| 0 <= i < notices.len() implies fits_request(flow.request, Event::Told(#[trigger] notices[i])) by {
        if notices[i] == Notice::ShowBanner {
            assert(flow.pending == Some(Query::IsInteractiveTerminal));
        }
    }
}

proof fn lemma_trace_fits(flow: NewProjectFlow, step: StepView, replies: Seq<Reply>)
    requires
        flow.wf(),
        step.next matches Next::Ask(query) ==> flow.pending == Some(query),
    ensures
        forall|i: int| 0 <= i < trace_from(flow, step, replies).len()
            && (forall|j: int| 0 <= j < step.notices.len() ==> fits_request(flow.request, Event::Told(#[trigger] step.notices[j])))
            ==> fits_request(flow.request, #[trigger] trace_from(flow, step, replies)[i]),
    decreases replies.len(),
{
    let trace = trace_from(flow, step, replies);
    if forall|j: int| 0 <= j < step.notices.len() ==> fits_request(flow.request, Event::Told(#[trigger] step.notices[j])) {
        let head = told(step.notices);
        assert forall|i: int| 0 <= i < head.len() implies fits_request(flow.request, #[trigger] head[i]) by {
            assert(head[i] == Event::Told(step.notices[i]));
        }
        match step.next {
            Next::Finish(_) => {
                assert(trace =~= head);
            },
            Next::Ask(query) => {
                let asked = seq![Event::Asked(query)];
                assert(fits_request(flow.request, Event::Asked(query)));
                if replies.len() == 0 || !answers(replies[0], query) {
                    assert(trace =~= head + asked);
                    assert forall|i: int| 0 <= i < trace.len() implies fits_request(flow.request, #[trigger] trace[i]) by {
                        if i >= head.len() {
                            assert(trace[i] == asked[i - head.len()]);
                        } else {
                            assert(trace[i] == head[i]);
                        }
                    }
                } else {
                    let (next_flow, next_step) = seed_step(flow, replies[0]);
                    lemma_seed_step(flow, replies[0]);
                    lemma_step_notices_fit(flow, replies[0]);
                    lemma_trace_fits(next_flow, next_step, replies.drop_first());
                    let rest = trace_from(next_flow, next_step, replies.drop_first());
                    assert(trace =~= head + (asked + rest));
                    assert forall|i: int| 0 <= i < trace.len() implies fits_request(flow.request, #[trigger] trace[i]) by {
                        if i >= head.len() + 1 {
                            assert(trace[i] == rest[i - head.len() - 1]);
                        } else if i == head.len() {
                            assert(trace[i] == Event::Asked(query));
                        } else {
                            assert(trace[i] == head[i]);
                        }
                    }
                }
            },
        }
    }
}

/// Law: whatever the ports answer, a run asks the user only for options the
/// request leaves open, and a request confirmed up front (`--yes`) asks the
/// user nothing, never looks for a terminal and never shows the banner.
pub proof fn law_prompts_only_for_open_options(request: NewProjectRequest, replies: Seq<Reply>)
    ensures
        forall|i: int| 0 <= i < run_trace(request, replies).len()
            ==> fits_request(request, #[trigger] run_trace(request, replies)[i]),
{
    let (flow, step) = start_flow(request);
    lemma_start_flow(request);
    assert forall|j: int| 0 <= j < step.notices.len() implies fits_request(flow.request, Event::Told(#[trigger] step.notices[j])) by {
    }
    lemma_trace_fits(flow, step, replies);
}

/// The rank of an event's query; notices have none.
pub open spec fn asked_rank(event: Event) -> Option<nat> {
    match event {
        Event::Asked(query) => Some(query_rank(query)),
        Event::Told(_) => None,
    }
}

proof fn lemma_trace_order(flow: NewProjectFlow, step: StepView, replies: Seq<Reply>)
    requires
        flow.wf(),
        step.next matches Next::Ask(query) ==> flow.pending == Some(query),
    ensures
        forall|i: int| 0 <= i < trace_from(flow, step, replies).len()
            && #[trigger] asked_rank(trace_from(flow, step, replies)[i]) is Some
            ==> asked_rank(trace_from(flow, step, replies)[i]).unwrap() <= flow_rank(flow),
        forall|i: int, j: int| 0 <= i < j < trace_from(flow, step, replies).len()
            && #[trigger] asked_rank(trace_from(flow, step, replies)[i]) is Some
            && #[trigger] asked_rank(trace_from(flow, step, replies)[j]) is Some
            ==> asked_rank(trace_from(flow, step, replies)[i]).unwrap()
                > asked_rank(trace_from(flow, step, replies)[j]).unwrap(),
    decreases replies.len(),
{
    let trace = trace_from(flow, step, replies);
    let head = told(step.notices);
    assert forall|i: int| 0 <= i < head.len() implies #[trigger] asked_rank(head[i]) is None by {
        assert(head[i] == Event::Told(step.notices[i]));
    }
    match step.next {
        Next::Finish(_) => {
            assert(trace =~= head);
        },
        Next::Ask(query) => {
            let asked = seq![Event::Asked(query)];
            if replies.len() == 0 || !answers(replies[0], query) {
                assert(trace =~= head + asked);
                assert forall|i: int| 0 <= i < trace.len() && i != head.len() implies #[trigger] asked_rank(trace[i]) is None by {
                    assert(trace[i] == head[i]);
                }
                assert(trace[head.len() as int] == Event::Asked(query));
            } else {
                let (next_flow, next_step) = seed_step(flow, replies[0]);
                lemma_seed_step(flow, replies[0]);
                lemma_trace_order(next_flow, next_step, replies.drop_first());
                let rest = trace_from(next_flow, next_step, replies.drop_first());
                assert(trace =~= head + (asked + rest));
                let h = head.len() as int;
                assert forall|i: int| 0 <= i < trace.len() && #[trigger] asked_rank(trace[i]) is Some
                    implies asked_rank(trace[i]).unwrap() <= flow_rank(flow) by {
                    if i > h {
                        assert(trace[i] == rest[i - h - 1]);
                    } else if i < h {
                        assert(trace[i] == head[i]);
                    }
                }
                assert forall|i: int, j: int| 0 <= i < j < trace.len()
                    && #[trigger] asked_rank(trace[i]) is Some
                    && #[trigger] asked_rank(trace[j]) is Some
                    implies asked_rank(trace[i]).unwrap() > asked_rank(trace[j]).unwrap() by {
                    if i < h {
                        assert(trace[i] == head[i]);
                    } else if i == h {
                        assert(trace[j] == rest[j - h - 1]);
                    } else {
                        assert(trace[i] == rest[i - h - 1]);
                        assert(trace[j] == rest[j - h - 1]);
                    }
                }
            }
        },
    }
}

/// Law: whatever the ports answer, a run asks its questions and has its work
/// done in one fixed order (options, then the banner checks, then tools,
/// existence, scaffolding, directory, template, UI integration, styles), and
/// each at most once.
pub proof fn law_queries_in_order_at_most_once(request: NewProjectRequest, replies: Seq<Reply>)
    ensures
        forall|i: int, j: int| 0 <= i < j < run_trace(request, replies).len()
            && #[trigger] asked_rank(run_trace(request, replies)[i]) is Some
            && #[trigger] asked_rank(run_trace(request, replies)[j]) is Some
            ==> asked_rank(run_trace(request, replies)[i]).unwrap()
                > asked_rank(run_trace(request, replies)[j]).unwrap(),
{
    let (flow, step) = start_flow(request);
    lemma_start_flow(request);
    lemma_trace_order(flow, step, replies);
}

/// Whether the notices of a move open and close stages around their work:
/// a stage opens only as the move's last notice, right before its work is
/// asked for, and closes (ok or error) only as the move's first notice, in
/// answer to its work `answered`.
pub open spec fn brackets_stages(step: StepView, answered: Option<Query>) -> bool {
    forall|i: int| 0 <= i < step.notices.len() ==> match #[trigger] step.notices[i] {
        Notice::StageStart(stage) => i == step.notices.len() - 1
            && (step.next matches Next::Ask(query) && stage_of(query) == Some(stage)),
        Notice::StageOk(stage) | Notice::StageError(stage) => i == 0
            && (answered matches Some(query) && stage_of(query) == Some(stage)),
        _ => true,
    }
}

/// Law: every move of a run, the first included, opens a stage right
/// before asking for that stage's work and closes it in the move that takes
/// the answer, with success or failure; no other move opens or closes one.
pub proof fn law_stages_bracket_their_work(request: NewProjectRequest, flow: NewProjectFlow, reply: Reply)
    ensures
        brackets_stages(start_flow(request).1, None),
        flow.wf() && flow.pending is Some && answers(reply, flow.pending.unwrap())
            ==> brackets_stages(seed_step(flow, reply).1, flow.pending),
{
}

/// The stage an event opens: a stage-start notice.
pub open spec fn opened(event: Event) -> Option<Stage> {
    match event {
        Event::Told(Notice::StageStart(stage)) => Some(stage),
        _ => None,
    }
}

/// The stage whose work an event asks for.
pub open spec fn worked(event: Event) -> Option<Stage> {
    match event {
        Event::Asked(query) => stage_of(query),
        _ => None,
    }
}

/// The stage an event closes, with success or failure.
pub open spec fn closed(event: Event) -> Option<Stage> {
    match event {
        Event::Told(Notice::StageOk(stage)) => Some(stage),
        Event::Told(Notice::StageError(stage)) => Some(stage),
        _ => None,
    }
}

/// The stage an event reports failed.
pub open spec fn failed(event: Event) -> Option<Stage> {
    match event {
        Event::Told(Notice::StageError(stage)) => Some(stage),
        _ => None,
    }
}

/// The shape of one move of a run with respect to stages: stages open and
/// close as [`brackets_stages`] says, a stage's work is asked right after the
/// stage is opened, and a failure is the last notice of a move that ends the
/// run with an error.
pub open spec fn frames_move(step: StepView, answered: Option<Query>) -> bool {
    &&& brackets_stages(step, answered)
    &&& step.next matches Next::Ask(query) ==> (stage_of(query) is Some ==> step.notices.len() > 0
        && opened(Event::Told(step.notices.last())) == stage_of(query))
    &&& forall|i: int| 0 <= i < step.notices.len() && #[trigger] failed(Event::Told(step.notices[i])) is Some
        ==> i == step.notices.len() - 1 && step.next matches Next::Finish(Err(_))
}

/// Every move of a run is framed, and the move that takes the answer to a
/// stage's work starts by closing that stage.
proof fn lemma_moves_are_framed(request: NewProjectRequest, flow: NewProjectFlow, reply: Reply)
    ensures
        frames_move(start_flow(request).1, None),
        flow.wf() && flow.pending is Some && answers(reply, flow.pending.unwrap()) ==> {
            let step = seed_step(flow, reply).1;
            &&& frames_move(step, flow.pending)
            &&& stage_of(flow.pending.unwrap()) is Some ==> step.notices.len() > 0
                && closed(Event::Told(step.notices[0])) == stage_of(flow.pending.unwrap())
        },
{
    law_stages_bracket_their_work(request, flow, reply);
}

#[verifier::spinoff_prover]
#[verifier::rlimit(40)]
proof fn lemma_trace_frames(flow: NewProjectFlow, step: StepView, replies: Seq<Reply>, answered: Option<Query>)
    requires
        flow.wf(),
        step.next matches Next::Ask(query) ==> flow.pending == Some(query),
        frames_move(step, answered),
    ensures
        ({
            let t = trace_from(flow, step, replies);
            &&& forall|i: int| 0 <= i < t.len() && #[trigger] opened(t[i]) is Some
                ==> i + 1 < t.len() && worked(t[i + 1]) == opened(t[i])
            &&& forall|i: int| 0 <= i < t.len() && #[trigger] worked(t[i]) is Some
                ==> 0 < i && opened(t[i - 1]) == worked(t[i])
                && (i + 1 < t.len() ==> closed(t[i + 1]) == worked(t[i]))
            &&& forall|i: int| 0 <= i < t.len() && #[trigger] closed(t[i]) is Some
                ==> if i == 0 {
                    answered matches Some(query) && stage_of(query) == closed(t[i])
                } else {
                    worked(t[i - 1]) == closed(t[i])
                }
            &&& forall|i: int| 0 <= i < t.len() && #[trigger] failed(t[i]) is Some
                ==> i == t.len() - 1 && !(run_from(flow, step, replies) matches Some(Ok(_)))
        }),
    decreases replies.len(),
{
    let t = trace_from(flow, step, replies);
    let head = told(step.notices);
    let h = head.len() as int;
    assert forall|i: int| 0 <= i < h implies #[trigger] head[i] == Event::Told(step.notices[i]) by {}
    match step.next {
        Next::Finish(result) => {
            assert(t =~= head);
            assert forall|i: int| 0 <= i < t.len() && #[trigger] failed(t[i]) is Some
                implies i == t.len() - 1 && !(run_from(flow, step, replies) matches Some(Ok(_))) by {
                assert(t[i] == Event::Told(step.notices[i]));
            }
            assert forall|i: int| 0 <= i < t.len() && #[trigger] opened(t[i]) is Some
                implies i + 1 < t.len() && worked(t[i + 1]) == opened(t[i]) by {
                assert(t[i] == Event::Told(step.notices[i]));
            }
            assert forall|i: int| 0 <= i < t.len() && #[trigger] closed(t[i]) is Some
                implies (if i == 0 {
                    answered matches Some(query) && stage_of(query) == closed(t[i])
                } else {
                    worked(t[i - 1]) == closed(t[i])
                }) by {
                assert(t[i] == Event::Told(step.notices[i]));
            }
            assert forall|i: int| 0 <= i < t.len() && #[trigger] worked(t[i]) is Some implies false by {
                assert(t[i] == Event::Told(step.notices[i]));
            }
        },
        Next::Ask(query) => {
            let asked = seq![Event::Asked(query)];
            if replies.len() == 0 || !answers(replies[0], query) {
                assert(t =~= head + asked);
                assert forall|i: int| 0 <= i < t.len() && #[trigger] failed(t[i]) is Some implies false by {
                    if i < h {
                        assert(t[i] == Event::Told(step.notices[i]));
                    }
                }
                assert forall|i: int| 0 <= i < t.len() && #[trigger] opened(t[i]) is Some
                    implies i + 1 < t.len() && worked(t[i + 1]) == opened(t[i]) by {
                    assert(t[i] == Event::Told(step.notices[i]));
                }
                assert forall|i: int| 0 <= i < t.len() && #[trigger] worked(t[i]) is Some
                    implies 0 < i && opened(t[i - 1]) == worked(t[i])
                    && (i + 1 < t.len() ==> closed(t[i + 1]) == worked(t[i])) by {
                    if i < h {
                        assert(t[i] == Event::Told(step.notices[i]));
                    } else {
                        assert(t[i - 1] == Event::Told(step.notices.last()));
                    }
                }
                assert forall|i: int| 0 <= i < t.len() && #[trigger] closed(t[i]) is Some
                    implies (if i == 0 {
                        answered matches Some(query) && stage_of(query) == closed(t[i])
                    } else {
                        worked(t[i - 1]) == closed(t[i])
                    }) by {
                    assert(t[i] == Event::Told(step.notices[i]));
                }
            } else {
                let reply = replies[0];
                let (next_flow, next_step) = seed_step(flow, reply);
                lemma_seed_step(flow, reply);
                lemma_moves_are_framed(flow.request, flow, reply);
                lemma_trace_frames(next_flow, next_step, replies.drop_first(), Some(query));
                let rest = trace_from(next_flow, next_step, replies.drop_first());
                assert(t =~= head + (asked + rest));
                assert(run_from(flow, step, replies) == run_from(next_flow, next_step, replies.drop_first()));
                if next_step.notices.len() > 0 {
                    assert(rest[0] == Event::Told(next_step.notices[0]));
                }
                assert forall|i: int| 0 <= i < t.len() && #[trigger] failed(t[i]) is Some
                    implies i == t.len() - 1 && !(run_from(flow, step, replies) matches Some(Ok(_))) by {
                    if i < h {
                        assert(t[i] == Event::Told(step.notices[i]));
                    } else if i > h {
                        assert(t[i] == rest[i - h - 1]);
                    }
                }
                assert forall|i: int| 0 <= i < t.len() && #[trigger] opened(t[i]) is Some
                    implies i + 1 < t.len() && worked(t[i + 1]) == opened(t[i]) by {
                    if i < h {
                        assert(t[i] == Event::Told(step.notices[i]));
                    } else if i > h {
                        assert(t[i] == rest[i - h - 1]);
                        assert(t[i + 1] == rest[i - h]);
                    }
                }
                assert forall|i: int| 0 <= i < t.len() && #[trigger] worked(t[i]) is Some
                    implies 0 < i && opened(t[i - 1]) == worked(t[i])
                    && (i + 1 < t.len() ==> closed(t[i + 1]) == worked(t[i])) by {
                    if i < h {
                        assert(t[i] == Event::Told(step.notices[i]));
                    } else if i == h {
                        assert(t[i - 1] == Event::Told(step.notices.last()));
                        if i + 1 < t.len() {
                            assert(t[i + 1] == rest[0]);
                        }
                    } else {
                        assert(t[i] == rest[i - h - 1]);
                        assert(t[i - 1] == rest[i - h - 2]);
                        if i + 1 < t.len() {
                            assert(t[i + 1] == rest[i - h]);
                        }
                    }
                }
                assert forall|i: int| 0 <= i < t.len() && #[trigger] closed(t[i]) is Some
                    implies (if i == 0 {
                        answered matches Some(query) && stage_of(query) == closed(t[i])
                    } else {
                        worked(t[i - 1]) == closed(t[i])
                    }) by {
                    if i < h {
                        assert(t[i] == Event::Told(step.notices[i]));
                    } else if i > h {
                        assert(t[i] == rest[i - h - 1]);
                        if i > h + 1 {
                            assert(t[i - 1] == rest[i - h - 2]);
                        }
                    }
                }
            }
        },
    }
}

/// Law: whatever the ports answer, the events of a run frame each stage's
/// work. A stage is opened right before its work is asked for; that work is
/// closed, with success or failure, right after the answer, by the same
/// stage; nothing is closed that was not worked on; a failure is the last
/// thing shown, and the run then does not succeed.
pub proof fn law_runs_frame_stage_work(request: NewProjectRequest, replies: Seq<Reply>)
    ensures
        ({
            let t = run_trace(request, replies);
            &&& forall|i: int| 0 <= i < t.len() && #[trigger] opened(t[i]) is Some
                ==> i + 1 < t.len() && worked(t[i + 1]) == opened(t[i])
            &&& forall|i: int| 0 <= i < t.len() && #[trigger] worked(t[i]) is Some
                ==> 0 < i && opened(t[i - 1]) == worked(t[i])
                && (i + 1 < t.len() ==> closed(t[i + 1]) == worked(t[i]))
            &&& forall|i: int| 0 <= i < t.len() && #[trigger] closed(t[i]) is Some
                ==> 0 < i && worked(t[i - 1]) == closed(t[i])
            &&& forall|i: int| 0 <= i < t.len() && #[trigger] failed(t[i]) is Some
                ==> i == t.len() - 1 && !(run_outcome(request, replies) matches Some(Ok(_)))
        }),
{
    let (flow, step) = start_flow(request);
    lemma_start_flow(request);
    lemma_moves_are_framed(request, flow, Reply::Done);
    lemma_trace_frames(flow, step, replies, None);
}

/// The work a run with options `options` has the seeder do when nothing
/// fails, in order: check the tools, scaffold the project, apply the
/// architecture template, integrate the UI library, and apply the styles
/// when some are chosen.
pub open spec fn seeding_plan(options: ResolvedOptions) -> Seq<Query> {
    seq![
        Query::EnsureRequiredTools(options.package_manager),
        Query::ScaffoldAngularProject(options),
        Query::ApplyArchitectureTemplate(options.architecture),
        Query::ApplyUiIntegration(options.ui, options.package_manager),
    ] + if options.styles != StylesChoice::NoStyles {
        seq![Query::ApplyStyles(options.styles, options.package_manager)]
    } else {
        Seq::<Query>::empty()
    }
}

/// How much of the seeding plan is done when a query is asked.
pub open spec fn plan_position(query: Query) -> int {
    match query {
        Query::ProjectExists | Query::ScaffoldAngularProject(_) => 1,
        Query::ProjectDir | Query::ApplyArchitectureTemplate(_) => 2,
        Query::ApplyUiIntegration(_, _) => 3,
        Query::ApplyStyles(_, _) => 4,
        _ => 0,
    }
}

/// The work a run from `(flow, step)` asks the seeder for, in order, when its
/// queries get the answers `replies`.
pub open spec fn work_from(flow: NewProjectFlow, step: StepView, replies: Seq<Reply>) -> Seq<Query>
    decreases replies.len(),
{
    match step.next {
        Next::Finish(_) => Seq::<Query>::empty(),
        Next::Ask(query) => (if stage_of(query) is Some {
            seq![query]
        } else {
            Seq::<Query>::empty()
        }) + if replies.len() == 0 || !answers(replies[0], query) {
            Seq::<Query>::empty()
        } else {
            let (next_flow, next_step) = seed_step(flow, replies[0]);
            work_from(next_flow, next_step, replies.drop_first())
        },
    }
}

/// The work a whole run for `request` with `replies` asks the seeder for.
pub open spec fn run_work(request: NewProjectRequest, replies: Seq<Reply>) -> Seq<Query> {
    let (flow, step) = start_flow(request);
    work_from(flow, step, replies)
}

/// Whether a move asks for work of the plan where the plan stands.
pub open spec fn asks_planned_work(flow: NewProjectFlow, step: StepView) -> bool {
    step.next matches Next::Ask(query) ==> (stage_of(query) is Some ==> {
        &&& options_known(flow)
        &&& plan_position(query) < seeding_plan(resolved_options(flow)).len()
        &&& query == seeding_plan(resolved_options(flow))[plan_position(query)]
    })
}

/// Whether the work a flow waits for, if any, is the work of the plan where
/// the plan stands.
pub open spec fn waits_for_planned_work(flow: NewProjectFlow) -> bool {
    flow.pending matches Some(query) ==> (stage_of(query) is Some ==> {
        &&& options_known(flow)
        &&& plan_position(query) < seeding_plan(resolved_options(flow)).len()
        &&& query == seeding_plan(resolved_options(flow))[plan_position(query)]
    })
}

/// One move keeps settled options, asks for planned work, advances the plan
/// by the work it answered, and ends a run successfully only after the
/// plan's last work.
proof fn lemma_move_follows_plan(flow: NewProjectFlow, reply: Reply)
    requires
        flow.wf(),
        flow.pending is Some,
        answers(reply, flow.pending.unwrap()),
        waits_for_planned_work(flow),
    ensures
        ({
            let (next_flow, next_step) = seed_step(flow, reply);
            let query = flow.pending.unwrap();
            &&& options_known(flow) ==> options_known(next_flow)
                && resolved_options(next_flow) == resolved_options(flow)
            &&& asks_planned_work(next_flow, next_step)
            &&& next_step.next matches Next::Ask(next) ==> plan_position(next)
                == plan_position(query) + if stage_of(query) is Some { 1int } else { 0int }
            &&& next_step.next matches Next::Finish(Ok(_)) ==> stage_of(query) is Some && options_known(flow)
                && plan_position(query) == seeding_plan(resolved_options(flow)).len() - 1
        }),
{
    let options = resolved_options(flow);
    let plan = seeding_plan(options);
    let (next_flow, next_step) = seed_step(flow, reply);
    if options_known(flow) {
        assert(plan[0] == Query::EnsureRequiredTools(options.package_manager));
        assert(plan[1] == Query::ScaffoldAngularProject(options));
        assert(plan[2] == Query::ApplyArchitectureTemplate(options.architecture));
        assert(plan[3] == Query::ApplyUiIntegration(options.ui, options.package_manager));
        if options.styles != StylesChoice::NoStyles {
            assert(plan.len() == 5);
            assert(plan[4] == Query::ApplyStyles(options.styles, options.package_manager));
        } else {
            assert(plan.len() == 4);
        }
    }
    match flow.pending.unwrap() {
        Query::SelectPackageManager | Query::SelectArchitecture | Query::SelectUi | Query::SelectStyles => {
            if next_step.next matches Next::Ask(next) && stage_of(next) is Some {
                let settled = resolved_options(next_flow);
                assert(seeding_plan(settled)[0] == Query::EnsureRequiredTools(settled.package_manager));
            }
        },
        Query::IsCi | Query::IsInteractiveTerminal => {},
        _ => {},
    }
}

/// The first move of a run asks for planned work.
proof fn lemma_start_follows_plan(request: NewProjectRequest)
    ensures
        asks_planned_work(start_flow(request).0, start_flow(request).1),
{
    let (flow, step) = start_flow(request);
    let settled = resolved_options(flow);
    assert(seeding_plan(settled)[0] == Query::EnsureRequiredTools(settled.package_manager));
}

#[verifier::spinoff_prover]
proof fn lemma_work_follows_plan(flow: NewProjectFlow, step: StepView, replies: Seq<Reply>) -> (options: ResolvedOptions)
    requires
        flow.wf(),
        step.next matches Next::Ask(query) ==> flow.pending == Some(query),
        asks_planned_work(flow, step),
    ensures
        options_known(flow) ==> options == resolved_options(flow),
        step.next matches Next::Ask(query) ==> {
            let plan = seeding_plan(options).skip(plan_position(query));
            &&& work_from(flow, step, replies).is_prefix_of(plan)
            &&& run_from(flow, step, replies) matches Some(Ok(_)) ==> work_from(flow, step, replies) == plan
        },
    decreases replies.len(),
{
    match step.next {
        Next::Finish(_) => resolved_options(flow),
        Next::Ask(query) => {
            let here = if stage_of(query) is Some { seq![query] } else { Seq::<Query>::empty() };
            if replies.len() == 0 || !answers(replies[0], query) {
                let options = resolved_options(flow);
                let plan = seeding_plan(options).skip(plan_position(query));
                assert(work_from(flow, step, replies) =~= here);
                if stage_of(query) is Some {
                    assert(plan[0] == query);
                }
                assert(work_from(flow, step, replies).is_prefix_of(plan));
                options
            } else {
                let reply = replies[0];
                let (next_flow, next_step) = seed_step(flow, reply);
                lemma_seed_step(flow, reply);
                lemma_move_follows_plan(flow, reply);
                let options = lemma_work_follows_plan(next_flow, next_step, replies.drop_first());
                let rest = work_from(next_flow, next_step, replies.drop_first());
                let plan = seeding_plan(options).skip(plan_position(query));
                assert(work_from(flow, step, replies) =~= here + rest);
                assert(run_from(flow, step, replies) == run_from(next_flow, next_step, replies.drop_first()));
                if stage_of(query) is Some {
                    assert(options == resolved_options(flow));
                    assert(plan[0] == query);
                }
                match next_step.next {
                    Next::Ask(next) => {
                        let later = seeding_plan(options).skip(plan_position(next));
                        if stage_of(query) is Some {
                            assert(later =~= plan.drop_first());
                            assert(plan =~= here + later);
                        } else {
                            assert(later =~= plan);
                            assert(here + rest =~= rest);
                        }
                    },
                    Next::Finish(result) => {
                        assert(rest =~= Seq::<Query>::empty());
                        if stage_of(query) is Some {
                            assert(options == resolved_options(flow));
                        }
                        if result is Ok {
                            assert(plan =~= here);
                        }
                    },
                }
                assert(work_from(flow, step, replies).is_prefix_of(plan));
                options
            }
        },
    }
}

/// Law: whatever the ports answer, the work a run asks the seeder for is a
/// beginning of the seeding plan of its options (tools, scaffolding,
/// template, UI integration, then the styles when some are chosen), in that
/// order and with those options, and all of it when the run succeeds. With
/// [`law_runs_frame_stage_work`] (a failure is the last thing shown), the
/// work stops at the first that fails.
pub proof fn law_work_follows_the_plan(request: NewProjectRequest, replies: Seq<Reply>)
    ensures
        exists|options: ResolvedOptions| {
            &&& #[trigger] run_work(request, replies).is_prefix_of(seeding_plan(options))
            &&& run_outcome(request, replies) matches Some(Ok(_)) ==> run_work(request, replies) == seeding_plan(options)
        },
{
    let (flow, step) = start_flow(request);
    lemma_start_flow(request);
    lemma_start_follows_plan(request);
    let options = lemma_work_follows_plan(flow, step, replies);
    let query = step.next->Ask_0;
    assert(plan_position(query) == 0);
    assert(seeding_plan(options).skip(0) =~= seeding_plan(options));
    assert(run_work(request, replies).is_prefix_of(seeding_plan(options)));
}

/// Law: an option settled at a prompt is the answer given. Answering the
/// question for the package manager, the architecture, the UI library or
/// the styles with a choice sets that option of the run to the choice and
/// leaves the options already settled as they were.
pub proof fn law_prompt_answers_are_kept(
    flow: NewProjectFlow,
    package_manager: PackageManager,
    architecture: ArchitectureProfile,
    ui: UiChoice,
    styles: StylesChoice,
)
    requires
        flow.wf(),
    ensures
        flow.pending == Some(Query::SelectPackageManager) ==> {
            let next = seed_step(flow, Reply::PackageManager(package_manager)).0;
            &&& next.package_manager == Some(package_manager)
            &&& next.architecture == flow.architecture && next.ui == flow.ui && next.styles == flow.styles
        },
        flow.pending == Some(Query::SelectArchitecture) ==> {
            let next = seed_step(flow, Reply::Architecture(architecture)).0;
            &&& next.architecture == Some(architecture)
            &&& next.package_manager == flow.package_manager && next.ui == flow.ui && next.styles == flow.styles
        },
        flow.pending == Some(Query::SelectUi) ==> {
            let next = seed_step(flow, Reply::Ui(ui)).0;
            &&& next.ui == Some(ui)
            &&& next.package_manager == flow.package_manager && next.architecture == flow.architecture
                && next.styles == flow.styles
        },
        flow.pending == Some(Query::SelectStyles) ==> {
            let next = seed_step(flow, Reply::Styles(styles)).0;
            &&& next.styles == Some(styles)
            &&& next.package_manager == flow.package_manager && next.architecture == flow.architecture
                && next.ui == flow.ui
        },
{
}

/// Law: an option, once settled, stays settled to the same value for the
/// rest of the run, whatever the ports answer; so the options a run seeds
/// with are the request's, else the prompts' answers, else the defaults of a
/// confirmed request.
pub proof fn law_settled_options_stay(flow: NewProjectFlow, reply: Reply)
    requires
        flow.wf(),
        flow.pending is Some,
        answers(reply, flow.pending.unwrap()),
    ensures
        ({
            let next = seed_step(flow, reply).0;
            &&& flow.package_manager is Some ==> next.package_manager == flow.package_manager
            &&& flow.architecture is Some ==> next.architecture == flow.architecture
            &&& flow.ui is Some ==> next.ui == flow.ui
            &&& flow.styles is Some ==> next.styles == flow.styles
            &&& next.request == flow.request
        }),
{
}

} // verus!
