use vstd::prelude::*;

use crate::application::ports::Environment;
use crate::application::ports::ProgressReporter;
use crate::application::ports::Seeder;
use crate::application::ports::UiSelector;
use crate::domain::project::ArchitectureProfile;
use crate::domain::project::NewProjectRequest;
use crate::domain::project::PackageManager;
use crate::domain::project::ResolvedOptions;
use crate::domain::project::UiChoice;
use crate::domain::styles_choice::StylesChoice;
use crate::error::SeedError;

verus! {

// ---------------------------------------------------------------------------
// Stages and what is shown for them
// ---------------------------------------------------------------------------

/// A stage of seeding: announced before its work, then closed by a success
/// or a failure notice.
#[derive(Debug, Clone, Copy, PartialEq, Eq, Structural)]
pub enum Stage {
    Preflight,
    Scaffold,
    Template,
    UiSetup,
    Styles,
}

pub open spec fn stage_title(stage: Stage) -> Seq<char> {
    match stage {
        Stage::Preflight => "preflight"@,
        Stage::Scaffold => "scaffold"@,
        Stage::Template => "template"@,
        Stage::UiSetup => "ui setup"@,
        Stage::Styles => "styles"@,
    }
}

pub open spec fn stage_start_text(stage: Stage) -> Seq<char> {
    match stage {
        Stage::Preflight => "checking required tools"@,
        Stage::Scaffold => "creating Angular project"@,
        Stage::Template => "applying architecture template"@,
        Stage::UiSetup => "applying selected UI integration"@,
        Stage::Styles => "applying styles setup"@,
    }
}

pub open spec fn stage_ok_text(stage: Stage) -> Seq<char> {
    match stage {
        Stage::Preflight => "required tools look good"@,
        Stage::Scaffold => "Angular project created"@,
        Stage::Template => "architecture template applied"@,
        Stage::UiSetup => "UI integration completed"@,
        Stage::Styles => "styles setup completed"@,
    }
}

pub open spec fn stage_error_text(stage: Stage) -> Seq<char> {
    match stage {
        Stage::Preflight => "required tool check failed"@,
        Stage::Scaffold => "Angular scaffolding failed"@,
        Stage::Template => "template setup failed"@,
        Stage::UiSetup => "UI integration failed"@,
        Stage::Styles => "styles setup failed"@,
    }
}

impl Stage {
    pub fn title(&self) -> (text: &'static str)
        ensures
            text@ == stage_title(*self),
    {
        match self {
            Stage::Preflight => "preflight",
            Stage::Scaffold => "scaffold",
            Stage::Template => "template",
            Stage::UiSetup => "ui setup",
            Stage::Styles => "styles",
        }
    }

    pub fn start_message(&self) -> (text: &'static str)
        ensures
            text@ == stage_start_text(*self),
    {
        match self {
            Stage::Preflight => "checking required tools",
            Stage::Scaffold => "creating Angular project",
            Stage::Template => "applying architecture template",
            Stage::UiSetup => "applying selected UI integration",
            Stage::Styles => "applying styles setup",
        }
    }

    pub fn ok_message(&self) -> (text: &'static str)
        ensures
            text@ == stage_ok_text(*self),
    {
        match self {
            Stage::Preflight => "required tools look good",
            Stage::Scaffold => "Angular project created",
            Stage::Template => "architecture template applied",
            Stage::UiSetup => "UI integration completed",
            Stage::Styles => "styles setup completed",
        }
    }

    pub fn error_message(&self) -> (text: &'static str)
        ensures
            text@ == stage_error_text(*self),
    {
        match self {
            Stage::Preflight => "required tool check failed",
            Stage::Scaffold => "Angular scaffolding failed",
            Stage::Template => "template setup failed",
            Stage::UiSetup => "UI integration failed",
            Stage::Styles => "styles setup failed",
        }
    }
}

// ---------------------------------------------------------------------------
// The conversation between the flow and the ports
// ---------------------------------------------------------------------------

/// Something the flow wants shown; it needs no answer.
#[derive(Debug, Clone, Copy, PartialEq, Eq, Structural)]
pub enum Notice {
    ShowBanner,
    StageStart(Stage),
    StageOk(Stage),
    StageError(Stage),
    /// The closing summary of a project created with these options.
    Summary(ResolvedOptions),
}

/// Something the flow needs to know or to have done before it can go on.
/// The project name and, once known, the project directory go with every
/// query that needs them.
#[derive(Debug, Clone, Copy, PartialEq, Eq, Structural)]
pub enum Query {
    SelectPackageManager,
    SelectArchitecture,
    SelectUi,
    SelectStyles,
    IsCi,
    IsInteractiveTerminal,
    EnsureRequiredTools(PackageManager),
    ProjectExists,
    ScaffoldAngularProject(ResolvedOptions),
    /// The directory the project was created in.
    ProjectDir,
    ApplyArchitectureTemplate(ArchitectureProfile),
    ApplyUiIntegration(UiChoice, PackageManager),
    ApplyStyles(StylesChoice, PackageManager),
}

/// The answer to a [`Query`].
#[derive(Debug)]
pub enum Reply {
    PackageManager(PackageManager),
    Architecture(ArchitectureProfile),
    Ui(UiChoice),
    Styles(StylesChoice),
    Flag(bool),
    Done,
    Dir(String),
    Failed(SeedError),
}

/// What the flow does after its notices: ask, or end with a result.
#[derive(Debug)]
pub enum Next {
    Ask(Query),
    Finish(Result<(), SeedError>),
}

/// One move of the flow: notices to show, in order, then what comes next.
#[derive(Debug)]
pub struct Step {
    pub notices: Vec<Notice>,
    pub next: Next,
}

pub struct StepView {
    pub notices: Seq<Notice>,
    pub next: Next,
}

impl View for Step {
    type V = StepView;

    open spec fn view(&self) -> StepView {
        StepView { notices: self.notices@, next: self.next }
    }
}

/// Whether `reply` is an answer of the kind `query` asks for.
pub open spec fn answers(reply: Reply, query: Query) -> bool {
    match query {
        Query::SelectPackageManager => reply is PackageManager || reply is Failed,
        Query::SelectArchitecture => reply is Architecture || reply is Failed,
        Query::SelectUi => reply is Ui || reply is Failed,
        Query::SelectStyles => reply is Styles || reply is Failed,
        Query::IsCi | Query::IsInteractiveTerminal | Query::ProjectExists => reply is Flag,
        Query::ProjectDir => reply is Dir || reply is Failed,
        _ => reply is Done || reply is Failed,
    }
}

/// The stage whose work a query asks for, if it is one.
pub open spec fn stage_of(query: Query) -> Option<Stage> {
    match query {
        Query::EnsureRequiredTools(_) => Some(Stage::Preflight),
        Query::ScaffoldAngularProject(_) => Some(Stage::Scaffold),
        Query::ApplyArchitectureTemplate(_) => Some(Stage::Template),
        Query::ApplyUiIntegration(_, _) => Some(Stage::UiSetup),
        Query::ApplyStyles(_, _) => Some(Stage::Styles),
        _ => None,
    }
}

/// Queries come in this order, each at most once: the rank only goes down.
pub open spec fn query_rank(query: Query) -> nat {
    match query {
        Query::SelectPackageManager => 13,
        Query::SelectArchitecture => 12,
        Query::SelectUi => 11,
        Query::SelectStyles => 10,
        Query::IsCi => 9,
        Query::IsInteractiveTerminal => 8,
        Query::EnsureRequiredTools(_) => 7,
        Query::ProjectExists => 6,
        Query::ScaffoldAngularProject(_) => 5,
        Query::ProjectDir => 4,
        Query::ApplyArchitectureTemplate(_) => 3,
        Query::ApplyUiIntegration(_, _) => 2,
        Query::ApplyStyles(_, _) => 1,
    }
}

// ---------------------------------------------------------------------------
// The flow of a new project
// ---------------------------------------------------------------------------

/// The state of one run of `ngseed new`: the request, the options settled so
/// far, the project directory once known, and the query awaiting an answer
/// (none once the run has ended).
pub struct NewProjectFlow {
    pub request: NewProjectRequest,
    pub package_manager: Option<PackageManager>,
    pub architecture: Option<ArchitectureProfile>,
    pub ui: Option<UiChoice>,
    pub styles: Option<StylesChoice>,
    pub project_dir: Option<String>,
    pub pending: Option<Query>,
}

pub open spec fn flow_rank(flow: NewProjectFlow) -> nat {
    match flow.pending {
        Some(query) => query_rank(query),
        None => 0,
    }
}

pub open spec fn options_known(flow: NewProjectFlow) -> bool {
    &&& flow.package_manager is Some
    &&& flow.architecture is Some
    &&& flow.ui is Some
    &&& flow.styles is Some
}

pub open spec fn resolved_options(flow: NewProjectFlow) -> ResolvedOptions {
    ResolvedOptions {
        ui: flow.ui.unwrap(),
        styles: flow.styles.unwrap(),
        package_manager: flow.package_manager.unwrap(),
        architecture: flow.architecture.unwrap(),
        skip_install: flow.request.skip_install,
    }
}

/// The options a request settles without asking: what it gives, and, when it
/// is confirmed up front (`yes`), npm, the clean architecture, no UI library
/// and no styles for the rest.
pub open spec fn initial_flow(request: NewProjectRequest) -> NewProjectFlow {
    NewProjectFlow {
        package_manager: match request.package_manager {
            Some(pm) => Some(pm),
            None => if request.yes { Some(PackageManager::Npm) } else { None },
        },
        architecture: match request.architecture {
            Some(arch) => Some(arch),
            None => if request.yes { Some(ArchitectureProfile::Clean) } else { None },
        },
        ui: match request.ui {
            Some(ui) => Some(ui),
            None => if request.yes { Some(UiChoice::NoUi) } else { None },
        },
        styles: match request.styles {
            Some(styles) => Some(styles),
            None => if request.yes { Some(StylesChoice::NoStyles) } else { None },
        },
        project_dir: None,
        pending: None,
        request: request,
    }
}

pub open spec fn asking(flow: NewProjectFlow, query: Query, notices: Seq<Notice>) -> (NewProjectFlow, StepView) {
    (NewProjectFlow { pending: Some(query), ..flow }, StepView { notices, next: Next::Ask(query) })
}

pub open spec fn finishing(flow: NewProjectFlow, notices: Seq<Notice>, result: Result<(), SeedError>) -> (NewProjectFlow, StepView) {
    (NewProjectFlow { pending: None, ..flow }, StepView { notices, next: Next::Finish(result) })
}

/// Announce the preflight stage and ask for the tools to be checked.
pub open spec fn preflight(flow: NewProjectFlow, notices: Seq<Notice>) -> (NewProjectFlow, StepView) {
    asking(
        flow,
        Query::EnsureRequiredTools(flow.package_manager.unwrap()),
        notices.push(Notice::StageStart(Stage::Preflight)),
    )
}

/// Ask for the first option still open (package manager, architecture, UI,
/// styles); with all settled, go to preflight at once when the request was
/// confirmed up front, else find out first whether the banner is shown.
pub open spec fn resolving(flow: NewProjectFlow) -> (NewProjectFlow, StepView) {
    if flow.package_manager is None {
        asking(flow, Query::SelectPackageManager, seq![])
    } else if flow.architecture is None {
        asking(flow, Query::SelectArchitecture, seq![])
    } else if flow.ui is None {
        asking(flow, Query::SelectUi, seq![])
    } else if flow.styles is None {
        asking(flow, Query::SelectStyles, seq![])
    } else if flow.request.yes {
        preflight(flow, seq![])
    } else {
        asking(flow, Query::IsCi, seq![])
    }
}

/// The first move of a run.
pub open spec fn start_flow(request: NewProjectRequest) -> (NewProjectFlow, StepView) {
    resolving(initial_flow(request))
}

/// The end of a stage's work: on success close it and go on with `then`, on
/// failure report it and end with the failure.
pub open spec fn stage_done(
    flow: NewProjectFlow,
    stage: Stage,
    reply: Reply,
    then: (NewProjectFlow, StepView),
) -> (NewProjectFlow, StepView) {
    match reply {
        Reply::Failed(e) => finishing(flow, seq![Notice::StageError(stage)], Err(e)),
        _ => then,
    }
}

/// The move of a run on the answer to its pending query. (An answer of the
/// wrong kind would end the run; [`NewProjectFlow::advance`] admits none.)
pub open spec fn seed_step(flow: NewProjectFlow, reply: Reply) -> (NewProjectFlow, StepView) {
    let options = resolved_options(flow);
    let pm = flow.package_manager.unwrap();
    match flow.pending.unwrap() {
        Query::SelectPackageManager => match reply {
            Reply::PackageManager(pm) => resolving(NewProjectFlow { package_manager: Some(pm), ..flow }),
            Reply::Failed(e) => finishing(flow, seq![], Err(e)),
            _ => finishing(flow, seq![], Ok(())),
        },
        Query::SelectArchitecture => match reply {
            Reply::Architecture(arch) => resolving(NewProjectFlow { architecture: Some(arch), ..flow }),
            Reply::Failed(e) => finishing(flow, seq![], Err(e)),
            _ => finishing(flow, seq![], Ok(())),
        },
        Query::SelectUi => match reply {
            Reply::Ui(ui) => resolving(NewProjectFlow { ui: Some(ui), ..flow }),
            Reply::Failed(e) => finishing(flow, seq![], Err(e)),
            _ => finishing(flow, seq![], Ok(())),
        },
        Query::SelectStyles => match reply {
            Reply::Styles(styles) => resolving(NewProjectFlow { styles: Some(styles), ..flow }),
            Reply::Failed(e) => finishing(flow, seq![], Err(e)),
            _ => finishing(flow, seq![], Ok(())),
        },
        Query::IsCi => if reply == Reply::Flag(false) {
            asking(flow, Query::IsInteractiveTerminal, seq![])
        } else {
            preflight(flow, seq![])
        },
        Query::IsInteractiveTerminal => if reply == Reply::Flag(true) {
            preflight(flow, seq![Notice::ShowBanner])
        } else {
            preflight(flow, seq![])
        },
        Query::EnsureRequiredTools(_) => stage_done(
            flow,
            Stage::Preflight,
            reply,
            asking(flow, Query::ProjectExists, seq![Notice::StageOk(Stage::Preflight)]),
        ),
        Query::ProjectExists => if reply == Reply::Flag(false) {
            asking(
                flow,
                Query::ScaffoldAngularProject(options),
                seq![Notice::StageStart(Stage::Scaffold)],
            )
        } else {
            finishing(
                flow,
                seq![],
                Err(SeedError::ProjectExists { project_name: flow.request.project_name }),
            )
        },
        Query::ScaffoldAngularProject(_) => stage_done(
            flow,
            Stage::Scaffold,
            reply,
            asking(flow, Query::ProjectDir, seq![Notice::StageOk(Stage::Scaffold)]),
        ),
        Query::ProjectDir => match reply {
            Reply::Dir(dir) => asking(
                NewProjectFlow { project_dir: Some(dir), ..flow },
                Query::ApplyArchitectureTemplate(options.architecture),
                seq![Notice::StageStart(Stage::Template)],
            ),
            Reply::Failed(e) => finishing(flow, seq![], Err(e)),
            _ => finishing(flow, seq![], Ok(())),
        },
        Query::ApplyArchitectureTemplate(_) => stage_done(
            flow,
            Stage::Template,
            reply,
            asking(
                flow,
                Query::ApplyUiIntegration(options.ui, pm),
                seq![Notice::StageOk(Stage::Template), Notice::StageStart(Stage::UiSetup)],
            ),
        ),
        Query::ApplyUiIntegration(_, _) => stage_done(
            flow,
            Stage::UiSetup,
            reply,
            if options.styles != StylesChoice::NoStyles {
                asking(
                    flow,
                    Query::ApplyStyles(options.styles, pm),
                    seq![Notice::StageOk(Stage::UiSetup), Notice::StageStart(Stage::Styles)],
                )
            } else {
                finishing(flow, seq![Notice::StageOk(Stage::UiSetup), Notice::Summary(options)], Ok(()))
            },
        ),
        Query::ApplyStyles(_, _) => stage_done(
            flow,
            Stage::Styles,
            reply,
            finishing(flow, seq![Notice::StageOk(Stage::Styles), Notice::Summary(options)], Ok(())),
        ),
    }
}

fn no_notices() -> (notices: Vec<Notice>)
    ensures
        notices@ == Seq::<Notice>::empty(),
{
    Vec::new()
}

fn one_notice(first: Notice) -> (notices: Vec<Notice>)
    ensures
        notices@ == seq![first],
{
    let mut notices = Vec::new();
    notices.push(first);
    assert(notices@ =~= seq![first]);
    notices
}

fn two_notices(first: Notice, second: Notice) -> (notices: Vec<Notice>)
    ensures
        notices@ == seq![first, second],
{
    let mut notices = Vec::new();
    notices.push(first);
    notices.push(second);
    assert(notices@ =~= seq![first, second]);
    notices
}

impl NewProjectFlow {
    /// The options given on the command line are kept, a confirmed request
    /// has all of them and is never asked whether the banner is shown, and
    /// the pending query finds what it needs settled.
    pub open spec fn wf(&self) -> bool {
        &&& (self.request.package_manager matches Some(pm) ==> self.package_manager == Some(pm))
        &&& (self.request.architecture matches Some(arch) ==> self.architecture == Some(arch))
        &&& (self.request.ui matches Some(ui) ==> self.ui == Some(ui))
        &&& (self.request.styles matches Some(styles) ==> self.styles == Some(styles))
        &&& (self.request.yes ==> options_known(*self))
        &&& match self.pending {
            None => true,
            Some(query) => match query {
                Query::SelectPackageManager => self.package_manager is None,
                Query::SelectArchitecture => self.package_manager is Some && self.architecture is None,
                Query::SelectUi => {
                    &&& self.package_manager is Some
                    &&& self.architecture is Some
                    &&& self.ui is None
                },
                Query::SelectStyles => {
                    &&& self.package_manager is Some
                    &&& self.architecture is Some
                    &&& self.ui is Some
                    &&& self.styles is None
                },
                Query::IsCi | Query::IsInteractiveTerminal => options_known(*self) && !self.request.yes,
                _ => {
                    &&& options_known(*self)
                    &&& query_rank(query) <= 3 ==> self.project_dir is Some
                },
            },
        }
    }

    fn ask(&mut self, query: Query, notices: Vec<Notice>) -> (step: Step)
        ensures
            (*final(self), step@) == asking(*old(self), query, notices@),
    {
        self.pending = Some(query);
        Step { notices, next: Next::Ask(query) }
    }

    fn finish(&mut self, notices: Vec<Notice>, result: Result<(), SeedError>) -> (step: Step)
        ensures
            (*final(self), step@) == finishing(*old(self), notices@, result),
    {
        self.pending = None;
        Step { notices, next: Next::Finish(result) }
    }

    /// The options of the run, once all are settled.
    pub fn options(&self) -> (options: ResolvedOptions)
        requires
            options_known(*self),
        ensures
            options == resolved_options(*self),
    {
        ResolvedOptions {
            ui: self.ui.unwrap(),
            styles: self.styles.unwrap(),
            package_manager: self.package_manager.unwrap(),
            architecture: self.architecture.unwrap(),
            skip_install: self.request.skip_install,
        }
    }

    pub fn project_name(&self) -> (name: &str)
        ensures
            name@ == self.request.project_name@,
    {
        self.request.project_name.as_str()
    }

    pub fn project_dir(&self) -> (dir: &str)
        requires
            self.project_dir is Some,
        ensures
            dir@ == self.project_dir.unwrap()@,
    {
        self.project_dir.as_ref().unwrap().as_str()
    }

    fn preflight(&mut self, notices: Vec<Notice>) -> (step: Step)
        requires
            old(self).package_manager is Some,
        ensures
            (*final(self), step@) == preflight(*old(self), notices@),
    {
        let mut notices = notices;
        notices.push(Notice::StageStart(Stage::Preflight));
        let pm = self.package_manager.unwrap();
        self.ask(Query::EnsureRequiredTools(pm), notices)
    }

    /// Ask for the first open option, or move on once all are settled.
    fn resolve_options(&mut self) -> (step: Step)
        ensures
            (*final(self), step@) == resolving(*old(self)),
    {
        if self.package_manager.is_none() {
            self.ask(Query::SelectPackageManager, no_notices())
        } else if self.architecture.is_none() {
            self.ask(Query::SelectArchitecture, no_notices())
        } else if self.ui.is_none() {
            self.ask(Query::SelectUi, no_notices())
        } else if self.styles.is_none() {
            self.ask(Query::SelectStyles, no_notices())
        } else if self.request.yes {
            self.preflight(no_notices())
        } else {
            self.ask(Query::IsCi, no_notices())
        }
    }

    /// Begin a run: settle what the request settles and make the first move.
    pub fn start(request: NewProjectRequest) -> (result: (NewProjectFlow, Step))
        ensures
            (result.0, result.1@) == start_flow(request),
            result.0.wf(),
            result.1.next matches Next::Ask(query) && result.0.pending == Some(query),
    {
        let yes = request.yes;
        let package_manager = match request.package_manager {
            Some(pm) => Some(pm),
            None => if yes { Some(PackageManager::Npm) } else { None },
        };
        let architecture = match request.architecture {
            Some(arch) => Some(arch),
            None => if yes { Some(ArchitectureProfile::Clean) } else { None },
        };
        let ui = match request.ui {
            Some(ui) => Some(ui),
            None => if yes { Some(UiChoice::NoUi) } else { None },
        };
        let styles = match request.styles {
            Some(styles) => Some(styles),
            None => if yes { Some(StylesChoice::NoStyles) } else { None },
        };
        let mut flow = NewProjectFlow {
            request,
            package_manager,
            architecture,
            ui,
            styles,
            project_dir: None,
            pending: None,
        };
        let step = flow.resolve_options();
        (flow, step)
    }

    fn close_stage(&mut self, stage: Stage, reply: Reply, then: Vec<Notice>, query: Query) -> (step: Step)
        ensures
            (*final(self), step@) == stage_done(
                *old(self),
                stage,
                reply,
                asking(*old(self), query, then@),
            ),
    {
        match reply {
            Reply::Failed(e) => self.finish(one_notice(Notice::StageError(stage)), Err(e)),
            _ => self.ask(query, then),
        }
    }

    /// Take the answer to the pending query and make the next move.
    pub fn advance(&mut self, reply: Reply) -> (step: Step)
        requires
            old(self).wf(),
            old(self).pending is Some,
            answers(reply, old(self).pending.unwrap()),
        ensures
            (*final(self), step@) == seed_step(*old(self), reply),
            final(self).wf(),
            flow_rank(*final(self)) < flow_rank(*old(self)),
            match step.next {
                Next::Ask(query) => final(self).pending == Some(query),
                Next::Finish(_) => final(self).pending is None,
            },
            forall|i: int|
                0 <= i < step.notices@.len() && step.notices@[i] is Summary
                    ==> final(self).project_dir is Some,
    {
        let query = self.pending.unwrap();
        match query {
            Query::SelectPackageManager => match reply {
                Reply::PackageManager(pm) => {
                    self.package_manager = Some(pm);
                    self.resolve_options()
                },
                Reply::Failed(e) => self.finish(no_notices(), Err(e)),
                _ => vstd::pervasive::unreached(),
            },
            Query::SelectArchitecture => match reply {
                Reply::Architecture(arch) => {
                    self.architecture = Some(arch);
                    self.resolve_options()
                },
                Reply::Failed(e) => self.finish(no_notices(), Err(e)),
                _ => vstd::pervasive::unreached(),
            },
            Query::SelectUi => match reply {
                Reply::Ui(ui) => {
                    self.ui = Some(ui);
                    self.resolve_options()
                },
                Reply::Failed(e) => self.finish(no_notices(), Err(e)),
                _ => vstd::pervasive::unreached(),
            },
            Query::SelectStyles => match reply {
                Reply::Styles(styles) => {
                    self.styles = Some(styles);
                    self.resolve_options()
                },
                Reply::Failed(e) => self.finish(no_notices(), Err(e)),
                _ => vstd::pervasive::unreached(),
            },
            Query::IsCi => match reply {
                Reply::Flag(false) => self.ask(Query::IsInteractiveTerminal, no_notices()),
                _ => self.preflight(no_notices()),
            },
            Query::IsInteractiveTerminal => match reply {
                Reply::Flag(true) => self.preflight(one_notice(Notice::ShowBanner)),
                _ => self.preflight(no_notices()),
            },
            Query::EnsureRequiredTools(_) => self.close_stage(
                Stage::Preflight,
                reply,
                one_notice(Notice::StageOk(Stage::Preflight)),
                Query::ProjectExists,
            ),
            Query::ProjectExists => match reply {
                Reply::Flag(false) => {
                    let options = self.options();
                    self.ask(
                        Query::ScaffoldAngularProject(options),
                        one_notice(Notice::StageStart(Stage::Scaffold)),
                    )
                },
                _ => {
                    let project_name = self.request.project_name.clone();
                    self.finish(no_notices(), Err(SeedError::ProjectExists { project_name }))
                },
            },
            Query::ScaffoldAngularProject(_) => self.close_stage(
                Stage::Scaffold,
                reply,
                one_notice(Notice::StageOk(Stage::Scaffold)),
                Query::ProjectDir,
            ),
            Query::ProjectDir => match reply {
                Reply::Dir(dir) => {
                    let options = self.options();
                    self.project_dir = Some(dir);
                    self.ask(
                        Query::ApplyArchitectureTemplate(options.architecture),
                        one_notice(Notice::StageStart(Stage::Template)),
                    )
                },
                Reply::Failed(e) => self.finish(no_notices(), Err(e)),
                _ => vstd::pervasive::unreached(),
            },
            Query::ApplyArchitectureTemplate(_) => {
                let options = self.options();
                self.close_stage(
                    Stage::Template,
                    reply,
                    two_notices(Notice::StageOk(Stage::Template), Notice::StageStart(Stage::UiSetup)),
                    Query::ApplyUiIntegration(options.ui, options.package_manager),
                )
            },
            Query::ApplyUiIntegration(_, _) => {
                let options = self.options();
                match reply {
                    Reply::Failed(e) => self.finish(one_notice(Notice::StageError(Stage::UiSetup)), Err(e)),
                    _ => if options.styles != StylesChoice::NoStyles {
                        self.ask(
                            Query::ApplyStyles(options.styles, options.package_manager),
                            two_notices(Notice::StageOk(Stage::UiSetup), Notice::StageStart(Stage::Styles)),
                        )
                    } else {
                        self.finish(
                            two_notices(Notice::StageOk(Stage::UiSetup), Notice::Summary(options)),
                            Ok(()),
                        )
                    },
                }
            },
            Query::ApplyStyles(_, _) => {
                let options = self.options();
                match reply {
                    Reply::Failed(e) => self.finish(one_notice(Notice::StageError(Stage::Styles)), Err(e)),
                    _ => self.finish(
                        two_notices(Notice::StageOk(Stage::Styles), Notice::Summary(options)),
                        Ok(()),
                    ),
                }
            },
        }
    }
}

// ---------------------------------------------------------------------------
// Runs: the flow driven by a sequence of answers
// ---------------------------------------------------------------------------

/// What happens in a run, in order.
pub enum Event {
    Told(Notice),
    Asked(Query),
}

pub open spec fn told(notices: Seq<Notice>) -> Seq<Event> {
    notices.map_values(|notice: Notice| Event::Told(notice))
}

/// The result a run reaches from `(flow, step)` when its queries get the
/// answers `replies`, in order: `None` when the answers run out early, are
/// left over, or do not fit the query they answer.
pub open spec fn run_from(flow: NewProjectFlow, step: StepView, replies: Seq<Reply>) -> Option<Result<(), SeedError>>
    decreases replies.len(),
{
    match step.next {
        Next::Finish(result) => if replies.len() == 0 {
            Some(result)
        } else {
            None
        },
        Next::Ask(query) => if replies.len() == 0 || !answers(replies[0], query) {
            None
        } else {
            let (next_flow, next_step) = seed_step(flow, replies[0]);
            run_from(next_flow, next_step, replies.drop_first())
        },
    }
}

/// Everything shown and asked in a run from `(flow, step)` with the answers
/// `replies`, up to its end or to the first missing or unfitting answer.
pub open spec fn trace_from(flow: NewProjectFlow, step: StepView, replies: Seq<Reply>) -> Seq<Event>
    decreases replies.len(),
{
    told(step.notices) + match step.next {
        Next::Finish(_) => Seq::<Event>::empty(),
        Next::Ask(query) => seq![Event::Asked(query)] + if replies.len() == 0 || !answers(replies[0], query) {
            Seq::<Event>::empty()
        } else {
            let (next_flow, next_step) = seed_step(flow, replies[0]);
            trace_from(next_flow, next_step, replies.drop_first())
        },
    }
}

/// The result of a whole run for `request` whose queries get `replies`.
pub open spec fn run_outcome(request: NewProjectRequest, replies: Seq<Reply>) -> Option<Result<(), SeedError>> {
    let (flow, step) = start_flow(request);
    run_from(flow, step, replies)
}

/// Everything shown and asked in a whole run for `request` with `replies`.
pub open spec fn run_trace(request: NewProjectRequest, replies: Seq<Reply>) -> Seq<Event> {
    let (flow, step) = start_flow(request);
    trace_from(flow, step, replies)
}

/// Joins `name` onto `base` with `std::path::Path::join` and returns the
/// result as text. What comes out depends on the platform's path rules (an
/// absolute `name` replaces `base`, the separator differs between systems),
/// so nothing is claimed of it.
#[verifier::external_body]
fn join_path(base: &str, name: &str) -> String {
    std::path::Path::new(base).join(name).to_string_lossy().into_owned()
}

fn done_or_failed(result: Result<(), SeedError>) -> (reply: Reply)
    ensures
        reply == match result {
            Ok(()) => Reply::Done,
            Err(e) => Reply::Failed(e),
        },
{
    match result {
        Ok(()) => Reply::Done,
        Err(e) => Reply::Failed(e),
    }
}

/// A call the use case made on one of its ports: which method, with which
/// arguments (texts by their view), and what the port returned.
pub enum PortCall {
    SelectPackageManager(Result<PackageManager, SeedError>),
    SelectArchitecture(Result<ArchitectureProfile, SeedError>),
    SelectUi(Result<UiChoice, SeedError>),
    SelectStyles(Result<StylesChoice, SeedError>),
    IsCi(bool),
    IsInteractiveTerminal(bool),
    EnsureRequiredTools(PackageManager, Result<(), SeedError>),
    ProjectExists(Seq<char>, bool),
    ScaffoldAngularProject(Seq<char>, ResolvedOptions, Result<(), SeedError>),
    CurrentDir(Result<Seq<char>, SeedError>),
    ApplyArchitectureTemplate(Seq<char>, ArchitectureProfile, Result<(), SeedError>),
    ApplyUiIntegration(Seq<char>, UiChoice, PackageManager, Result<(), SeedError>),
    ApplyStyles(Seq<char>, StylesChoice, PackageManager, Result<(), SeedError>),
}

/// A text result by its view.
pub open spec fn text_result(out: Result<String, SeedError>) -> Result<Seq<char>, SeedError> {
    match out {
        Ok(text) => Ok(text@),
        Err(e) => Err(e),
    }
}

/// The reply a piece of work gets from its outcome.
pub open spec fn work_reply(outcome: Result<(), SeedError>) -> Reply {
    match outcome {
        Ok(()) => Reply::Done,
        Err(e) => Reply::Failed(e),
    }
}

/// Whether `query`, asked by a run at `flow`, was put to its port as `call`
/// and answered with `reply`: each prompt to the selector, each fact to the
/// environment and each piece of work to the seeder, with the query's own
/// arguments and the run's project name or directory, and the reply is what
/// the port returned.
pub open spec fn answered_through(flow: NewProjectFlow, query: Query, call: PortCall, reply: Reply) -> bool {
    match query {
        Query::SelectPackageManager => call matches PortCall::SelectPackageManager(out) && reply == match out {
            Ok(pm) => Reply::PackageManager(pm),
            Err(e) => Reply::Failed(e),
        },
        Query::SelectArchitecture => call matches PortCall::SelectArchitecture(out) && reply == match out {
            Ok(arch) => Reply::Architecture(arch),
            Err(e) => Reply::Failed(e),
        },
        Query::SelectUi => call matches PortCall::SelectUi(out) && reply == match out {
            Ok(ui) => Reply::Ui(ui),
            Err(e) => Reply::Failed(e),
        },
        Query::SelectStyles => call matches PortCall::SelectStyles(out) && reply == match out {
            Ok(styles) => Reply::Styles(styles),
            Err(e) => Reply::Failed(e),
        },
        Query::IsCi => call matches PortCall::IsCi(flag) && reply == Reply::Flag(flag),
        Query::IsInteractiveTerminal => call matches PortCall::IsInteractiveTerminal(flag) && reply == Reply::Flag(flag),
        Query::EnsureRequiredTools(pm) => call matches PortCall::EnsureRequiredTools(p, out) && p == pm
            && reply == work_reply(out),
        Query::ProjectExists => call matches PortCall::ProjectExists(name, exists)
            && name == flow.request.project_name@ && reply == Reply::Flag(exists),
        Query::ScaffoldAngularProject(options) => call matches PortCall::ScaffoldAngularProject(name, o, out)
            && name == flow.request.project_name@ && o == options && reply == work_reply(out),
        Query::ProjectDir => call matches PortCall::CurrentDir(out) && match out {
            Ok(_) => reply is Dir,
            Err(e) => reply == Reply::Failed(e),
        },
        Query::ApplyArchitectureTemplate(arch) => call matches PortCall::ApplyArchitectureTemplate(dir, a, out)
            && dir == flow.project_dir.unwrap()@ && a == arch && reply == work_reply(out),
        Query::ApplyUiIntegration(ui, pm) => call matches PortCall::ApplyUiIntegration(dir, u, p, out)
            && dir == flow.project_dir.unwrap()@ && u == ui && p == pm && reply == work_reply(out),
        Query::ApplyStyles(styles, pm) => call matches PortCall::ApplyStyles(dir, st, p, out)
            && dir == flow.project_dir.unwrap()@ && st == styles && p == pm && reply == work_reply(out),
    }
}

/// Creates a new Angular project: settles its options, checks the tools,
/// scaffolds it, applies the architecture template, the UI integration and
/// the styles, and reports each stage.
///
/// The ports may be trait objects (`&dyn Environment`, ...) or concrete
/// types.
pub struct NewProjectUseCase<'a, E: Environment + ?Sized, U: UiSelector + ?Sized, S: Seeder + ?Sized, R: ProgressReporter + ?Sized> {
    env: &'a E,
    ui_selector: &'a U,
    seeder: &'a S,
    reporter: &'a R,
}

impl<'a, E: Environment + ?Sized, U: UiSelector + ?Sized, S: Seeder + ?Sized, R: ProgressReporter + ?Sized> NewProjectUseCase<'a, E, U, S, R> {
    /// The environment the use case consults.
    pub closed spec fn environment(&self) -> &'a E {
        self.env
    }

    /// The selector the use case prompts through.
    pub closed spec fn selector(&self) -> &'a U {
        self.ui_selector
    }

    /// The seeder the use case has the work done by.
    pub closed spec fn project_seeder(&self) -> &'a S {
        self.seeder
    }

    /// The reporter the use case shows progress on.
    pub closed spec fn progress(&self) -> &'a R {
        self.reporter
    }

    /// A use case that works through these ports.
    pub fn new(env: &'a E, ui_selector: &'a U, seeder: &'a S, reporter: &'a R) -> (use_case: Self)
        ensures
            use_case.environment() == env,
            use_case.selector() == ui_selector,
            use_case.project_seeder() == seeder,
            use_case.progress() == reporter,
    {
        Self { env, ui_selector, seeder, reporter }
    }

    fn tell(&self, flow: &NewProjectFlow, notice: Notice)
        requires
            notice is Summary ==> flow.project_dir is Some,
    {
        match notice {
            Notice::ShowBanner => self.reporter.show_banner(),
            Notice::StageStart(stage) => self.reporter.stage_start(stage.title(), stage.start_message()),
            Notice::StageOk(stage) => self.reporter.stage_ok(stage.title(), stage.ok_message()),
            Notice::StageError(stage) => self.reporter.stage_error(stage.title(), stage.error_message()),
            Notice::Summary(options) => self.reporter.summary(flow.project_name(), flow.project_dir(), options),
        }
    }

    fn tell_all(&self, flow: &NewProjectFlow, notices: &Vec<Notice>)
        requires
            forall|i: int| 0 <= i < notices@.len() && notices@[i] is Summary ==> flow.project_dir is Some,
    {
        let n = notices.len();
        for i in 0..n
            invariant
                n == notices@.len(),
                forall|i: int| 0 <= i < notices@.len() && notices@[i] is Summary ==> flow.project_dir is Some,
        {
            self.tell(flow, notices[i]);
        }
    }

    // Each port call, with the record of it.

    fn call_select_package_manager(&self) -> (out: (Result<PackageManager, SeedError>, Ghost<PortCall>))
        ensures
            out.1@ == PortCall::SelectPackageManager(out.0),
    {
        let result = self.ui_selector.select_package_manager();
        let ghost call = PortCall::SelectPackageManager(result);
        (result, Ghost(call))
    }

    fn call_select_architecture(&self) -> (out: (Result<ArchitectureProfile, SeedError>, Ghost<PortCall>))
        ensures
            out.1@ == PortCall::SelectArchitecture(out.0),
    {
        let result = self.ui_selector.select_architecture();
        let ghost call = PortCall::SelectArchitecture(result);
        (result, Ghost(call))
    }

    fn call_select_ui(&self) -> (out: (Result<UiChoice, SeedError>, Ghost<PortCall>))
        ensures
            out.1@ == PortCall::SelectUi(out.0),
    {
        let result = self.ui_selector.select_ui();
        let ghost call = PortCall::SelectUi(result);
        (result, Ghost(call))
    }

    fn call_select_styles(&self) -> (out: (Result<StylesChoice, SeedError>, Ghost<PortCall>))
        ensures
            out.1@ == PortCall::SelectStyles(out.0),
    {
        let result = self.ui_selector.select_styles();
        let ghost call = PortCall::SelectStyles(result);
        (result, Ghost(call))
    }

    fn call_is_ci(&self) -> (out: (bool, Ghost<PortCall>))
        ensures
            out.1@ == PortCall::IsCi(out.0),
    {
        let result = self.env.is_ci();
        (result, Ghost(PortCall::IsCi(result)))
    }

    fn call_is_interactive_terminal(&self) -> (out: (bool, Ghost<PortCall>))
        ensures
            out.1@ == PortCall::IsInteractiveTerminal(out.0),
    {
        let result = self.env.is_interactive_terminal();
        (result, Ghost(PortCall::IsInteractiveTerminal(result)))
    }

    fn call_project_exists(&self, project_name: &str) -> (out: (bool, Ghost<PortCall>))
        ensures
            out.1@ == PortCall::ProjectExists(project_name@, out.0),
    {
        let result = self.env.project_exists(project_name);
        (result, Ghost(PortCall::ProjectExists(project_name@, result)))
    }

    fn call_current_dir(&self) -> (out: (Result<String, SeedError>, Ghost<PortCall>))
        ensures
            out.1@ == PortCall::CurrentDir(text_result(out.0)),
    {
        let result = self.env.current_dir();
        let ghost call = PortCall::CurrentDir(text_result(result));
        (result, Ghost(call))
    }

    fn call_ensure_required_tools(&self, package_manager: PackageManager) -> (out: (Result<(), SeedError>, Ghost<PortCall>))
        ensures
            out.1@ == PortCall::EnsureRequiredTools(package_manager, out.0),
    {
        let result = self.seeder.ensure_required_tools(package_manager);
        let ghost call = PortCall::EnsureRequiredTools(package_manager, result);
        (result, Ghost(call))
    }

    fn call_scaffold_angular_project(&self, project_name: &str, options: ResolvedOptions) -> (out: (Result<(), SeedError>, Ghost<PortCall>))
        ensures
            out.1@ == PortCall::ScaffoldAngularProject(project_name@, options, out.0),
    {
        let result = self.seeder.scaffold_angular_project(project_name, options);
        let ghost call = PortCall::ScaffoldAngularProject(project_name@, options, result);
        (result, Ghost(call))
    }

    fn call_apply_architecture_template(&self, project_dir: &str, architecture: ArchitectureProfile) -> (out: (Result<(), SeedError>, Ghost<PortCall>))
        ensures
            out.1@ == PortCall::ApplyArchitectureTemplate(project_dir@, architecture, out.0),
    {
        let result = self.seeder.apply_architecture_template(project_dir, architecture);
        let ghost call = PortCall::ApplyArchitectureTemplate(project_dir@, architecture, result);
        (result, Ghost(call))
    }

    fn call_apply_ui_integration(&self, project_dir: &str, ui: UiChoice, package_manager: PackageManager) -> (out: (Result<(), SeedError>, Ghost<PortCall>))
        ensures
            out.1@ == PortCall::ApplyUiIntegration(project_dir@, ui, package_manager, out.0),
    {
        let result = self.seeder.apply_ui_integration(project_dir, ui, package_manager);
        let ghost call = PortCall::ApplyUiIntegration(project_dir@, ui, package_manager, result);
        (result, Ghost(call))
    }

    fn call_apply_styles(&self, project_dir: &str, styles: StylesChoice, package_manager: PackageManager) -> (out: (Result<(), SeedError>, Ghost<PortCall>))
        ensures
            out.1@ == PortCall::ApplyStyles(project_dir@, styles, package_manager, out.0),
    {
        let result = self.seeder.apply_styles(project_dir, styles, package_manager);
        let ghost call = PortCall::ApplyStyles(project_dir@, styles, package_manager, result);
        (result, Ghost(call))
    }

    /// Put the query to the port that answers it, with the query's
    /// arguments, and answer with what the port returned.
    fn ask(&self, flow: &NewProjectFlow, query: Query) -> (out: (Reply, Ghost<PortCall>))
        requires
            flow.wf(),
            flow.pending == Some(query),
        ensures
            answers(out.0, query),
            answered_through(*flow, query, out.1@, out.0),
    {
        match query {
            Query::SelectPackageManager => {
                let (result, call) = self.call_select_package_manager();
                let reply = match result {
                    Ok(pm) => Reply::PackageManager(pm),
                    Err(e) => Reply::Failed(e),
                };
                (reply, call)
            },
            Query::SelectArchitecture => {
                let (result, call) = self.call_select_architecture();
                let reply = match result {
                    Ok(arch) => Reply::Architecture(arch),
                    Err(e) => Reply::Failed(e),
                };
                (reply, call)
            },
            Query::SelectUi => {
                let (result, call) = self.call_select_ui();
                let reply = match result {
                    Ok(ui) => Reply::Ui(ui),
                    Err(e) => Reply::Failed(e),
                };
                (reply, call)
            },
            Query::SelectStyles => {
                let (result, call) = self.call_select_styles();
                let reply = match result {
                    Ok(styles) => Reply::Styles(styles),
                    Err(e) => Reply::Failed(e),
                };
                (reply, call)
            },
            Query::IsCi => {
                let (flag, call) = self.call_is_ci();
                (Reply::Flag(flag), call)
            },
            Query::IsInteractiveTerminal => {
                let (flag, call) = self.call_is_interactive_terminal();
                (Reply::Flag(flag), call)
            },
            Query::EnsureRequiredTools(pm) => {
                let (result, call) = self.call_ensure_required_tools(pm);
                (done_or_failed(result), call)
            },
            Query::ProjectExists => {
                let (exists, call) = self.call_project_exists(flow.project_name());
                (Reply::Flag(exists), call)
            },
            Query::ScaffoldAngularProject(options) => {
                let (result, call) = self.call_scaffold_angular_project(flow.project_name(), options);
                (done_or_failed(result), call)
            },
            Query::ProjectDir => {
                let (result, call) = self.call_current_dir();
                let reply = match result {
                    Ok(cwd) => Reply::Dir(join_path(cwd.as_str(), flow.project_name())),
                    Err(e) => Reply::Failed(e),
                };
                (reply, call)
            },
            Query::ApplyArchitectureTemplate(arch) => {
                let (result, call) = self.call_apply_architecture_template(flow.project_dir(), arch);
                (done_or_failed(result), call)
            },
            Query::ApplyUiIntegration(ui, pm) => {
                let (result, call) = self.call_apply_ui_integration(flow.project_dir(), ui, pm);
                (done_or_failed(result), call)
            },
            Query::ApplyStyles(styles, pm) => {
                let (result, call) = self.call_apply_styles(flow.project_dir(), styles, pm);
                (done_or_failed(result), call)
            },
        }
    }

    /// Runs the flow for `request` against the ports, showing each notice
    /// and putting each query to its port, until the flow ends.
    ///
    /// The result is the one the flow reaches with the answers the ports
    /// gave; which answers those were is up to the ports.
    pub fn execute(&self, request: NewProjectRequest) -> (result: Result<(), SeedError>)
        ensures
            exists|replies: Seq<Reply>| run_outcome(request, replies) == Some(result),
    {
        let ghost first = start_flow(request);
        let (mut flow, mut step) = NewProjectFlow::start(request);
        let ghost mut replies: Seq<Reply> = Seq::empty();
        assert forall|tail: Seq<Reply>| #[trigger] run_from(first.0, first.1, replies + tail)
            == run_from(flow, step@, tail) by {
            assert(replies + tail =~= tail);
        }
        loop
            invariant
                flow.wf(),
                step.next matches Next::Ask(query) ==> flow.pending == Some(query),
                forall|i: int|
                    0 <= i < step.notices@.len() && step.notices@[i] is Summary
                        ==> flow.project_dir is Some,
                forall|tail: Seq<Reply>| #[trigger] run_from(first.0, first.1, replies + tail)
                    == run_from(flow, step@, tail),
                request == first.0.request,
                first == start_flow(request),
            decreases flow_rank(flow),
        {
            self.tell_all(&flow, &step.notices);
            let ghost before = step@;
            let ghost flow_before = flow;
            let Step { notices: _, next } = step;
            match next {
                Next::Finish(result) => {
                    proof {
                        assert(replies + Seq::<Reply>::empty() =~= replies);
                        assert(run_from(flow, before, Seq::<Reply>::empty()) == Some(result));
                        assert(run_from(first.0, first.1, replies + Seq::<Reply>::empty()) == Some(result));
                        assert(run_outcome(request, replies) == Some(result));
                    }
                    return result;
                },
                Next::Ask(query) => {
                    let (reply, _call) = self.ask(&flow, query);
                    let ghost answer = reply;
                    step = flow.advance(reply);
                    proof {
                        assert forall|tail: Seq<Reply>| #[trigger] run_from(first.0, first.1, replies.push(answer) + tail)
                            == run_from(flow, step@, tail) by {
                            let longer = seq![answer] + tail;
                            assert(replies.push(answer) + tail =~= replies + longer);
                            assert(longer[0] == answer);
                            assert(longer.drop_first() =~= tail);
                            assert(run_from(first.0, first.1, replies + longer) == run_from(flow_before, before, longer));
                        }
                        replies = replies.push(answer);
                    }
                },
            }
        }
    }
}

} // verus!
