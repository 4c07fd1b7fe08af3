use ngseed::application::use_cases::new_project::NewProjectFlow;
use ngseed::application::use_cases::new_project::Next;
use ngseed::application::use_cases::new_project::Notice;
use ngseed::application::use_cases::new_project::Query;
use ngseed::application::use_cases::new_project::Reply;
use ngseed::application::use_cases::new_project::Stage;
use ngseed::domain::project::ArchitectureProfile;
use ngseed::domain::project::NewProjectRequest;
use ngseed::domain::project::PackageManager;
use ngseed::domain::project::UiChoice;
use ngseed::domain::styles_choice::StylesChoice;
use ngseed::error::SeedError;

fn request(yes: bool) -> NewProjectRequest {
    NewProjectRequest {
        project_name: "demo".to_string(),
        ui: None,
        styles: None,
        package_manager: None,
        architecture: None,
        skip_install: false,
        yes,
    }
}

fn asked(next: &Next) -> Query {
    match next {
        Next::Ask(query) => *query,
        Next::Finish(result) => panic!("finished with {result:?}"),
    }
}

#[test]
fn confirmed_request_uses_defaults_and_starts_preflight() {
    let (flow, step) = NewProjectFlow::start(request(true));
    assert_eq!(step.notices, vec![Notice::StageStart(Stage::Preflight)]);
    assert_eq!(asked(&step.next), Query::EnsureRequiredTools(PackageManager::Npm));
    let options = flow.options();
    assert_eq!(options.ui, UiChoice::NoUi);
    assert_eq!(options.styles, StylesChoice::NoStyles);
    assert_eq!(options.architecture, ArchitectureProfile::Clean);
}

#[test]
fn open_options_are_asked_in_order() {
    let (mut flow, step) = NewProjectFlow::start(request(false));
    assert_eq!(asked(&step.next), Query::SelectPackageManager);
    let step = flow.advance(Reply::PackageManager(PackageManager::Bun));
    assert_eq!(asked(&step.next), Query::SelectArchitecture);
    let step = flow.advance(Reply::Architecture(ArchitectureProfile::Cdp));
    assert_eq!(asked(&step.next), Query::SelectUi);
    let step = flow.advance(Reply::Ui(UiChoice::Material));
    assert_eq!(asked(&step.next), Query::SelectStyles);
    let step = flow.advance(Reply::Styles(StylesChoice::NoStyles));
    assert_eq!(asked(&step.next), Query::IsCi);
    let step = flow.advance(Reply::Flag(false));
    assert_eq!(asked(&step.next), Query::IsInteractiveTerminal);
    let step = flow.advance(Reply::Flag(true));
    assert_eq!(step.notices, vec![Notice::ShowBanner, Notice::StageStart(Stage::Preflight)]);
    assert_eq!(asked(&step.next), Query::EnsureRequiredTools(PackageManager::Bun));
}

#[test]
fn failed_prompt_ends_the_run_silently() {
    let (mut flow, _) = NewProjectFlow::start(request(false));
    let step = flow.advance(Reply::Failed(SeedError::Failure { message: "no tty".to_string() }));
    assert!(step.notices.is_empty());
    match step.next {
        Next::Finish(Err(error)) => assert_eq!(error.message(), "no tty"),
        other => panic!("unexpected {other:?}"),
    }
    assert!(flow.pending.is_none());
}

#[test]
fn ci_runs_skip_the_terminal_question() {
    let mut given = request(false);
    given.package_manager = Some(PackageManager::Npm);
    given.architecture = Some(ArchitectureProfile::Clean);
    given.ui = Some(UiChoice::NoUi);
    given.styles = Some(StylesChoice::NoStyles);
    let (mut flow, step) = NewProjectFlow::start(given);
    assert_eq!(asked(&step.next), Query::IsCi);
    let step = flow.advance(Reply::Flag(true));
    assert_eq!(step.notices, vec![Notice::StageStart(Stage::Preflight)]);
}

#[test]
fn missing_working_directory_ends_without_stage_error() {
    let (mut flow, _) = NewProjectFlow::start(request(true));
    flow.advance(Reply::Done);
    flow.advance(Reply::Flag(false));
    let step = flow.advance(Reply::Done);
    assert_eq!(asked(&step.next), Query::ProjectDir);
    let step = flow.advance(Reply::Failed(SeedError::Failure { message: "unable to resolve current directory".to_string() }));
    assert!(step.notices.is_empty());
    assert!(matches!(step.next, Next::Finish(Err(_))));
}

#[derive(Debug, PartialEq)]
enum Seen {
    Told(Notice),
    Asked(Query),
}

fn drive(given: NewProjectRequest, answer: impl Fn(&Query) -> Reply) -> (Vec<Seen>, Result<(), SeedError>) {
    let (mut flow, mut step) = NewProjectFlow::start(given);
    let mut seen = Vec::new();
    loop {
        seen.extend(step.notices.iter().map(|notice| Seen::Told(*notice)));
        match step.next {
            Next::Ask(query) => {
                seen.push(Seen::Asked(query));
                step = flow.advance(answer(&query));
            }
            Next::Finish(result) => return (seen, result),
        }
    }
}

fn ordinary_answer(query: &Query) -> Reply {
    match query {
        Query::ProjectExists => Reply::Flag(false),
        Query::ProjectDir => Reply::Dir("/work/demo".to_string()),
        _ => Reply::Done,
    }
}

fn stage_worked(query: &Query) -> Option<Stage> {
    match query {
        Query::EnsureRequiredTools(_) => Some(Stage::Preflight),
        Query::ScaffoldAngularProject(_) => Some(Stage::Scaffold),
        Query::ApplyArchitectureTemplate(_) => Some(Stage::Template),
        Query::ApplyUiIntegration(_, _) => Some(Stage::UiSetup),
        Query::ApplyStyles(_, _) => Some(Stage::Styles),
        _ => None,
    }
}

fn work(seen: &[Seen]) -> Vec<Query> {
    seen.iter()
        .filter_map(|event| match event {
            Seen::Asked(query) if stage_worked(query).is_some() => Some(*query),
            _ => None,
        })
        .collect()
}

#[test]
fn failed_template_stops_the_work_and_is_reported_last() {
    let (seen, result) = drive(request(true), |query| match query {
        Query::ApplyArchitectureTemplate(_) => Reply::Failed(SeedError::Failure { message: "disk full".to_string() }),
        other => ordinary_answer(other),
    });
    assert!(result.is_err());
    assert_eq!(seen.last(), Some(&Seen::Told(Notice::StageError(Stage::Template))));
    let asked = work(&seen);
    assert_eq!(asked.len(), 3);
    assert_eq!(asked[0], Query::EnsureRequiredTools(PackageManager::Npm));
    assert!(matches!(asked[1], Query::ScaffoldAngularProject(_)));
    assert_eq!(asked[2], Query::ApplyArchitectureTemplate(ArchitectureProfile::Clean));
}

#[test]
fn successful_run_does_the_whole_plan_framed_by_its_stages() {
    let (seen, result) = drive(request(true), ordinary_answer);
    assert!(result.is_ok());
    let asked = work(&seen);
    assert_eq!(asked.len(), 4);
    assert_eq!(asked[3], Query::ApplyUiIntegration(UiChoice::NoUi, PackageManager::Npm));
    for (i, event) in seen.iter().enumerate() {
        if let Seen::Told(Notice::StageStart(stage)) = event {
            match &seen[i + 1] {
                Seen::Asked(query) => assert_eq!(stage_worked(query), Some(*stage)),
                other => panic!("stage {stage:?} opened before {other:?}"),
            }
            assert_eq!(seen[i + 2], Seen::Told(Notice::StageOk(*stage)));
        }
    }
}
