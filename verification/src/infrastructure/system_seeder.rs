use vstd::prelude::*;

use crate::domain::project::PackageManager;
use crate::domain::project::ResolvedOptions;
use crate::domain::project::UiChoice;
use crate::error::SeedError;
use crate::text::join_strings;
use crate::text::joined;
use crate::text::texts;

verus! {

/// Runs an external program with arguments, in `cwd` when one is given, and
/// reports whether it could be started and succeeded.
pub trait CommandRunner {
    fn run(&mut self, program: &str, args: &[String], cwd: Option<&str>) -> Result<(), SeedError>;
}

/// A program, its arguments, and the directory it runs in (the current one
/// when none is given).
pub struct CommandLine {
    pub program: String,
    pub args: Vec<String>,
    pub cwd: Option<String>,
}

pub open spec fn command_view(line: CommandLine) -> (Seq<char>, Seq<Seq<char>>, Option<Seq<char>>) {
    (
        line.program@,
        texts(line.args@),
        match line.cwd {
            Some(dir) => Some(dir@),
            None => None,
        },
    )
}

pub open spec fn command_views(lines: Seq<CommandLine>) -> Seq<(Seq<char>, Seq<Seq<char>>, Option<Seq<char>>)> {
    lines.map_values(|line: CommandLine| command_view(line))
}

/// The directory a command line runs in, as the runner takes it.
fn cwd_of(line: &CommandLine) -> (cwd: Option<&str>)
    ensures
        command_view(*line).2 == match cwd {
            Some(dir) => Some(dir@),
            None => None::<Seq<char>>,
        },
{
    match &line.cwd {
        Some(dir) => Some(dir.as_str()),
        None => None,
    }
}

/// A command runner together with the record of what was run through it:
/// each command line, by its view, with the outcome the runner reported.
pub struct Recorded<R> {
    runner: R,
    history: Ghost<Seq<((Seq<char>, Seq<Seq<char>>, Option<Seq<char>>), Result<(), SeedError>)>>,
}

impl<R> View for Recorded<R> {
    type V = Seq<((Seq<char>, Seq<Seq<char>>, Option<Seq<char>>), Result<(), SeedError>)>;

    closed spec fn view(&self) -> Self::V {
        self.history@
    }
}

impl<R> Recorded<R> {
    /// The runner that does the work.
    pub closed spec fn runner(self) -> R {
        self.runner
    }
}

impl<R: CommandRunner> Recorded<R> {
    /// Wraps `runner`, with nothing run yet.
    pub fn new(runner: R) -> (recorded: Self)
        ensures
            recorded@ == Seq::<((Seq<char>, Seq<Seq<char>>, Option<Seq<char>>), Result<(), SeedError>)>::empty(),
            recorded.runner() == runner,
    {
        Recorded { runner, history: Ghost(Seq::empty()) }
    }

    /// The runner that does the work.
    pub fn inner(&self) -> (runner: &R)
        ensures
            *runner == self.runner(),
    {
        &self.runner
    }

    /// Runs `line` once and returns what the runner reported; the record
    /// grows by that command and that outcome.
    pub fn run(&mut self, line: &CommandLine) -> (outcome: Result<(), SeedError>)
        ensures
            final(self)@ == old(self)@.push((command_view(*line), outcome)),
    {
        let outcome = self.runner.run(line.program.as_str(), line.args.as_slice(), cwd_of(line));
        proof {
            self.history@ = self.history@.push((command_view(*line), outcome));
        }
        outcome
    }
}

/// The command a package manager is run by.
pub open spec fn package_manager_name(package_manager: PackageManager) -> Seq<char> {
    match package_manager {
        PackageManager::Npm => "npm"@,
        PackageManager::Pnpm => "pnpm"@,
        PackageManager::Yarn => "yarn"@,
        PackageManager::Bun => "bun"@,
    }
}

/// The subcommand that adds packages to a project.
pub open spec fn install_verb(package_manager: PackageManager) -> Seq<char> {
    match package_manager {
        PackageManager::Npm => "install"@,
        _ => "add"@,
    }
}

/// The tools a project with this package manager needs, in the order they
/// are checked.
pub open spec fn required_tools(package_manager: PackageManager) -> Seq<Seq<char>> {
    seq!["node"@, "ng"@, package_manager_name(package_manager)]
}

/// The arguments of `ng` that create the project: standalone components,
/// routing, SCSS, no server-side rendering, the chosen package manager, and
/// no dependency install when asked to skip it.
pub open spec fn scaffold_args(project_name: Seq<char>, options: ResolvedOptions) -> Seq<Seq<char>> {
    seq![
        "new"@,
        project_name,
        "--defaults"@,
        "--standalone"@,
        "--routing"@,
        "--style=scss"@,
        "--ssr=false"@,
        "--package-manager="@ + package_manager_name(options.package_manager),
    ] + if options.skip_install {
        seq!["--skip-install"@]
    } else {
        Seq::<Seq<char>>::empty()
    }
}

/// How a command line reads: the program, then its arguments, separated by
/// spaces.
pub open spec fn command_text(program: Seq<char>, args: Seq<Seq<char>>) -> Seq<char> {
    if args.len() == 0 {
        program
    } else {
        program + " "@ + joined(args, " "@)
    }
}

pub fn package_manager_cli_name(package_manager: PackageManager) -> (name: &'static str)
    ensures
        name@ == package_manager_name(package_manager),
{
    match package_manager {
        PackageManager::Npm => "npm",
        PackageManager::Pnpm => "pnpm",
        PackageManager::Yarn => "yarn",
        PackageManager::Bun => "bun",
    }
}

fn owned(text: &str) -> (s: String)
    ensures
        s@ == text@,
{
    String::from_str(text)
}

/// The command line, for messages.
pub fn format_command(program: &str, args: &[String]) -> (text: String)
    ensures
        text@ == command_text(program@, texts(args@)),
{
    if args.len() == 0 {
        return owned(program);
    }
    let mut text = owned(program);
    text.append(" ");
    let rest = join_strings(args, " ");
    text.append(rest.as_str());
    text
}

/// The arguments a tool is run with to check that it is installed.
pub fn version_probe_args() -> (args: Vec<String>)
    ensures
        texts(args@) == seq!["--version"@],
{
    let mut args: Vec<String> = Vec::new();
    args.push(owned("--version"));
    assert(texts(args@) =~= seq!["--version"@]);
    args
}

/// What the check of `tool` comes to once the runner answered `outcome`:
/// nothing when the tool answered, else a failure that names the tool and
/// has the runner's error as its cause.
pub fn tool_check_failure(tool: &str, outcome: Result<(), SeedError>) -> (failure: Option<SeedError>)
    ensures
        match outcome {
            Ok(()) => failure is None,
            Err(cause) => failure matches Some(SeedError::ToolRequired { tool: named, source })
                && named@ == tool@ && *source == cause,
        },
{
    match outcome {
        Ok(()) => None,
        Err(cause) => Some(SeedError::ToolRequired { tool: owned(tool), source: Box::new(cause) }),
    }
}

/// The commands that check the tools a project with this package manager
/// needs: each tool run with `--version`, in the order of
/// [`required_tools`], in the current directory.
pub open spec fn tool_probe_views(package_manager: PackageManager) -> Seq<(Seq<char>, Seq<Seq<char>>, Option<Seq<char>>)> {
    required_tools(package_manager).map_values(
        |tool: Seq<char>| (tool, seq!["--version"@], None::<Seq<char>>),
    )
}

fn probe(tool: &str) -> (line: CommandLine)
    ensures
        command_view(line) == (tool@, seq!["--version"@], None::<Seq<char>>),
{
    CommandLine { program: owned(tool), args: version_probe_args(), cwd: None }
}

/// The commands that check the tools a project with this package manager
/// needs.
pub fn tool_probes(package_manager: PackageManager) -> (probes: Vec<CommandLine>)
    ensures
        command_views(probes@) == tool_probe_views(package_manager),
{
    let mut probes: Vec<CommandLine> = Vec::new();
    probes.push(probe("node"));
    probes.push(probe("ng"));
    probes.push(probe(package_manager_cli_name(package_manager)));
    assert(command_views(probes@) =~= tool_probe_views(package_manager));
    probes
}

/// A record of a tool check: the [`tool_probe_views`] in order, each but the
/// last answered successfully, and ending before the last probe only at a
/// failure.
pub open spec fn probes_until_failure(
    package_manager: PackageManager,
    ran: Seq<((Seq<char>, Seq<Seq<char>>, Option<Seq<char>>), Result<(), SeedError>)>,
) -> bool {
    &&& 1 <= ran.len() <= 3
    &&& forall|i: int| 0 <= i < ran.len() ==> #[trigger] ran[i].0 == tool_probe_views(package_manager)[i]
    &&& forall|i: int| 0 <= i < ran.len() - 1 ==> (#[trigger] ran[i]).1 is Ok
    &&& ran.len() < 3 ==> ran.last().1 is Err
}

/// What a tool check whose probes answered as in `ran` returns: success when
/// the last probe answered, else the failure of [`tool_check_failure`] for
/// the tool of that probe.
pub open spec fn tool_check_result(
    package_manager: PackageManager,
    ran: Seq<((Seq<char>, Seq<Seq<char>>, Option<Seq<char>>), Result<(), SeedError>)>,
    result: Result<(), SeedError>,
) -> bool {
    match ran.last().1 {
        Ok(()) => result is Ok,
        Err(cause) => result matches Err(SeedError::ToolRequired { tool, source })
            && tool@ == required_tools(package_manager)[ran.len() - 1] && *source == cause,
    }
}

/// Checks that Node.js, Angular CLI and the package manager answer
/// `--version`, running the [`tool_probes`] in order and stopping at the
/// first that fails, with the failure [`tool_check_failure`] gives.
pub fn ensure_required_tools<R: CommandRunner>(runner: &mut Recorded<R>, package_manager: PackageManager) -> (result: Result<(), SeedError>)
    ensures
        old(runner)@.is_prefix_of(final(runner)@),
        probes_until_failure(package_manager, final(runner)@.skip(old(runner)@.len() as int)),
        tool_check_result(package_manager, final(runner)@.skip(old(runner)@.len() as int), result),
{
    let probes = tool_probes(package_manager);
    let ghost before = runner@;
    let ghost wanted = tool_probe_views(package_manager);
    let n = probes.len();
    assert(command_views(probes@).len() == 3);
    for i in 0..n
        invariant
            n == probes@.len(),
            n == 3,
            wanted == tool_probe_views(package_manager),
            command_views(probes@) == wanted,
            before == old(runner)@,
            runner@.len() == before.len() + i,
            runner@.subrange(0, before.len() as int) == before,
            forall|j: int| 0 <= j < i ==> (#[trigger] runner@[before.len() + j]).0 == wanted[j],
            forall|j: int| 0 <= j < i ==> (#[trigger] runner@[before.len() + j]).1 is Ok,
    {
        let line = &probes[i];
        assert(command_views(probes@)[i as int] == command_view(probes@[i as int]));
        assert(line.program@ == required_tools(package_manager)[i as int]);
        let outcome = runner.run(line);
        assert(runner@.subrange(0, before.len() as int) =~= before);
        match tool_check_failure(line.program.as_str(), outcome) {
            Some(failure) => {
                let ghost ran = runner@.skip(before.len() as int);
                assert(ran.len() == i + 1);
                assert forall|j: int| 0 <= j < ran.len() implies #[trigger] ran[j].0 == wanted[j] by {
                    assert(ran[j] == runner@[before.len() + j]);
                }
                assert forall|j: int| 0 <= j < ran.len() - 1 implies (#[trigger] ran[j]).1 is Ok by {
                    assert(ran[j] == runner@[before.len() + j]);
                }
                assert(ran.last() == runner@[before.len() + i]);
                assert(before.is_prefix_of(runner@));
                return Err(failure);
            },
            None => {},
        }
    }
    let ghost ran = runner@.skip(before.len() as int);
    assert(ran.len() == 3);
    assert forall|j: int| 0 <= j < ran.len() implies #[trigger] ran[j].0 == wanted[j] by {
        assert(ran[j] == runner@[before.len() + j]);
    }
    assert forall|j: int| 0 <= j < ran.len() - 1 implies (#[trigger] ran[j]).1 is Ok by {
        assert(ran[j] == runner@[before.len() + j]);
    }
    assert(ran.last() == runner@[before.len() + 2int]);
    assert(before.is_prefix_of(runner@));
    Ok(())
}

/// The arguments of `ng` that scaffold `project_name` with `options`.
pub fn scaffold_command_args(project_name: &str, options: ResolvedOptions) -> (args: Vec<String>)
    ensures
        texts(args@) == scaffold_args(project_name@, options),
{
    let mut package_manager = owned("--package-manager=");
    package_manager.append(package_manager_cli_name(options.package_manager));
    let mut args: Vec<String> = Vec::new();
    args.push(owned("new"));
    args.push(owned(project_name));
    args.push(owned("--defaults"));
    args.push(owned("--standalone"));
    args.push(owned("--routing"));
    args.push(owned("--style=scss"));
    args.push(owned("--ssr=false"));
    args.push(package_manager);
    if options.skip_install {
        args.push(owned("--skip-install"));
    }
    assert(texts(args@) =~= scaffold_args(project_name@, options));
    args
}

/// The command that creates the project: `ng` with
/// [`scaffold_command_args`], in the current directory.
pub fn scaffold_command(project_name: &str, options: ResolvedOptions) -> (line: CommandLine)
    ensures
        command_view(line) == ("ng"@, scaffold_args(project_name@, options), None::<Seq<char>>),
{
    CommandLine { program: owned("ng"), args: scaffold_command_args(project_name, options), cwd: None }
}

/// Creates the Angular project by running [`scaffold_command`] once; the
/// result is the runner's.
pub fn scaffold_angular_project<R: CommandRunner>(
    runner: &mut Recorded<R>,
    project_name: &str,
    options: ResolvedOptions,
) -> (result: Result<(), SeedError>)
    ensures
        final(runner)@ == old(runner)@.push(
            (("ng"@, scaffold_args(project_name@, options), None::<Seq<char>>), result),
        ),
{
    let line = scaffold_command(project_name, options);
    runner.run(&line)
}

/// The command that adds `packages` to a project with this package manager:
/// `npm install`, or `add` for the others.
pub fn package_manager_install_command(package_manager: PackageManager, packages: &[&str]) -> (command: (&'static str, Vec<String>))
    ensures
        command.0@ == package_manager_name(package_manager),
        texts(command.1@) == seq![install_verb(package_manager)] + packages@.map_values(|p: &str| p@),
{
    let verb = match package_manager {
        PackageManager::Npm => "install",
        _ => "add",
    };
    let mut args: Vec<String> = Vec::new();
    args.push(owned(verb));
    let n = packages.len();
    for i in 0..n
        invariant
            n == packages@.len(),
            texts(args@) == seq![install_verb(package_manager)] + packages@.take(i as int).map_values(|p: &str| p@),
    {
        let ghost prev = args@;
        let package = owned(packages[i]);
        args.push(package);
        assert(texts(args@) =~= texts(prev).push(package@));
        assert(packages@.take(i + 1) =~= packages@.take(i as int).push(packages@[i as int]));
        assert(packages@.take(i + 1).map_values(|p: &str| p@) =~= packages@.take(i as int).map_values(|p: &str| p@).push(packages@[i as int]@));
        assert(texts(args@) =~= seq![install_verb(package_manager)] + packages@.take(i + 1).map_values(|p: &str| p@));
    }
    assert(packages@.take(n as int) =~= packages@);
    (package_manager_cli_name(package_manager), args)
}

/// What integrating a UI library takes: a command run in the project
/// directory, if any, then styles added to the first project of
/// `angular.json`.
pub struct UiIntegrationPlan {
    pub command: Option<CommandLine>,
    pub styles: Vec<String>,
}

/// The command of a UI integration: Angular Material through `ng add`,
/// PrimeNG, its icons and themes through the package manager, nothing for no
/// UI library.
pub open spec fn ui_command(ui: UiChoice, package_manager: PackageManager, project_dir: Seq<char>) -> Option<(Seq<char>, Seq<Seq<char>>, Option<Seq<char>>)> {
    match ui {
        UiChoice::NoUi => None,
        UiChoice::Material => Some(
            (
                "ng"@,
                seq!["add"@, "@angular/material"@, "--defaults"@, "--skip-confirmation"@],
                Some(project_dir),
            ),
        ),
        UiChoice::Primeng => Some(
            (
                package_manager_name(package_manager),
                seq![install_verb(package_manager), "primeng"@, "primeicons"@, "@primeng/themes"@],
                Some(project_dir),
            ),
        ),
    }
}

/// The global styles a UI integration adds: the PrimeNG Aura theme and the
/// PrimeIcons stylesheet for PrimeNG, none otherwise.
pub open spec fn ui_styles(ui: UiChoice) -> Seq<Seq<char>> {
    match ui {
        UiChoice::Primeng => seq![
            "node_modules/@primeng/themes/aura/theme.css"@,
            "node_modules/primeicons/primeicons.css"@,
        ],
        _ => Seq::empty(),
    }
}

pub open spec fn command_line_view(command: Option<CommandLine>) -> Option<(Seq<char>, Seq<Seq<char>>, Option<Seq<char>>)> {
    match command {
        Some(line) => Some(command_view(line)),
        None => None,
    }
}

/// How to integrate the chosen UI library into the project in `project_dir`.
pub fn ui_integration_plan(ui: UiChoice, package_manager: PackageManager, project_dir: &str) -> (plan: UiIntegrationPlan)
    ensures
        command_line_view(plan.command) == ui_command(ui, package_manager, project_dir@),
        texts(plan.styles@) == ui_styles(ui),
{
    match ui {
        UiChoice::NoUi => UiIntegrationPlan { command: None, styles: Vec::new() },
        UiChoice::Material => {
            let mut args: Vec<String> = Vec::new();
            args.push(owned("add"));
            args.push(owned("@angular/material"));
            args.push(owned("--defaults"));
            args.push(owned("--skip-confirmation"));
            let plan = UiIntegrationPlan {
                command: Some(CommandLine { program: owned("ng"), args, cwd: Some(owned(project_dir)) }),
                styles: Vec::new(),
            };
            assert(texts(plan.styles@) =~= ui_styles(ui));
            assert(texts(args@) =~= seq!["add"@, "@angular/material"@, "--defaults"@, "--skip-confirmation"@]);
            plan
        },
        UiChoice::Primeng => {
            let packages: [&str; 3] = ["primeng", "primeicons", "@primeng/themes"];
            let (program, args) = package_manager_install_command(package_manager, packages.as_slice());
            let mut styles: Vec<String> = Vec::new();
            styles.push(owned("node_modules/@primeng/themes/aura/theme.css"));
            styles.push(owned("node_modules/primeicons/primeicons.css"));
            assert(texts(styles@) =~= ui_styles(ui));
            assert(packages@.map_values(|p: &str| p@) =~= seq!["primeng"@, "primeicons"@, "@primeng/themes"@]);
            assert(texts(args@) =~= seq![install_verb(package_manager), "primeng"@, "primeicons"@, "@primeng/themes"@]);
            UiIntegrationPlan {
                command: Some(CommandLine { program: owned(program), args, cwd: Some(owned(project_dir)) }),
                styles,
            }
        },
    }
}

/// Integrates the chosen UI library into the project in `project_dir`: runs
/// the command of its [`ui_integration_plan`], if there is one, and stops
/// there when it fails. Otherwise it returns the styles that are then due in
/// `angular.json`.
pub fn run_ui_integration<R: CommandRunner>(
    runner: &mut Recorded<R>,
    ui: UiChoice,
    package_manager: PackageManager,
    project_dir: &str,
) -> (result: Result<Vec<String>, SeedError>)
    ensures
        match ui_command(ui, package_manager, project_dir@) {
            None => final(runner)@ == old(runner)@,
            Some(command) => final(runner)@ == old(runner)@.push((command, final(runner)@.last().1)),
        },
        match result {
            Ok(styles) => texts(styles@) == ui_styles(ui),
            Err(failure) => ui_command(ui, package_manager, project_dir@) is Some
                && final(runner)@.last().1 == Err::<(), SeedError>(failure),
        },
        ui_command(ui, package_manager, project_dir@) is Some ==> (result is Ok <==> final(runner)@.last().1 is Ok),
{
    let plan = ui_integration_plan(ui, package_manager, project_dir);
    match &plan.command {
        Some(line) => {
            let outcome = runner.run(line);
            match outcome {
                Ok(()) => {},
                Err(failure) => {
                    return Err(failure);
                },
            }
        },
        None => {},
    }
    Ok(plan.styles)
}

} // verus!
