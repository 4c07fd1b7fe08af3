use vstd::prelude::*;

use crate::domain::project::ArchitectureProfile;
use crate::domain::project::PackageManager;
use crate::domain::project::ResolvedOptions;
use crate::domain::project::UiChoice;
use crate::infrastructure::system_seeder::package_manager_name;
use crate::text::texts;

verus! {

pub open spec fn ui_label_text(ui: UiChoice) -> Seq<char> {
    match ui {
        UiChoice::Material => "material"@,
        UiChoice::Primeng => "primeng"@,
        UiChoice::NoUi => "none"@,
    }
}

pub open spec fn architecture_label_text(profile: ArchitectureProfile) -> Seq<char> {
    match profile {
        ArchitectureProfile::Clean => "clean"@,
        ArchitectureProfile::Cdp => "cdp"@,
    }
}

/// How a UI choice is named to the user.
pub fn ui_label(ui: UiChoice) -> (label: &'static str)
    ensures
        label@ == ui_label_text(ui),
{
    match ui {
        UiChoice::Material => "material",
        UiChoice::Primeng => "primeng",
        UiChoice::NoUi => "none",
    }
}

/// How a package manager is named to the user: by its command.
pub fn package_manager_label(pm: PackageManager) -> (label: &'static str)
    ensures
        label@ == package_manager_name(pm),
{
    match pm {
        PackageManager::Npm => "npm",
        PackageManager::Pnpm => "pnpm",
        PackageManager::Yarn => "yarn",
        PackageManager::Bun => "bun",
    }
}

/// How an architecture profile is named to the user.
pub fn architecture_label(profile: ArchitectureProfile) -> (label: &'static str)
    ensures
        label@ == architecture_label_text(profile),
{
    match profile {
        ArchitectureProfile::Clean => "clean",
        ArchitectureProfile::Cdp => "cdp",
    }
}

/// What the closing summary of a run shows, line by line.
pub struct Summary {
    pub project: String,
    pub path: String,
    pub ui: &'static str,
    pub package_manager: &'static str,
    pub architecture: &'static str,
    pub skip_install: &'static str,
    /// The commands that start the new project.
    pub next_steps: Vec<String>,
}

/// The commands suggested once a project is created: enter its directory,
/// then start it with its package manager.
pub open spec fn next_steps(project_name: Seq<char>, pm: PackageManager) -> Seq<Seq<char>> {
    seq!["  cd "@ + project_name, "  "@ + package_manager_name(pm) + " start"@]
}

/// The summary of a project created under `project_dir` with `options`.
pub fn summary_of(project_name: &str, project_dir: &str, options: ResolvedOptions) -> (summary: Summary)
    ensures
        summary.project@ == project_name@,
        summary.path@ == project_dir@,
        summary.ui@ == ui_label_text(options.ui),
        summary.package_manager@ == package_manager_name(options.package_manager),
        summary.architecture@ == architecture_label_text(options.architecture),
        summary.skip_install@ == (if options.skip_install { "yes"@ } else { "no"@ }),
        texts(summary.next_steps@) == next_steps(project_name@, options.package_manager),
{
    let mut enter = String::from_str("  cd ");
    enter.append(project_name);
    let mut start = String::from_str("  ");
    start.append(package_manager_label(options.package_manager));
    start.append(" start");
    let mut steps: Vec<String> = Vec::new();
    steps.push(enter);
    steps.push(start);
    assert(texts(steps@) =~= next_steps(project_name@, options.package_manager));
    Summary {
        project: String::from_str(project_name),
        path: String::from_str(project_dir),
        ui: ui_label(options.ui),
        package_manager: package_manager_label(options.package_manager),
        architecture: architecture_label(options.architecture),
        skip_install: if options.skip_install { "yes" } else { "no" },
        next_steps: steps,
    }
}

/// Law: different choices are shown under different names.
pub proof fn law_labels_tell_choices_apart(a: UiChoice, b: UiChoice, p: PackageManager, q: PackageManager, x: ArchitectureProfile, y: ArchitectureProfile)
    ensures
        a != b ==> ui_label_text(a) != ui_label_text(b),
        p != q ==> package_manager_name(p) != package_manager_name(q),
        x != y ==> architecture_label_text(x) != architecture_label_text(y),
{
    reveal_strlit("material");
    reveal_strlit("primeng");
    reveal_strlit("none");
    reveal_strlit("npm");
    reveal_strlit("pnpm");
    reveal_strlit("yarn");
    reveal_strlit("bun");
    reveal_strlit("clean");
    reveal_strlit("cdp");
    assert("material"@[0] != "primeng"@[0]);
    assert("material"@[0] != "none"@[0]);
    assert("primeng"@[0] != "none"@[0]);
    assert("npm"@[0] != "pnpm"@[0]);
    assert("npm"@[0] != "yarn"@[0]);
    assert("npm"@[0] != "bun"@[0]);
    assert("pnpm"@[0] != "yarn"@[0]);
    assert("pnpm"@[0] != "bun"@[0]);
    assert("yarn"@[0] != "bun"@[0]);
    assert("clean"@.len() != "cdp"@.len());
}

} // verus!
