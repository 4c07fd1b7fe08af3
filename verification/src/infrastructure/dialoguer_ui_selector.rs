use vstd::prelude::*;

use crate::domain::project::ArchitectureProfile;
use crate::domain::project::PackageManager;
use crate::domain::project::UiChoice;
use crate::infrastructure::system_seeder::package_manager_name;

verus! {

/// The UI libraries offered, in the order they are listed; the first is
/// preselected.
pub open spec fn ui_items() -> Seq<Seq<char>> {
    seq!["None"@, "Angular Material"@, "PrimeNG"@]
}

/// The UI choice listed at position `selected`; no UI library for a position
/// past the list.
pub open spec fn ui_at(selected: int) -> UiChoice {
    if selected == 1 {
        UiChoice::Material
    } else if selected == 2 {
        UiChoice::Primeng
    } else {
        UiChoice::NoUi
    }
}

/// The package managers offered, in the order they are listed; the first is
/// preselected.
pub open spec fn package_manager_items() -> Seq<Seq<char>> {
    seq!["npm"@, "pnpm"@, "yarn"@, "bun"@]
}

/// The package manager listed at position `selected`; npm for a position
/// past the list.
pub open spec fn package_manager_at(selected: int) -> PackageManager {
    if selected == 1 {
        PackageManager::Pnpm
    } else if selected == 2 {
        PackageManager::Yarn
    } else if selected == 3 {
        PackageManager::Bun
    } else {
        PackageManager::Npm
    }
}

/// The architecture profiles offered, in the order they are listed; the
/// first is preselected.
pub open spec fn architecture_items() -> Seq<Seq<char>> {
    seq!["clean"@, "cdp"@]
}

/// The profile listed at position `selected`; clean for a position past the
/// list.
pub open spec fn architecture_at(selected: int) -> ArchitectureProfile {
    if selected == 1 {
        ArchitectureProfile::Cdp
    } else {
        ArchitectureProfile::Clean
    }
}

pub fn ui_selection_items() -> (items: Vec<&'static str>)
    ensures
        items@.map_values(|item: &str| item@) == ui_items(),
{
    let items: Vec<&'static str> = vec!["None", "Angular Material", "PrimeNG"];
    assert(items@.map_values(|item: &str| item@) =~= ui_items());
    items
}

pub fn ui_choice_at(selected: usize) -> (ui: UiChoice)
    ensures
        ui == ui_at(selected as int),
{
    match selected {
        1 => UiChoice::Material,
        2 => UiChoice::Primeng,
        _ => UiChoice::NoUi,
    }
}

pub fn package_manager_selection_items() -> (items: Vec<&'static str>)
    ensures
        items@.map_values(|item: &str| item@) == package_manager_items(),
{
    let items: Vec<&'static str> = vec!["npm", "pnpm", "yarn", "bun"];
    assert(items@.map_values(|item: &str| item@) =~= package_manager_items());
    items
}

pub fn package_manager_choice_at(selected: usize) -> (pm: PackageManager)
    ensures
        pm == package_manager_at(selected as int),
{
    match selected {
        1 => PackageManager::Pnpm,
        2 => PackageManager::Yarn,
        3 => PackageManager::Bun,
        _ => PackageManager::Npm,
    }
}

pub fn architecture_selection_items() -> (items: Vec<&'static str>)
    ensures
        items@.map_values(|item: &str| item@) == architecture_items(),
{
    let items: Vec<&'static str> = vec!["clean", "cdp"];
    assert(items@.map_values(|item: &str| item@) =~= architecture_items());
    items
}

pub fn architecture_choice_at(selected: usize) -> (profile: ArchitectureProfile)
    ensures
        profile == architecture_at(selected as int),
{
    match selected {
        1 => ArchitectureProfile::Cdp,
        _ => ArchitectureProfile::Clean,
    }
}

/// Law: each listed position selects a different choice, a position past a
/// list selects what its preselected first entry does, and a package manager
/// is listed under the command it is run by.
pub proof fn law_selections_match_lists()
    ensures
        forall|i: int, j: int| 0 <= i < j < ui_items().len() ==> ui_at(i) != ui_at(j),
        forall|i: int| i >= ui_items().len() ==> #[trigger] ui_at(i) == ui_at(0),
        forall|i: int, j: int| 0 <= i < j < package_manager_items().len()
            ==> package_manager_at(i) != package_manager_at(j),
        forall|i: int| i >= package_manager_items().len() ==> #[trigger] package_manager_at(i) == package_manager_at(0),
        forall|i: int| 0 <= i < package_manager_items().len()
            ==> package_manager_items()[i] == package_manager_name(#[trigger] package_manager_at(i)),
        forall|i: int, j: int| 0 <= i < j < architecture_items().len() ==> architecture_at(i) != architecture_at(j),
        forall|i: int| i >= architecture_items().len() ==> #[trigger] architecture_at(i) == architecture_at(0),
{
}

} // verus!
