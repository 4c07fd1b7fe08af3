use vstd::prelude::*;

use crate::domain::project::ArchitectureProfile;
use crate::infrastructure::templates::architecture;
use crate::infrastructure::templates::component_html_path;
use crate::infrastructure::templates::component_ts_path;
use crate::infrastructure::templates::filled_component;
use crate::infrastructure::templates::CDP_APP_COMPONENT_TEMPLATE;
use crate::infrastructure::templates::CLEAN_APP_COMPONENT_TEMPLATE;
use crate::infrastructure::templates::AppLayout;
use crate::infrastructure::templates::CDP_APP_CONFIG;
use crate::infrastructure::templates::CLEAN_APP_CONFIG;

verus! {

/// The layout of an app directory that holds `files` (contents by path below
/// `src/app`): standalone when it has `app.ts`, as
/// [`crate::infrastructure::templates::detect_layout`] decides.
pub open spec fn layout_of(files: Map<Seq<char>, Seq<char>>) -> AppLayout {
    if files.contains_key("app.ts"@) {
        AppLayout::Standalone
    } else {
        AppLayout::Legacy
    }
}

/// `files` after `written` is written into it in order, each write
/// replacing what was at its path.
pub open spec fn after_writes(
    files: Map<Seq<char>, Seq<char>>,
    written: Seq<(Seq<char>, Seq<char>)>,
) -> Map<Seq<char>, Seq<char>>
    decreases written.len(),
{
    if written.len() == 0 {
        files
    } else {
        after_writes(files.insert(written[0].0, written[0].1), written.drop_first())
    }
}

/// An app directory once the template of `profile` is applied to it: the
/// template's files for the layout the directory has, written over it.
pub open spec fn template_applied(files: Map<Seq<char>, Seq<char>>, profile: ArchitectureProfile) -> Map<Seq<char>, Seq<char>> {
    after_writes(files, architecture(profile, layout_of(files)))
}

/// Writing a sequence of files over a directory lays the files it writes
/// (the last write of a path winning) over what was there, and writes only
/// the paths it names.
proof fn lemma_after_writes(files: Map<Seq<char>, Seq<char>>, written: Seq<(Seq<char>, Seq<char>)>)
    ensures
        after_writes(files, written) == files.union_prefer_right(after_writes(Map::empty(), written)),
        forall|path: Seq<char>| #[trigger] after_writes(Map::empty(), written).contains_key(path)
            ==> exists|i: int| 0 <= i < written.len() && written[i].0 == path,
    decreases written.len(),
{
    if written.len() == 0 {
        assert(files.union_prefer_right(Map::empty()) =~= files);
    } else {
        let first = written[0];
        let rest = written.drop_first();
        let single = Map::<Seq<char>, Seq<char>>::empty().insert(first.0, first.1);
        lemma_after_writes(files.insert(first.0, first.1), rest);
        lemma_after_writes(single, rest);
        lemma_after_writes(Map::empty(), rest);
        let later = after_writes(Map::empty(), rest);
        assert(Map::<Seq<char>, Seq<char>>::empty().insert(first.0, first.1) == single);
        assert(files.insert(first.0, first.1).union_prefer_right(later)
            =~= files.union_prefer_right(single.union_prefer_right(later)));
        assert forall|path: Seq<char>| #[trigger] after_writes(Map::empty(), written).contains_key(path)
            implies exists|i: int| 0 <= i < written.len() && written[i].0 == path by {
            if path == first.0 {
                assert(written[0].0 == path);
            } else {
                assert(later.contains_key(path));
                let i = choose|i: int| 0 <= i < rest.len() && rest[i].0 == path;
                assert(written[i + 1].0 == path);
            }
        }
    }
}

/// The legacy layout writes no `app.ts`.
proof fn lemma_legacy_writes_no_app_ts(profile: ArchitectureProfile)
    ensures
        forall|i: int| 0 <= i < architecture(profile, AppLayout::Legacy).len()
            ==> #[trigger] architecture(profile, AppLayout::Legacy)[i].0 != "app.ts"@,
{
    reveal_strlit("app.config.ts");
    reveal_strlit("app.routes.ts");
    reveal_strlit("application/use-cases/get-greeting.use-case.ts");
    reveal_strlit("core/auth/auth.types.ts");
    reveal_strlit("core/commons/logger.ts");
    reveal_strlit("core/environment/app-environment.ts");
    reveal_strlit("core/models/health-status.model.ts");
    reveal_strlit("data/datasource/local/preferences.datasource.ts");
    reveal_strlit("data/datasource/remote/health.datasource.ts");
    reveal_strlit("domain/entities/greeting.entity.ts");
    reveal_strlit("domain/ports/greeting-repository.port.ts");
    reveal_strlit("infrastructure/adapters/static-greeting.repository.ts");
    reveal_strlit("infrastructure/providers/greeting.provider.ts");
    reveal_strlit("presentation/facades/home.facade.ts");
    reveal_strlit("presentation/pages/health/health.page.html");
    reveal_strlit("presentation/pages/health/health.page.ts");
    reveal_strlit("app.component.ts");
    reveal_strlit("app.component.html");
    reveal_strlit("app.ts");
    let written = architecture(profile, AppLayout::Legacy);
    assert forall|i: int| 0 <= i < written.len() implies #[trigger] written[i].0 != "app.ts"@ by {
        assert(written[i].0.len() != "app.ts"@.len());
    }
}

/// Law: applying an architecture template to an app directory a second time
/// changes nothing. The first application leaves the directory in the layout
/// it found (it writes `app.ts` only where `app.ts` already was), so the
/// second writes the same files with the same contents again.
pub proof fn law_template_applied_twice_is_applied_once(files: Map<Seq<char>, Seq<char>>, profile: ArchitectureProfile)
    ensures
        layout_of(template_applied(files, profile)) == layout_of(files),
        template_applied(template_applied(files, profile), profile) == template_applied(files, profile),
{
    let written = architecture(profile, layout_of(files));
    let once = template_applied(files, profile);
    let laid = after_writes(Map::empty(), written);
    lemma_after_writes(files, written);
    if !files.contains_key("app.ts"@) {
        lemma_legacy_writes_no_app_ts(profile);
        if laid.contains_key("app.ts"@) {
            let i = choose|i: int| 0 <= i < written.len() && written[i].0 == "app.ts"@;
            assert(written[i].0 != "app.ts"@);
        }
        assert(!once.contains_key("app.ts"@));
    } else {
        assert(once.contains_key("app.ts"@));
    }
    lemma_after_writes(once, written);
    assert(once.union_prefer_right(laid) =~= once);
}

/// Law: the files a profile writes depend on the layout only through the
/// root component. For both layouts the profile writes as many files, in the
/// same order; all but the root component's two files (its code, named
/// `app.ts` or `app.component.ts`, and its markup, named `app.html` or
/// `app.component.html`) are the same paths with the same contents, and the
/// markup is the same too; the code is the profile's one component template
/// with the layout's template URL, style property and class filled in. The
/// last file is `app.config.ts`, the clean
/// configuration (which registers the greeting repository) for the clean
/// profile and the core/data/presentation one for the other, whatever the
/// layout.
pub proof fn law_layouts_differ_only_in_the_root_component(profile: ArchitectureProfile, layout: AppLayout)
    ensures
        ({
            let standalone = architecture(profile, AppLayout::Standalone);
            let legacy = architecture(profile, AppLayout::Legacy);
            let root = standalone.len() - 3;
            &&& standalone.len() == legacy.len()
            &&& standalone.len() >= 3
            &&& forall|i: int| 0 <= i < standalone.len() && i != root && i != root + 1
                ==> #[trigger] standalone[i] == legacy[i]
            &&& standalone[root].0 == component_ts_path(AppLayout::Standalone)
            &&& legacy[root].0 == component_ts_path(AppLayout::Legacy)
            &&& standalone[root + 1].0 == component_html_path(AppLayout::Standalone)
            &&& legacy[root + 1].0 == component_html_path(AppLayout::Legacy)
            &&& standalone[root + 1].1 == legacy[root + 1].1
        }),
        architecture(profile, layout)[architecture(profile, layout).len() - 3].1 == filled_component(
            match profile {
                ArchitectureProfile::Clean => CLEAN_APP_COMPONENT_TEMPLATE@,
                ArchitectureProfile::Cdp => CDP_APP_COMPONENT_TEMPLATE@,
            },
            layout,
        ),
        architecture(profile, layout).last() == (
            "app.config.ts"@,
            match profile {
                ArchitectureProfile::Clean => CLEAN_APP_CONFIG@,
                ArchitectureProfile::Cdp => CDP_APP_CONFIG@,
            },
        ),
{
    let standalone = architecture(profile, AppLayout::Standalone);
    let legacy = architecture(profile, AppLayout::Legacy);
    let root = standalone.len() - 3;
    assert forall|i: int| 0 <= i < standalone.len() && i != root && i != root + 1
        implies #[trigger] standalone[i] == legacy[i] by {
        if i < root {
            assert(standalone[i] == legacy[i]);
        }
    }
}

} // verus!
