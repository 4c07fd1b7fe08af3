use ngseed::domain::project::ArchitectureProfile;
use ngseed::infrastructure::templates::app_component_for_cdp;
use ngseed::infrastructure::templates::app_component_for_clean;
use ngseed::infrastructure::templates::architecture_files;
use ngseed::infrastructure::templates::cdp_architecture_files;
use ngseed::infrastructure::templates::clean_architecture_files;
use ngseed::infrastructure::templates::detect_layout;
use ngseed::infrastructure::templates::AppLayout;
use ngseed::infrastructure::templates::CLEAN_APP_CONFIG;
use ngseed::infrastructure::templates::GREETING_ENTITY;
use ngseed::text::join_strings;
use ngseed::text::replace_all;

fn paths(files: &[ngseed::infrastructure::templates::TemplateFile]) -> Vec<&str> {
    files.iter().map(|f| f.path.as_str()).collect()
}

#[test]
fn clean_template_creates_layered_files() {
    let files = clean_architecture_files(AppLayout::Standalone);
    let paths = paths(&files);

    assert!(paths.contains(&"domain/ports/greeting-repository.port.ts"));
    assert!(paths.contains(&"application/use-cases/get-greeting.use-case.ts"));
    assert!(paths.contains(&"infrastructure/providers/greeting.provider.ts"));
    assert!(paths.contains(&"presentation/facades/home.facade.ts"));
}

#[test]
fn cdp_template_creates_layered_files() {
    let files = cdp_architecture_files(AppLayout::Standalone);
    let paths = paths(&files);

    assert!(paths.contains(&"core/models/health-status.model.ts"));
    assert!(paths.contains(&"data/datasource/remote/health.datasource.ts"));
    assert!(paths.contains(&"presentation/pages/health/health.page.ts"));
}

#[test]
fn clean_template_writes_files_in_order() {
    let files = clean_architecture_files(AppLayout::Legacy);
    assert_eq!(
        paths(&files),
        vec![
            "domain/entities/greeting.entity.ts",
            "domain/ports/greeting-repository.port.ts",
            "application/use-cases/get-greeting.use-case.ts",
            "infrastructure/adapters/static-greeting.repository.ts",
            "infrastructure/providers/greeting.provider.ts",
            "presentation/facades/home.facade.ts",
            "app.component.ts",
            "app.component.html",
            "app.config.ts",
        ]
    );
    assert_eq!(files[0].contents, GREETING_ENTITY);
    assert_eq!(files[0].contents, "export interface Greeting {\n  value: string;\n}\n");
    assert_eq!(files[8].contents, CLEAN_APP_CONFIG);
}

#[test]
fn cdp_template_routes_and_component_come_last() {
    let files = architecture_files(ArchitectureProfile::Cdp, AppLayout::Standalone);
    let paths = paths(&files);
    assert_eq!(paths.len(), 12);
    assert_eq!(&paths[8..], &["app.routes.ts", "app.ts", "app.html", "app.config.ts"]);
    assert_eq!(files[10].contents, "<router-outlet />\n");
}

#[test]
fn standalone_component_is_named_app() {
    let files = app_component_for_clean(AppLayout::Standalone);
    let ts = &files[0].contents;
    assert_eq!(files[0].path, "app.ts");
    assert!(ts.contains("templateUrl: './app.html',"));
    assert!(ts.contains("  styleUrl: ['./app.scss'],"));
    assert!(ts.contains("export class App {"));
    assert!(!ts.contains("__"));
}

#[test]
fn legacy_component_is_named_app_component() {
    let files = app_component_for_cdp(AppLayout::Legacy);
    assert_eq!(files[0].path, "app.component.ts");
    assert_eq!(files[1].path, "app.component.html");
    assert!(files[0].contents.contains("templateUrl: './app.component.html',"));
    assert!(files[0].contents.contains("  styleUrls: ['./app.scss'],"));
    assert!(files[0].contents.contains("export class AppComponent {}"));
}

#[test]
fn replace_all_replaces_every_occurrence_left_to_right() {
    assert_eq!(replace_all("a-b-c", "-", "+"), "a+b+c");
    assert_eq!(replace_all("aaa", "aa", "b"), "ba");
    assert_eq!(replace_all("abc", "", "x"), "abc");
    assert_eq!(replace_all("", "a", "b"), "");
    assert_eq!(replace_all("héllo wörld", "ö", "o"), "héllo world");
}

#[test]
fn join_strings_puts_separator_between() {
    let parts = vec!["a".to_string(), "b".to_string(), "c".to_string()];
    assert_eq!(join_strings(&parts, ", "), "a, b, c");
    assert_eq!(join_strings(&[], ", "), "");
}

fn apply_to(dir: &mut std::collections::HashMap<String, String>, profile: ArchitectureProfile) {
    let layout = detect_layout(dir.contains_key("app.ts"));
    for file in architecture_files(profile, layout) {
        dir.insert(file.path, file.contents);
    }
}

#[test]
fn applying_a_template_twice_changes_nothing() {
    for profile in [ArchitectureProfile::Clean, ArchitectureProfile::Cdp] {
        for root in ["app.ts", "app.component.ts"] {
            let mut dir = std::collections::HashMap::new();
            dir.insert(root.to_string(), String::new());
            dir.insert("app.config.ts".to_string(), String::new());
            apply_to(&mut dir, profile);
            let once = dir.clone();
            apply_to(&mut dir, profile);
            assert_eq!(dir, once);
            assert_eq!(dir.contains_key("app.ts"), root == "app.ts");
        }
    }
}

#[test]
fn layout_follows_the_root_component() {
    assert_eq!(detect_layout(true), AppLayout::Standalone);
    assert_eq!(detect_layout(false), AppLayout::Legacy);
}
