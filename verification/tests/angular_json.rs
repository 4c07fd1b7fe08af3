use ngseed::error::AngularJsonError;
use ngseed::error::SeedError;
use ngseed::infrastructure::angular_json::missing_styles;
use ngseed::infrastructure::angular_json::updated_angular_json;

const ANGULAR_JSON: &str = r#"{
  "projects": {
    "demo": {
      "architect": {
        "build": {
          "options": {
            "styles": ["src/styles.scss"]
          }
        }
      }
    }
  }
}
"#;

fn primeng_styles() -> Vec<String> {
    vec![
        "node_modules/@primeng/themes/aura/theme.css".to_string(),
        "node_modules/primeicons/primeicons.css".to_string(),
    ]
}

fn kind(result: Result<String, SeedError>) -> AngularJsonError {
    match result {
        Err(SeedError::AngularJson(kind, _)) => kind,
        other => panic!("unexpected {other:?}"),
    }
}

#[test]
fn primeng_adds_expected_styles() {
    let rendered = updated_angular_json(ANGULAR_JSON, &primeng_styles()).unwrap();
    assert!(rendered.contains("node_modules/@primeng/themes/aura/theme.css"));
    assert!(rendered.contains("node_modules/primeicons/primeicons.css"));
}

#[test]
fn styles_are_appended_after_existing_ones_with_final_newline() {
    let rendered = updated_angular_json(ANGULAR_JSON, &primeng_styles()).unwrap();
    let value: serde_json::Value = serde_json::from_str(&rendered).unwrap();
    let styles: Vec<&str> = value
        .pointer("/projects/demo/architect/build/options/styles")
        .unwrap()
        .as_array()
        .unwrap()
        .iter()
        .map(|v| v.as_str().unwrap())
        .collect();
    assert_eq!(
        styles,
        vec![
            "src/styles.scss",
            "node_modules/@primeng/themes/aura/theme.css",
            "node_modules/primeicons/primeicons.css",
        ]
    );
    assert!(rendered.ends_with("}\n"));
}

#[test]
fn adding_the_same_styles_twice_changes_nothing() {
    let once = updated_angular_json(ANGULAR_JSON, &primeng_styles()).unwrap();
    let twice = updated_angular_json(&once, &primeng_styles()).unwrap();
    assert_eq!(once, twice);
}

#[test]
fn project_keys_with_slashes_are_found() {
    let text = r#"{"projects":{"a/b~c":{"architect":{"build":{"options":{"styles":[]}}}}}}"#;
    let rendered = updated_angular_json(text, &primeng_styles()).unwrap();
    assert!(rendered.contains("primeicons.css"));
}

#[test]
fn angular_json_errors() {
    assert_eq!(kind(updated_angular_json("not json", &primeng_styles())), AngularJsonError::InvalidJson);
    assert_eq!(kind(updated_angular_json("{}", &primeng_styles())), AngularJsonError::MissingProjects);
    assert_eq!(
        kind(updated_angular_json(r#"{"projects": []}"#, &primeng_styles())),
        AngularJsonError::MissingProjects
    );
    assert_eq!(
        kind(updated_angular_json(r#"{"projects": {}}"#, &primeng_styles())),
        AngularJsonError::NoProjects
    );
    assert_eq!(
        kind(updated_angular_json(r#"{"projects": {"p": {"architect": {}}}}"#, &primeng_styles())),
        AngularJsonError::MissingStyles
    );
    assert_eq!(
        kind(updated_angular_json(
            r#"{"projects": {"p": {"architect": {"build": {"options": {"styles": "x"}}}}}}"#,
            &primeng_styles()
        )),
        AngularJsonError::MissingStyles
    );
    assert_eq!(
        SeedError::AngularJson(AngularJsonError::MissingStyles, None).message(),
        "angular.json is missing /architect/build/options/styles"
    );
    match updated_angular_json("not json", &primeng_styles()) {
        Err(error) => assert!(error.message().starts_with("failed to parse angular.json as JSON: ")),
        Ok(_) => panic!("accepted"),
    }
}

#[test]
fn missing_styles_skips_present_and_repeated_ones() {
    let existing = vec![Some("a".to_string()), None, Some("b".to_string())];
    let wanted = vec!["b".to_string(), "c".to_string(), "a".to_string(), "c".to_string(), "d".to_string()];
    assert_eq!(missing_styles(&existing, &wanted), vec!["c".to_string(), "d".to_string()]);
    assert!(missing_styles(&existing, &[]).is_empty());
}

#[test]
fn other_projects_and_members_are_kept() {
    let text = r#"{"version":1,"projects":{"a":{"architect":{"build":{"options":{"styles":["x.css",3]}}},"root":""},"b":{"architect":{"build":{"options":{"styles":[]}}}}}}"#;
    let rendered = updated_angular_json(text, &["x.css".to_string(), "y.css".to_string()]).unwrap();
    let value: serde_json::Value = serde_json::from_str(&rendered).unwrap();
    let expected: serde_json::Value = serde_json::from_str(
        r#"{"version":1,"projects":{"a":{"architect":{"build":{"options":{"styles":["x.css",3,"y.css"]}}},"root":""},"b":{"architect":{"build":{"options":{"styles":[]}}}}}}"#,
    )
    .unwrap();
    assert_eq!(value, expected);
    assert_eq!(rendered, format!("{}\n", serde_json::to_string_pretty(&expected).unwrap()));
}
