use lint_init::catalog::{get_template_content, LintError, ESLINT_FILE_NAME, PRETTIER_FILE_NAME};
use lint_init::flow::{template_id_at, template_list};
use lint_init::template::{prettier, pure_js, react, typescript};

#[test]
fn get_typescript_template() {
    let template_info = get_template_content(String::from("typescript")).unwrap();
    assert_eq!(template_info.template_content, String::from(typescript::TEMPLATE_CONTENT));
    assert_eq!(template_info.target_url, String::from(ESLINT_FILE_NAME));
}

#[test]
fn get_react_template() {
    let template_info = get_template_content(String::from("reactTs")).unwrap();
    assert_eq!(template_info.template_content, String::from(react::TEMPLATE_CONTENT));
    assert_eq!(template_info.target_url, String::from(ESLINT_FILE_NAME));
}

#[test]
fn get_pure_js_template() {
    let template_info = get_template_content(String::from("pureJs")).unwrap();
    assert_eq!(template_info.template_content, String::from(pure_js::TEMPLATE_CONTENT));
    assert_eq!(template_info.target_url, String::from(ESLINT_FILE_NAME));
}

#[test]
fn get_prettier_template() {
    let template_info = get_template_content(String::from("prettier")).unwrap();
    assert_eq!(template_info.template_content, String::from(prettier::TEMPLATE_CONTENT));
    assert_eq!(template_info.target_url, String::from("/.prettierrc.js"));
}

#[test]
fn file_names_are_the_conventional_ones() {
    assert_eq!(ESLINT_FILE_NAME, "/.eslintrc.json");
    assert_eq!(PRETTIER_FILE_NAME, "/.prettierrc.js");
}

#[test]
fn templates_hold_distinct_content() {
    let ids = ["typescript", "reactTs", "prettier", "pureJs"];
    for (i, a) in ids.iter().enumerate() {
        for b in ids.iter().skip(i + 1) {
            let x = get_template_content(a.to_string()).unwrap();
            let y = get_template_content(b.to_string()).unwrap();
            assert_ne!(x.template_content, y.template_content);
        }
    }
}

#[test]
fn unknown_template_is_rejected() {
    for id in ["", "react", "pure_js", "default", "TypeScript", "typescript ", "prettierrc"] {
        assert!(matches!(
            get_template_content(String::from(id)),
            Err(LintError::UnknownTemplate)
        ));
    }
}

#[test]
fn prompt_entries_in_order() {
    assert_eq!(
        template_list(),
        vec!["default", "typescript", "prettier", "pure_js", "react"]
    );
}

#[test]
fn prompt_positions_name_templates() {
    assert_eq!(template_id_at(1).unwrap(), "typescript");
    assert_eq!(template_id_at(2).unwrap(), "prettier");
    assert_eq!(template_id_at(3).unwrap(), "pureJs");
    assert_eq!(template_id_at(4).unwrap(), "reactTs");
    assert_eq!(template_id_at(0).unwrap_err(), LintError::UnknownTemplate);
    assert_eq!(template_id_at(5).unwrap_err(), LintError::UnknownTemplate);
    assert_eq!(template_id_at(usize::MAX).unwrap_err(), LintError::UnknownTemplate);
    for i in 1..5 {
        assert!(get_template_content(template_id_at(i).unwrap()).is_ok());
    }
}
