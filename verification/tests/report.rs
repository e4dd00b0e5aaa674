use aiq_runner::report::{public_safe_issues, validation_report, TaskLoadIssue};

fn issue(source: &str, code: &str, field: Option<&str>) -> TaskLoadIssue {
    TaskLoadIssue {
        source: source.to_owned(),
        code: code.to_owned(),
        field: field.map(|f| f.to_owned()),
    }
}

#[test]
fn public_report_names_sources_by_scope_and_ordinal() {
    let issues = vec![
        issue("/pub/tasks/a.json", "invalid_json", None),
        issue("/pub/tasks/a.json", "missing_field", Some("task_id")),
        issue("/hid/b.json", "read_error", None),
        issue("/pub/tasks/c.json", "invalid_task", None),
        issue("/elsewhere/d.json", "source_unavailable", None),
        issue("/hid/b.json", "no_such_code", None),
    ];
    let out = public_safe_issues(&issues, Some("/pub/tasks"), Some("/hid"));
    let sources: Vec<&str> = out.iter().map(|i| i.source.as_str()).collect();
    assert_eq!(
        sources,
        vec![
            "public_tasks[1]",
            "public_tasks[1]",
            "hidden_tasks[1]",
            "public_tasks[2]",
            "task_source[1]",
            "hidden_tasks[1]",
        ]
    );
    assert_eq!(out[0].message, "task record is not valid JSON");
    assert_eq!(out[1].field.as_deref(), Some("task_id"));
    assert_eq!(out[1].code, "missing_field");
    assert_eq!(out[4].message, "task source is unavailable");
    assert!(!out.iter().any(|i| i.source.contains("/pub") || i.message.contains("/pub")));
}

#[test]
fn nested_roots_report_the_deeper_scope() {
    let issues = vec![
        issue("/root/hidden/x.json", "invalid_json", None),
        issue("/root/y.json", "invalid_json", None),
        issue("/same/z.json", "invalid_json", None),
    ];
    let out = public_safe_issues(&issues, Some("/root"), Some("/root/hidden"));
    assert_eq!(out[0].source, "hidden_tasks[1]");
    assert_eq!(out[1].source, "public_tasks[1]");
    assert_eq!(out[2].source, "task_source[1]");
    let same = public_safe_issues(&issues[2..].to_vec(), Some("/same"), Some("/same/"));
    assert_eq!(same[0].source, "task_source[1]");
}

#[test]
fn validation_report_is_valid_only_without_issues() {
    let ids = vec!["task-a".to_owned(), "task-b".to_owned()];
    let clean = validation_report(&ids, &Vec::new(), None, None);
    assert_eq!(clean.schema_version, "aiq.validation.v2");
    assert!(clean.valid);
    assert_eq!(clean.task_count, 2);
    assert_eq!(clean.task_ids, ids);
    assert!(clean.issues.is_empty());
    let broken = validation_report(&ids, &vec![issue("/x/y.json", "invalid_json", None)], None, None);
    assert!(!broken.valid);
    assert_eq!(broken.issues[0].source, "task_source[1]");
}
