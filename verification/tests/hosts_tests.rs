use mimikry::hosts::{cleanup_hosts, is_tagged, override_line, update_hosts};

fn base_lines() -> Vec<String> {
    vec![
        "127.0.0.1 localhost".to_string(),
        "# static entries below".to_string(),
        "::1     localhost ip6-localhost".to_string(),
        "".to_string(),
    ]
}

#[test]
fn override_line_has_expected_form() {
    let line = override_line("example.test");
    assert_eq!(line, "127.0.0.1 example.test #mimikry-entry");
}

#[test]
fn update_hosts_emits_one_tagged_line_per_domain_in_order() {
    let domains = vec!["github.com".to_string(), "mysite.org".to_string()];
    let lines = update_hosts(&domains);
    assert_eq!(
        lines,
        vec![
            "127.0.0.1 github.com #mimikry-entry".to_string(),
            "127.0.0.1 mysite.org #mimikry-entry".to_string(),
        ]
    );
    for line in &lines {
        assert!(is_tagged(line));
    }
}

#[test]
fn update_hosts_keeps_duplicates() {
    let domains = vec!["dup.test".to_string(), "dup.test".to_string()];
    let lines = update_hosts(&domains);
    assert_eq!(lines.len(), 2);
    assert_eq!(lines[0], lines[1]);
}

#[test]
fn add_then_cleanup_restores_untagged_lines() {
    let mut file = base_lines();
    let domains = vec!["github.com".to_string(), "mysite.org".to_string()];
    file.extend(update_hosts(&domains));
    let cleaned = cleanup_hosts(&file).expect("tagged lines must force a rewrite");
    assert_eq!(cleaned, base_lines());
}

#[test]
fn cleanup_without_tagged_lines_writes_nothing() {
    let file = base_lines();
    assert!(cleanup_hosts(&file).is_none());
}

#[test]
fn cleanup_of_empty_file_writes_nothing() {
    let file: Vec<String> = Vec::new();
    assert!(cleanup_hosts(&file).is_none());
}

#[test]
fn double_add_gives_two_tagged_lines_per_domain_and_one_cleanup_removes_all() {
    let mut file = base_lines();
    let domains = vec!["github.com".to_string(), "mysite.org".to_string()];
    file.extend(update_hosts(&domains));
    file.extend(update_hosts(&domains));
    let tagged_count = file.iter().filter(|l| is_tagged(l)).count();
    assert_eq!(tagged_count, 4);
    let cleaned = cleanup_hosts(&file).expect("tagged lines must force a rewrite");
    assert_eq!(cleaned, base_lines());
    assert!(cleaned.iter().all(|l| !is_tagged(l)));
}

#[test]
fn cleanup_preserves_untagged_lines_interleaved_with_tagged_ones() {
    let file = vec![
        "127.0.0.1 localhost".to_string(),
        "127.0.0.1 stale.test #mimikry-entry".to_string(),
        "# keep me".to_string(),
        "127.0.0.1 old.test #mimikry-entry".to_string(),
        "::1 localhost".to_string(),
    ];
    let cleaned = cleanup_hosts(&file).expect("tagged lines must force a rewrite");
    assert_eq!(
        cleaned,
        vec![
            "127.0.0.1 localhost".to_string(),
            "# keep me".to_string(),
            "::1 localhost".to_string(),
        ]
    );
}

#[test]
fn tag_detection_trims_trailing_whitespace_only() {
    assert!(is_tagged("127.0.0.1 x #mimikry-entry"));
    assert!(is_tagged("127.0.0.1 x #mimikry-entry   "));
    assert!(is_tagged("127.0.0.1 x #mimikry-entry\t\r"));
    assert!(is_tagged("#mimikry-entry"));
    assert!(!is_tagged(""));
    assert!(!is_tagged("127.0.0.1 x"));
    assert!(!is_tagged("127.0.0.1 x #mimikry-entryX"));
    assert!(!is_tagged("#mimikry-entry and more"));
}
