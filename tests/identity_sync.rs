use pinoc::keys::{
    declaration_for, extract_current_program_id, extract_project_name, is_keypair_file,
    keypair_path, listed_key, program_name_of, project_name_from_manifest, reconcile,
    update_declare_id, SyncOutcome,
};
use pinoc::error::PinocError;
use pinoc::tool::ToolOutput;

fn source_with(id: &str) -> String {
    format!(
        "#![no_std]\n\npub mod errors;\n\npinocchio_pubkey::declare_id!(\"{}\");\n// end\n",
        id
    )
}

#[test]
fn divergence_repair_rewrites_only_the_declaration() {
    let src = source_with("AAA...111");
    match reconcile(&src, "BBB...222") {
        SyncOutcome::Diverged { previous, updated_source } => {
            assert_eq!(previous.as_deref(), Some("AAA...111"));
            assert_eq!(updated_source, source_with("BBB...222"));
            let before: Vec<&str> = src.split('\n').collect();
            let after: Vec<&str> = updated_source.split('\n').collect();
            assert_eq!(before.len(), after.len());
            for (b, a) in before.iter().zip(after.iter()) {
                if b.contains("declare_id!") {
                    assert_eq!(*a, "pinocchio_pubkey::declare_id!(\"BBB...222\");");
                } else {
                    assert_eq!(a, b);
                }
            }
        }
        other => panic!("expected a divergence, got {:?}", other),
    }
}

#[test]
fn consistent_source_is_left_alone_twice() {
    let src = source_with("BBB...222");
    assert!(matches!(reconcile(&src, "BBB...222"), SyncOutcome::Consistent));
    assert!(matches!(reconcile(&src, "BBB...222"), SyncOutcome::Consistent));
}

#[test]
fn repaired_source_is_consistent_on_the_next_run() {
    let src = source_with("AAA...111");
    let updated = match reconcile(&src, "BBB...222") {
        SyncOutcome::Diverged { updated_source, .. } => updated_source,
        other => panic!("expected a divergence, got {:?}", other),
    };
    assert!(matches!(reconcile(&updated, "BBB...222"), SyncOutcome::Consistent));
}

#[test]
fn missing_declaration_suggests_a_line() {
    let src = "#![no_std]\npub mod errors;\n";
    match reconcile(src, "BBB...222") {
        SyncOutcome::MacroMissing { suggestion } => {
            assert_eq!(suggestion, "pinocchio_pubkey::declare_id!(\"BBB...222\");");
        }
        other => panic!("expected a missing declaration, got {:?}", other),
    }
    assert!(update_declare_id(src, "BBB...222").is_none());
}

#[test]
fn declaration_without_quoted_id_is_rewritten() {
    let src = "use x;\ndeclare_id!(ID);\nfn f() {}";
    match reconcile(src, "KEY") {
        SyncOutcome::Diverged { previous, updated_source } => {
            assert_eq!(previous, None);
            assert_eq!(updated_source, "use x;\npinocchio_pubkey::declare_id!(\"KEY\");\nfn f() {}");
        }
        other => panic!("expected a divergence, got {:?}", other),
    }
}

#[test]
fn comparison_is_case_sensitive() {
    let src = source_with("abc");
    assert!(matches!(reconcile(&src, "ABC"), SyncOutcome::Diverged { .. }));
}

#[test]
fn program_id_is_read_from_first_declaration() {
    let src = "a\n  pinocchio_pubkey::declare_id!(\"First1\");\ndeclare_id!(\"Second2\");";
    assert_eq!(extract_current_program_id(src).as_deref(), Some("First1"));
    assert_eq!(extract_current_program_id("declare_id!(\"open").as_deref(), None);
    assert_eq!(extract_current_program_id("").as_deref(), None);
}

#[test]
fn update_keeps_carriage_returns_of_other_lines() {
    let src = "a\r\ndeclare_id!(\"X\");\r\nb\r\n";
    let updated = update_declare_id(src, "Y").unwrap();
    assert_eq!(updated, "a\r\npinocchio_pubkey::declare_id!(\"Y\");\nb\r\n");
}

#[test]
fn declaration_line_is_canonical() {
    assert_eq!(declaration_for("Z9"), "pinocchio_pubkey::declare_id!(\"Z9\");");
}

#[test]
fn project_name_comes_from_manifest() {
    let manifest = "[package]\nname = \"my_prog\"\nversion = \"0.1.0\"\n";
    assert_eq!(extract_project_name(manifest).as_deref(), Some("my_prog"));
    assert_eq!(extract_project_name("  name = plain  ").as_deref(), Some("plain"));
    assert_eq!(extract_project_name("name = \"a=b\"").as_deref(), Some("a"));
    assert_eq!(extract_project_name("[package]\nversion = \"1\"\n"), None);
    assert!(matches!(
        project_name_from_manifest("[package]\n"),
        Err(PinocError::Configuration)
    ));
    assert_eq!(project_name_from_manifest(manifest).unwrap(), "my_prog");
}

#[test]
fn keypair_locations_and_names() {
    assert_eq!(keypair_path("foo"), "target/deploy/foo-keypair.json");
    assert!(is_keypair_file("foo-keypair.json"));
    assert!(!is_keypair_file("foo.so"));
    assert!(!is_keypair_file("keypair.json"));
    assert_eq!(program_name_of("foo-keypair.json"), "foo");
    assert_eq!(program_name_of("a-keypair.json-keypair.json"), "a");
}

#[test]
fn key_listing_needs_a_successful_lookup() {
    let ok = ToolOutput {
        success: true,
        code: Some(0),
        stdout: "  PubKey123\n".to_string(),
        stderr: String::new(),
    };
    let key = listed_key("foo-keypair.json", &ok).unwrap();
    assert_eq!(key.program, "foo");
    assert_eq!(key.pubkey, "PubKey123");
    assert_eq!(key.file_name, "foo-keypair.json");
    let failed = ToolOutput {
        success: false,
        code: Some(1),
        stdout: String::new(),
        stderr: "bad".to_string(),
    };
    assert!(listed_key("foo-keypair.json", &failed).is_none());
}
