use pinoc::deploy::{deploy_arguments, deploy_settings, expand_home, find_program_artifact, is_program_artifact};
use pinoc::error::PinocError;
use pinoc::text::{join_lines, split_lines, trim};
use pinoc::tool::{default_address, tool_result, ToolOutput};

#[test]
fn trim_removes_unicode_white_space() {
    assert_eq!(trim("  a b\t\n"), "a b");
    assert_eq!(trim("\u{3000}x\u{a0}"), "x");
    assert_eq!(trim("   "), "");
    assert_eq!(trim(""), "");
}

#[test]
fn lines_split_and_join_back() {
    let text = "a\n\nb\r\n";
    let lines = split_lines(text);
    assert_eq!(lines, vec!["a", "", "b\r", ""]);
    assert_eq!(join_lines(&lines), text);
    assert_eq!(split_lines(""), vec![""]);
    assert_eq!(join_lines(&Vec::new()), "");
}

#[test]
fn tool_success_gives_trimmed_output() {
    let out = ToolOutput { success: true, code: Some(0), stdout: " Addr1\n".to_string(), stderr: String::new() };
    assert_eq!(tool_result(&out).unwrap(), "Addr1");
    assert_eq!(default_address(&out), "Addr1");
}

#[test]
fn tool_failure_carries_stderr_and_code() {
    let out = ToolOutput { success: false, code: Some(2), stdout: "x".to_string(), stderr: "boom".to_string() };
    match tool_result(&out) {
        Err(PinocError::ToolInvocation { stderr, code }) => {
            assert_eq!(stderr, "boom");
            assert_eq!(code, Some(2));
        }
        other => panic!("expected a tool failure, got {:?}", other),
    }
    assert_eq!(default_address(&out), "");
}

#[test]
fn deploy_settings_prefer_override_then_config_then_default() {
    let config = "[provider]\ncluster = \"devnet\"\nwallet = \"~/w.json\"\n";
    let s = deploy_settings(Some("mainnet"), None, Some(config));
    assert_eq!(s.cluster, "mainnet");
    assert_eq!(s.wallet, "~/w.json");
    let d = deploy_settings(None, None, None);
    assert_eq!(d.cluster, "localhost");
    assert_eq!(d.wallet, "~/.config/solana/id.json");
    let partial = deploy_settings(None, Some("me.json"), Some("[provider]\n"));
    assert_eq!(partial.cluster, "localhost");
    assert_eq!(partial.wallet, "me.json");
}

#[test]
fn artifacts_are_files_with_so_extension() {
    assert!(is_program_artifact("demo.so"));
    assert!(!is_program_artifact(".so"));
    assert!(!is_program_artifact("demo-keypair.json"));
    let names: Vec<String> = vec!["demo-keypair.json".into(), "demo.so".into(), "other.so".into()];
    assert_eq!(find_program_artifact(&names), Some(1));
    assert_eq!(find_program_artifact(&Vec::new()), None);
}

#[test]
fn home_is_expanded_only_at_the_start() {
    assert_eq!(expand_home("~/.config/solana/id.json", "/home/u"), "/home/u/.config/solana/id.json");
    assert_eq!(expand_home("~", "/home/u"), "/home/u");
    assert_eq!(expand_home("/abs/~/x", "/home/u"), "/abs/~/x");
    assert_eq!(expand_home("~other", "/home/u"), "~other");
}

#[test]
fn deploy_arguments_in_order() {
    assert_eq!(
        deploy_arguments("devnet", "/w.json", "target/deploy/demo.so"),
        vec!["program", "deploy", "--url", "devnet", "--keypair", "/w.json", "target/deploy/demo.so"]
    );
}
