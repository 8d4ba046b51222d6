use pinoc::error::PinocError;
use pinoc::init::{advance_init, start_init, InitAction, InitNotice, InitPhase, InitSession, InitStep};
use pinoc::scaffold::{scaffold_plan, ScaffoldOp};
use pinoc::render::TemplateParams;
use pinoc::tool::ToolOutput;

fn ok(stdout: &str) -> ToolOutput {
    ToolOutput { success: true, code: Some(0), stdout: stdout.to_string(), stderr: String::new() }
}

fn failed(stderr: &str) -> ToolOutput {
    ToolOutput { success: false, code: Some(1), stdout: String::new(), stderr: stderr.to_string() }
}

fn run_args(step: &InitStep) -> (String, Vec<String>) {
    match &step.action {
        InitAction::Run { program, args } => (program.clone(), args.clone()),
        other => panic!("expected a tool run, got {:?}", other),
    }
}

fn session_at(phase: InitPhase, no_git: bool) -> InitSession {
    InitSession {
        project_name: "demo".to_string(),
        no_git,
        boilerplate: true,
        phase,
        program_address: "Prog".to_string(),
        user_address: String::new(),
    }
}

#[test]
fn invalid_name_stops_before_anything() {
    assert!(matches!(start_init("proj-1", false, false), Err(PinocError::Validation { .. })));
    assert!(matches!(start_init("", false, false), Err(PinocError::Validation { .. })));
}

#[test]
fn creation_runs_its_steps_in_order() {
    let s = start_init("demo", false, false).unwrap();
    assert!(matches!(s.action, InitAction::CreateProjectDir));
    let s = advance_init(s.session, &ok(""));
    assert_eq!(run_args(&s), ("cargo".to_string(), vec!["init".to_string(), "--lib".to_string(), "--name".to_string(), "demo".to_string()]));
    let s = advance_init(s.session, &ok(""));
    match &s.action {
        InitAction::CreateDir { path } => assert_eq!(path, "target/deploy"),
        other => panic!("expected a directory, got {:?}", other),
    }
    let s = advance_init(s.session, &ok(""));
    assert_eq!(run_args(&s).0, "solana-keygen");
    assert_eq!(run_args(&s).1, vec!["new", "-o", "target/deploy/demo-keypair.json", "--no-bip39-passphrase"]);
    let s = advance_init(s.session, &ok(""));
    assert_eq!(run_args(&s), ("solana".to_string(), vec!["address".to_string(), "-k".to_string(), "target/deploy/demo-keypair.json".to_string()]));
    let s = advance_init(s.session, &ok("Prog9999\n"));
    assert_eq!(s.session.program_address, "Prog9999");
    assert_eq!(run_args(&s).1, vec!["address"]);
    let s = advance_init(s.session, &ok(" User1 "));
    assert_eq!(s.session.user_address, "User1");
    assert!(s.notice.is_none());
    match &s.action {
        InitAction::Scaffold { ops } => assert_eq!(ops.len(), 16),
        other => panic!("expected the scaffold, got {:?}", other),
    }
    let s = advance_init(s.session, &ok(""));
    assert_eq!(run_args(&s).1, vec!["init"]);
    let s = advance_init(s.session, &ok(""));
    assert_eq!(run_args(&s).1, vec!["add", "."]);
    let s = advance_init(s.session, &ok(""));
    assert_eq!(run_args(&s).1, vec!["commit", "-m", "Initial commit: Setup Pinocchio project 'demo'"]);
    let s = advance_init(s.session, &ok(""));
    assert!(matches!(s.action, InitAction::Finish));
    assert_eq!(s.session.phase, InitPhase::Done);
}

#[test]
fn no_git_passes_vcs_none_and_ends_after_scaffold() {
    let s = start_init("demo", true, false).unwrap();
    let s = advance_init(s.session, &ok(""));
    assert_eq!(run_args(&s).1, vec!["init", "--lib", "--name", "demo", "--vcs", "none"]);
    let s = advance_init(session_at(InitPhase::Scaffold, true), &ok(""));
    assert!(matches!(s.action, InitAction::Finish));
}

#[test]
fn key_generation_failure_aborts_with_tool_error() {
    let s = advance_init(session_at(InitPhase::GenerateKeypair, false), &failed("no keygen"));
    match s.action {
        InitAction::Abort { error: PinocError::ToolInvocation { stderr, code } } => {
            assert_eq!(stderr, "no keygen");
            assert_eq!(code, Some(1));
        }
        other => panic!("expected an abort, got {:?}", other),
    }
    assert_eq!(s.session.phase, InitPhase::Done);
}

#[test]
fn directory_failure_aborts_with_file_system_error() {
    let s = advance_init(session_at(InitPhase::MakeProjectDir, false), &failed("denied"));
    assert!(matches!(s.action, InitAction::Abort { error: PinocError::FileSystem { .. } }));
}

#[test]
fn user_address_failure_degrades_to_empty() {
    let s = advance_init(session_at(InitPhase::UserAddress, false), &failed("no config"));
    assert_eq!(s.session.user_address, "");
    assert!(matches!(s.notice, Some(InitNotice::UserAddressUnavailable { .. })));
    assert!(matches!(s.action, InitAction::Scaffold { .. }));
}

#[test]
fn git_failures_only_warn() {
    let s = advance_init(session_at(InitPhase::GitInit, false), &failed("no git"));
    assert!(matches!(s.action, InitAction::Finish));
    assert!(matches!(s.notice, Some(InitNotice::GitInitFailed { .. })));
    let s = advance_init(session_at(InitPhase::GitCommit, false), &failed("Please tell me who you are: user.email"));
    assert!(matches!(s.notice, Some(InitNotice::GitCommitFailed { needs_identity: true, .. })));
    let s = advance_init(session_at(InitPhase::GitCommit, false), &failed("nothing to commit"));
    assert!(matches!(s.notice, Some(InitNotice::GitCommitFailed { needs_identity: false, .. })));
}

#[test]
fn scaffold_creates_directories_before_their_files() {
    let params = TemplateParams {
        project_name: "demo".to_string(),
        program_address: "Prog".to_string(),
        user_address: "User".to_string(),
    };
    let ops = scaffold_plan(true, &params);
    let mut made: Vec<String> = vec![String::new()];
    let mut files: Vec<String> = Vec::new();
    for op in &ops {
        match op {
            ScaffoldOp::CreateDir { path } => made.push(path.clone()),
            ScaffoldOp::WriteFile { dir, name, contents } => {
                assert!(made.contains(dir));
                assert!(!contents.is_empty());
                files.push(if dir.is_empty() { name.clone() } else { format!("{}/{}", dir, name) });
            }
        }
    }
    assert_eq!(files, vec![
        "README.md", ".gitignore", "src/lib.rs", "src/entrypoint.rs", "src/errors.rs",
        "src/instructions/mod.rs", "src/instructions/initialize.rs", "src/states/mod.rs",
        "src/states/utils.rs", "src/states/state.rs", "tests/tests.rs", "Cargo.toml",
    ]);
    let minimal = scaffold_plan(false, &params);
    assert_eq!(minimal.len(), 5);
}
