//! Creating a project, step by step: each step's outcome decides the next
//! step, and which failures stop the creation and which only warn.
use vstd::prelude::*;
use crate::error::PinocError;
use crate::keys::{keypair_location, keypair_path, DEPLOY_DIR};
use crate::project::{valid_project_name, validate_project_name};
use crate::render::TemplateParams;
use crate::scaffold::{scaffold_plan, scaffold_steps, steps, ScaffoldOp};
use crate::text::{chars_of, contains, contains_chars, trimmed, views};
use crate::tool::{default_address, is_tool_failure, tool_result, ToolOutput};

verus! {

pub const CARGO: &'static str = "cargo";

pub const KEYGEN: &'static str = "solana-keygen";

pub const SOLANA: &'static str = "solana";

pub const GIT: &'static str = "git";

pub const COMMIT_MESSAGE_HEAD: &'static str = "Initial commit: Setup Pinocchio project '";

pub const COMMIT_MESSAGE_TAIL: &'static str = "'";

/// A failed commit whose error output names one of these lacks the
/// committer's identity.
pub const USER_EMAIL: &'static str = "user.email";

pub const USER_NAME: &'static str = "user.name";

/// The step that a project creation is waiting on.
#[derive(Clone, Copy, Debug, PartialEq, Eq, Structural)]
pub enum InitPhase {
    MakeProjectDir,
    CargoInit,
    MakeDeployDir,
    GenerateKeypair,
    ProgramAddress,
    UserAddress,
    Scaffold,
    GitInit,
    GitAdd,
    GitCommit,
    Done,
}

/// A project creation in progress.
#[derive(Debug)]
pub struct InitSession {
    pub project_name: String,
    pub no_git: bool,
    pub boilerplate: bool,
    pub phase: InitPhase,
    /// The address of the generated keypair, once looked up.
    pub program_address: String,
    /// The invoking user's address, once looked up; empty when unavailable.
    pub user_address: String,
}

/// What the caller is to do next; paths are relative to the project directory,
/// and tools run inside it.
#[derive(Debug)]
pub enum InitAction {
    /// Create the project directory, named after the project, with any missing parents.
    CreateProjectDir,
    /// Create a directory, with any missing parents.
    CreateDir { path: String },
    /// Run `program` with `args`.
    Run { program: String, args: Vec<String> },
    /// Carry out the steps, in order.
    Scaffold { ops: Vec<ScaffoldOp> },
    /// The project is ready.
    Finish,
    /// The creation stops with `error`.
    Abort { error: PinocError },
}

/// A failure that does not stop the creation.
#[derive(Debug)]
pub enum InitNotice {
    /// The user's address could not be looked up; it is left empty.
    UserAddressUnavailable { stderr: String },
    GitInitFailed { stderr: String },
    GitAddFailed { stderr: String },
    /// `needs_identity` tells that git lacks the committer's name or email.
    GitCommitFailed { stderr: String, needs_identity: bool },
}

/// The session after a step, the action to take, and any warning.
#[derive(Debug)]
pub struct InitStep {
    pub session: InitSession,
    pub action: InitAction,
    pub notice: Option<InitNotice>,
}

pub open spec fn is_run(a: InitAction, program: Seq<char>, args: Seq<Seq<char>>) -> bool {
    &&& a matches InitAction::Run { program: p, args: v }
    &&& p@ == program
    &&& views(v@) == args
}

pub open spec fn is_fs_abort(a: InitAction, out: ToolOutput) -> bool {
    a matches InitAction::Abort { error: PinocError::FileSystem { detail } } && detail@
        == out.stderr@
}

pub open spec fn is_tool_abort(a: InitAction, out: ToolOutput) -> bool {
    a matches InitAction::Abort { error } && is_tool_failure(error, out)
}

/// The arguments of the package-manager call that sets up the project.
pub open spec fn cargo_init_args(name: Seq<char>, no_git: bool) -> Seq<Seq<char>> {
    seq!["init"@, "--lib"@, "--name"@, name] + if no_git {
        seq!["--vcs"@, "none"@]
    } else {
        Seq::empty()
    }
}

pub open spec fn keygen_args(name: Seq<char>) -> Seq<Seq<char>> {
    seq!["new"@, "-o"@, keypair_location(name), "--no-bip39-passphrase"@]
}

pub open spec fn program_address_args(name: Seq<char>) -> Seq<Seq<char>> {
    seq!["address"@, "-k"@, keypair_location(name)]
}

pub open spec fn commit_args(name: Seq<char>) -> Seq<Seq<char>> {
    seq!["commit"@, "-m"@, COMMIT_MESSAGE_HEAD@ + name + COMMIT_MESSAGE_TAIL@]
}

/// `t` is `s` moved to `phase`, holding the same project and addresses.
pub open spec fn moved(s: InitSession, t: InitSession, phase: InitPhase) -> bool {
    &&& t.project_name@ == s.project_name@
    &&& t.no_git == s.no_git
    &&& t.boilerplate == s.boilerplate
    &&& t.phase == phase
    &&& t.program_address@ == s.program_address@
    &&& t.user_address@ == s.user_address@
}

/// The step that follows session `s` when its pending step had outcome `out`.
pub open spec fn init_step_follows(s: InitSession, out: ToolOutput, r: InitStep) -> bool {
    let name = s.project_name@;
    let t = r.session;
    let a = r.action;
    match s.phase {
        InitPhase::MakeProjectDir => r.notice is None && if out.success {
            moved(s, t, InitPhase::CargoInit) && is_run(
                a,
                CARGO@,
                cargo_init_args(name, s.no_git),
            )
        } else {
            moved(s, t, InitPhase::Done) && is_fs_abort(a, out)
        },
        InitPhase::CargoInit => r.notice is None && if out.success {
            moved(s, t, InitPhase::MakeDeployDir) && (a matches InitAction::CreateDir { path }
                && path@ == DEPLOY_DIR@)
        } else {
            moved(s, t, InitPhase::Done) && is_tool_abort(a, out)
        },
        InitPhase::MakeDeployDir => r.notice is None && if out.success {
            moved(s, t, InitPhase::GenerateKeypair) && is_run(a, KEYGEN@, keygen_args(name))
        } else {
            moved(s, t, InitPhase::Done) && is_fs_abort(a, out)
        },
        InitPhase::GenerateKeypair => r.notice is None && if out.success {
            moved(s, t, InitPhase::ProgramAddress) && is_run(
                a,
                SOLANA@,
                program_address_args(name),
            )
        } else {
            moved(s, t, InitPhase::Done) && is_tool_abort(a, out)
        },
        InitPhase::ProgramAddress => r.notice is None && if out.success {
            &&& t.project_name@ == name
            &&& t.no_git == s.no_git
            &&& t.boilerplate == s.boilerplate
            &&& t.phase == InitPhase::UserAddress
            &&& t.program_address@ == trimmed(out.stdout@)
            &&& t.user_address@ == s.user_address@
            &&& is_run(a, SOLANA@, seq!["address"@])
        } else {
            moved(s, t, InitPhase::Done) && is_tool_abort(a, out)
        },
        InitPhase::UserAddress => {
            let user = if out.success {
                trimmed(out.stdout@)
            } else {
                Seq::empty()
            };
            &&& t.project_name@ == name
            &&& t.no_git == s.no_git
            &&& t.boilerplate == s.boilerplate
            &&& t.phase == InitPhase::Scaffold
            &&& t.program_address@ == s.program_address@
            &&& t.user_address@ == user
            &&& a matches InitAction::Scaffold { ops } && steps(ops@) == scaffold_steps(
                s.boilerplate,
                (name, s.program_address@, user),
            )
            &&& if out.success {
                r.notice is None
            } else {
                r.notice matches Some(InitNotice::UserAddressUnavailable { stderr })
                    && stderr@ == out.stderr@
            }
        },
        InitPhase::Scaffold => r.notice is None && if !out.success {
            moved(s, t, InitPhase::Done) && is_fs_abort(a, out)
        } else if s.no_git {
            moved(s, t, InitPhase::Done) && a is Finish
        } else {
            moved(s, t, InitPhase::GitInit) && is_run(a, GIT@, seq!["init"@])
        },
        InitPhase::GitInit => if out.success {
            r.notice is None && moved(s, t, InitPhase::GitAdd) && is_run(
                a,
                GIT@,
                seq!["add"@, "."@],
            )
        } else {
            moved(s, t, InitPhase::Done) && a is Finish && (r.notice matches Some(
                InitNotice::GitInitFailed { stderr },
            ) && stderr@ == out.stderr@)
        },
        InitPhase::GitAdd => if out.success {
            r.notice is None && moved(s, t, InitPhase::GitCommit) && is_run(
                a,
                GIT@,
                commit_args(name),
            )
        } else {
            moved(s, t, InitPhase::Done) && a is Finish && (r.notice matches Some(
                InitNotice::GitAddFailed { stderr },
            ) && stderr@ == out.stderr@)
        },
        InitPhase::GitCommit => moved(s, t, InitPhase::Done) && a is Finish && if out.success {
            r.notice is None
        } else {
            r.notice matches Some(InitNotice::GitCommitFailed { stderr, needs_identity })
                && stderr@ == out.stderr@ && needs_identity == (contains(
                out.stderr@,
                USER_EMAIL@,
            ) || contains(out.stderr@, USER_NAME@))
        },
        InitPhase::Done => false,
    }
}

fn strings(items: &[&str]) -> (r: Vec<String>)
    ensures
        r@.len() == items@.len(),
        forall|i: int| 0 <= i < items@.len() ==> (#[trigger] r@[i])@ == items@[i]@,
{
    let mut r: Vec<String> = Vec::new();
    let mut i: usize = 0;
    while i < items.len()
        invariant
            i <= items@.len(),
            r@.len() == i,
            forall|k: int| 0 <= k < i ==> (#[trigger] r@[k])@ == items@[k]@,
        decreases items@.len() - i,
    {
        r.push(String::from_str(items[i]));
        i = i + 1;
    }
    r
}

fn run(program: &str, args: Vec<String>) -> (r: InitAction)
    ensures
        r matches InitAction::Run { program: p, args: v } && p@ == program@ && v@ == args@,
{
    InitAction::Run { program: String::from_str(program), args }
}

fn moved_to(s: InitSession, phase: InitPhase) -> (t: InitSession)
    ensures
        moved(s, t, phase),
{
    InitSession { phase, ..s }
}

fn step(session: InitSession, action: InitAction) -> (r: InitStep)
    ensures
        r.session == session,
        r.action == action,
        r.notice is None,
{
    InitStep { session, action, notice: None }
}

fn fs_abort(out: &ToolOutput) -> (r: InitAction)
    ensures
        is_fs_abort(r, *out),
{
    InitAction::Abort { error: PinocError::FileSystem { detail: out.stderr.clone() } }
}

fn tool_abort(out: &ToolOutput) -> (r: InitAction)
    requires
        !out.success,
    ensures
        is_tool_abort(r, *out),
{
    match tool_result(out) {
        Ok(_) => InitAction::Finish,
        Err(error) => InitAction::Abort { error },
    }
}

/// Begins the creation of project `project_name`. An invalid name is
/// rejected before anything is created.
pub fn start_init(project_name: &str, no_git: bool, no_boilerplate: bool) -> (r: Result<
    InitStep,
    PinocError,
>)
    ensures
        r is Ok <==> valid_project_name(project_name@),
        r matches Err(e) ==> (e matches PinocError::Validation { name } && name@
            == project_name@),
        r matches Ok(st) ==> {
            &&& st.session.project_name@ == project_name@
            &&& st.session.no_git == no_git
            &&& st.session.boilerplate == !no_boilerplate
            &&& st.session.phase == InitPhase::MakeProjectDir
            &&& st.session.program_address@ == Seq::<char>::empty()
            &&& st.session.user_address@ == Seq::<char>::empty()
            &&& st.action is CreateProjectDir
            &&& st.notice is None
        },
{
    match validate_project_name(project_name) {
        Err(e) => Err(e),
        Ok(()) => Ok(
            InitStep {
                session: InitSession {
                    project_name: String::from_str(project_name),
                    no_git,
                    boilerplate: !no_boilerplate,
                    phase: InitPhase::MakeProjectDir,
                    program_address: String::new(),
                    user_address: String::new(),
                },
                action: InitAction::CreateProjectDir,
                notice: None,
            },
        ),
    }
}

/// The step that follows `session` once its pending step had outcome `out`.
/// Failures of the directory, package-manager, key and scaffold steps stop
/// the creation; a failed user-address lookup leaves the address empty; git
/// failures end the creation with a warning.
pub fn advance_init(session: InitSession, out: &ToolOutput) -> (r: InitStep)
    requires
        session.phase != InitPhase::Done,
    ensures
        init_step_follows(session, *out, r),
{
    let ghost s = session;
    proof {
        reveal_strlit("init");
        reveal_strlit("--lib");
        reveal_strlit("--name");
        reveal_strlit("--vcs");
        reveal_strlit("none");
        reveal_strlit("new");
        reveal_strlit("-o");
        reveal_strlit("--no-bip39-passphrase");
        reveal_strlit("address");
        reveal_strlit("-k");
        reveal_strlit("add");
        reveal_strlit(".");
        reveal_strlit("commit");
        reveal_strlit("-m");
    }
    match session.phase {
        InitPhase::MakeProjectDir => {
            if out.success {
                let mut args = strings(&["init", "--lib", "--name"]);
                args.push(session.project_name.clone());
                if session.no_git {
                    args.push(String::from_str("--vcs"));
                    args.push(String::from_str("none"));
                }
                assert(views(args@) =~= cargo_init_args(s.project_name@, s.no_git));
                let a = run(CARGO, args);
                step(moved_to(session, InitPhase::CargoInit), a)
            } else {
                step(moved_to(session, InitPhase::Done), fs_abort(out))
            }
        },
        InitPhase::CargoInit => {
            if out.success {
                let a = InitAction::CreateDir { path: String::from_str(DEPLOY_DIR) };
                step(moved_to(session, InitPhase::MakeDeployDir), a)
            } else {
                step(moved_to(session, InitPhase::Done), tool_abort(out))
            }
        },
        InitPhase::MakeDeployDir => {
            if out.success {
                let mut args = strings(&["new", "-o"]);
                args.push(keypair_path(session.project_name.as_str()));
                args.push(String::from_str("--no-bip39-passphrase"));
                assert(views(args@) =~= keygen_args(s.project_name@));
                let a = run(KEYGEN, args);
                step(moved_to(session, InitPhase::GenerateKeypair), a)
            } else {
                step(moved_to(session, InitPhase::Done), fs_abort(out))
            }
        },
        InitPhase::GenerateKeypair => {
            if out.success {
                let mut args = strings(&["address", "-k"]);
                args.push(keypair_path(session.project_name.as_str()));
                assert(views(args@) =~= program_address_args(s.project_name@));
                let a = run(SOLANA, args);
                step(moved_to(session, InitPhase::ProgramAddress), a)
            } else {
                step(moved_to(session, InitPhase::Done), tool_abort(out))
            }
        },
        InitPhase::ProgramAddress => {
            match tool_result(out) {
                Ok(address) => {
                    let args = strings(&["address"]);
                    assert(views(args@) =~= seq!["address"@]);
                    let a = run(SOLANA, args);
                    let t = InitSession {
                        phase: InitPhase::UserAddress,
                        program_address: address,
                        ..session
                    };
                    step(t, a)
                },
                Err(error) => step(
                    moved_to(session, InitPhase::Done),
                    InitAction::Abort { error },
                ),
            }
        },
        InitPhase::UserAddress => {
            let user = default_address(out);
            let params = TemplateParams {
                project_name: session.project_name.clone(),
                program_address: session.program_address.clone(),
                user_address: user.clone(),
            };
            let ops = scaffold_plan(session.boilerplate, &params);
            let notice = if out.success {
                None
            } else {
                Some(InitNotice::UserAddressUnavailable { stderr: out.stderr.clone() })
            };
            let t = InitSession { phase: InitPhase::Scaffold, user_address: user, ..session };
            InitStep { session: t, action: InitAction::Scaffold { ops }, notice }
        },
        InitPhase::Scaffold => {
            if !out.success {
                step(moved_to(session, InitPhase::Done), fs_abort(out))
            } else if session.no_git {
                step(moved_to(session, InitPhase::Done), InitAction::Finish)
            } else {
                let args = strings(&["init"]);
                assert(views(args@) =~= seq!["init"@]);
                let a = run(GIT, args);
                step(moved_to(session, InitPhase::GitInit), a)
            }
        },
        InitPhase::GitInit => {
            if out.success {
                let args = strings(&["add", "."]);
                assert(views(args@) =~= seq!["add"@, "."@]);
                let a = run(GIT, args);
                step(moved_to(session, InitPhase::GitAdd), a)
            } else {
                InitStep {
                    session: moved_to(session, InitPhase::Done),
                    action: InitAction::Finish,
                    notice: Some(InitNotice::GitInitFailed { stderr: out.stderr.clone() }),
                }
            }
        },
        InitPhase::GitAdd => {
            if out.success {
                let mut args = strings(&["commit", "-m"]);
                let message = String::from_str(COMMIT_MESSAGE_HEAD).concat(
                    session.project_name.as_str(),
                ).concat(COMMIT_MESSAGE_TAIL);
                args.push(message);
                assert(views(args@) =~= commit_args(s.project_name@));
                let a = run(GIT, args);
                step(moved_to(session, InitPhase::GitCommit), a)
            } else {
                InitStep {
                    session: moved_to(session, InitPhase::Done),
                    action: InitAction::Finish,
                    notice: Some(InitNotice::GitAddFailed { stderr: out.stderr.clone() }),
                }
            }
        },
        _ => {
            let notice = if out.success {
                None
            } else {
                let err = chars_of(out.stderr.as_str());
                let needs_identity = contains_chars(&err, &chars_of(USER_EMAIL))
                    || contains_chars(&err, &chars_of(USER_NAME));
                Some(
                    InitNotice::GitCommitFailed { stderr: out.stderr.clone(), needs_identity },
                )
            };
            InitStep {
                session: moved_to(session, InitPhase::Done),
                action: InitAction::Finish,
                notice,
            }
        },
    }
}

} // verus!
