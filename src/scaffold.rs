//! The directory tree and files of a new project, as an ordered plan.
use vstd::prelude::*;
use crate::render::{render, rendered, TemplateId, TemplateParams};

verus! {

/// The project root, as the directory of a file.
pub const ROOT_DIR: &'static str = "";

pub const SRC_DIR: &'static str = "src";

pub const INSTRUCTIONS_DIR: &'static str = "src/instructions";

pub const STATES_DIR: &'static str = "src/states";

pub const TESTS_DIR: &'static str = "tests";

/// One step of generating a project; paths are relative to the project root.
#[derive(Debug)]
pub enum ScaffoldOp {
    /// Create the directory, with any missing parents.
    CreateDir { path: String },
    /// Write `contents` to the file `name` in directory `dir`, replacing any file there.
    WriteFile { dir: String, name: String, contents: String },
}

/// A scaffold step as values.
pub enum ScaffoldStep {
    CreateDir(Seq<char>),
    WriteFile(Seq<char>, Seq<char>, Seq<char>),
}

impl View for ScaffoldOp {
    type V = ScaffoldStep;

    open spec fn view(&self) -> ScaffoldStep {
        match self {
            ScaffoldOp::CreateDir { path } => ScaffoldStep::CreateDir(path@),
            ScaffoldOp::WriteFile { dir, name, contents } => ScaffoldStep::WriteFile(
                dir@,
                name@,
                contents@,
            ),
        }
    }
}

pub open spec fn steps(ops: Seq<ScaffoldOp>) -> Seq<ScaffoldStep> {
    ops.map_values(|o: ScaffoldOp| o@)
}

pub open spec fn write_step(
    dir: Seq<char>,
    name: Seq<char>,
    id: TemplateId,
    p: (Seq<char>, Seq<char>, Seq<char>),
) -> ScaffoldStep {
    ScaffoldStep::WriteFile(dir, name, rendered(id, p))
}

/// The steps that generate a project with parameters `p`: the full project
/// with its instructions, states and tests, or, without boilerplate, only
/// the read-me, ignore list, crate root and manifest.
pub open spec fn scaffold_steps(boilerplate: bool, p: (Seq<char>, Seq<char>, Seq<char>)) -> Seq<
    ScaffoldStep,
> {
    if boilerplate {
        seq![
            write_step(ROOT_DIR@, "README.md"@, TemplateId::Readme, p),
            write_step(ROOT_DIR@, ".gitignore"@, TemplateId::Gitignore, p),
            ScaffoldStep::CreateDir(SRC_DIR@),
            write_step(SRC_DIR@, "lib.rs"@, TemplateId::LibRs, p),
            write_step(SRC_DIR@, "entrypoint.rs"@, TemplateId::Entrypoint, p),
            write_step(SRC_DIR@, "errors.rs"@, TemplateId::Errors, p),
            ScaffoldStep::CreateDir(INSTRUCTIONS_DIR@),
            write_step(INSTRUCTIONS_DIR@, "mod.rs"@, TemplateId::InstructionsMod, p),
            write_step(INSTRUCTIONS_DIR@, "initialize.rs"@, TemplateId::Initialize, p),
            ScaffoldStep::CreateDir(STATES_DIR@),
            write_step(STATES_DIR@, "mod.rs"@, TemplateId::StatesMod, p),
            write_step(STATES_DIR@, "utils.rs"@, TemplateId::Utils, p),
            write_step(STATES_DIR@, "state.rs"@, TemplateId::State, p),
            ScaffoldStep::CreateDir(TESTS_DIR@),
            write_step(TESTS_DIR@, "tests.rs"@, TemplateId::UnitTests, p),
            write_step(ROOT_DIR@, "Cargo.toml"@, TemplateId::CargoToml, p),
        ]
    } else {
        seq![
            write_step(ROOT_DIR@, "README.md"@, TemplateId::MinimalReadme, p),
            write_step(ROOT_DIR@, ".gitignore"@, TemplateId::Gitignore, p),
            ScaffoldStep::CreateDir(SRC_DIR@),
            write_step(SRC_DIR@, "lib.rs"@, TemplateId::MinimalLibRs, p),
            write_step(ROOT_DIR@, "Cargo.toml"@, TemplateId::MinimalCargoToml, p),
        ]
    }
}

fn write_op(dir: &str, name: &str, id: TemplateId, params: &TemplateParams) -> (r: ScaffoldOp)
    ensures
        r@ == write_step(dir@, name@, id, params@),
{
    ScaffoldOp::WriteFile {
        dir: String::from_str(dir),
        name: String::from_str(name),
        contents: render(id, params),
    }
}

fn dir_op(path: &str) -> (r: ScaffoldOp)
    ensures
        r@ == ScaffoldStep::CreateDir(path@),
{
    ScaffoldOp::CreateDir { path: String::from_str(path) }
}

/// The ordered steps that generate a project rendered with `params`.
pub fn scaffold_plan(boilerplate: bool, params: &TemplateParams) -> (r: Vec<ScaffoldOp>)
    ensures
        steps(r@) == scaffold_steps(boilerplate, params@),
{
    let mut ops: Vec<ScaffoldOp> = Vec::new();
    if boilerplate {
        ops.push(write_op(ROOT_DIR, "README.md", TemplateId::Readme, params));
        ops.push(write_op(ROOT_DIR, ".gitignore", TemplateId::Gitignore, params));
        ops.push(dir_op(SRC_DIR));
        ops.push(write_op(SRC_DIR, "lib.rs", TemplateId::LibRs, params));
        ops.push(write_op(SRC_DIR, "entrypoint.rs", TemplateId::Entrypoint, params));
        ops.push(write_op(SRC_DIR, "errors.rs", TemplateId::Errors, params));
        ops.push(dir_op(INSTRUCTIONS_DIR));
        ops.push(write_op(INSTRUCTIONS_DIR, "mod.rs", TemplateId::InstructionsMod, params));
        ops.push(write_op(INSTRUCTIONS_DIR, "initialize.rs", TemplateId::Initialize, params));
        ops.push(dir_op(STATES_DIR));
        ops.push(write_op(STATES_DIR, "mod.rs", TemplateId::StatesMod, params));
        ops.push(write_op(STATES_DIR, "utils.rs", TemplateId::Utils, params));
        ops.push(write_op(STATES_DIR, "state.rs", TemplateId::State, params));
        ops.push(dir_op(TESTS_DIR));
        ops.push(write_op(TESTS_DIR, "tests.rs", TemplateId::UnitTests, params));
        ops.push(write_op(ROOT_DIR, "Cargo.toml", TemplateId::CargoToml, params));
    } else {
        ops.push(write_op(ROOT_DIR, "README.md", TemplateId::MinimalReadme, params));
        ops.push(write_op(ROOT_DIR, ".gitignore", TemplateId::Gitignore, params));
        ops.push(dir_op(SRC_DIR));
        ops.push(write_op(SRC_DIR, "lib.rs", TemplateId::MinimalLibRs, params));
        ops.push(write_op(ROOT_DIR, "Cargo.toml", TemplateId::MinimalCargoToml, params));
    }
    assert(steps(ops@) =~= scaffold_steps(boilerplate, params@));
    ops
}

/// Each file outside the project root is written after its directory is created.
pub proof fn lemma_dirs_before_files(boilerplate: bool, p: (Seq<char>, Seq<char>, Seq<char>))
    ensures
        forall|i: int|
            0 <= i < scaffold_steps(boilerplate, p).len() ==> match #[trigger] scaffold_steps(
                boilerplate,
                p,
            )[i] {
                ScaffoldStep::WriteFile(dir, _, _) => dir == ROOT_DIR@ || exists|j: int|
                    0 <= j < i && scaffold_steps(boilerplate, p)[j] == ScaffoldStep::CreateDir(
                        dir,
                    ),
                ScaffoldStep::CreateDir(_) => true,
            },
{
    let s = scaffold_steps(boilerplate, p);
    if boilerplate {
        assert(s[2] == ScaffoldStep::CreateDir(SRC_DIR@));
        assert(s[6] == ScaffoldStep::CreateDir(INSTRUCTIONS_DIR@));
        assert(s[9] == ScaffoldStep::CreateDir(STATES_DIR@));
        assert(s[13] == ScaffoldStep::CreateDir(TESTS_DIR@));
    } else {
        assert(s[2] == ScaffoldStep::CreateDir(SRC_DIR@));
    }
}

} // verus!
