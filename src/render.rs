//! Rendering a named template with the project's parameters.
use vstd::prelude::*;
use crate::content;
use crate::templates;
use crate::templates::{instructions, minimal};
use crate::text::replaced;

verus! {

/// The templates that a project is generated from.
#[derive(Clone, Copy, Debug, PartialEq, Eq, Structural)]
pub enum TemplateId {
    Readme,
    Gitignore,
    LibRs,
    Entrypoint,
    Errors,
    InstructionsMod,
    Initialize,
    StatesMod,
    State,
    Utils,
    UnitTests,
    CargoToml,
    PinocToml,
    MinimalLibRs,
    MinimalReadme,
    MinimalCargoToml,
}

/// The values that templates take.
#[derive(Debug)]
pub struct TemplateParams {
    pub project_name: String,
    pub program_address: String,
    pub user_address: String,
}

impl View for TemplateParams {
    type V = (Seq<char>, Seq<char>, Seq<char>);

    open spec fn view(&self) -> (Seq<char>, Seq<char>, Seq<char>) {
        (self.project_name@, self.program_address@, self.user_address@)
    }
}

/// The text of template `id` rendered with project name, program address
/// and user address `p`.
pub open spec fn rendered(id: TemplateId, p: (Seq<char>, Seq<char>, Seq<char>)) -> Seq<char> {
    let (name, program, user) = p;
    match id {
        TemplateId::Readme => templates::README_MD@,
        TemplateId::Gitignore => templates::GITIGNORE@,
        TemplateId::LibRs => templates::LIB_RS_HEAD@ + program + templates::LIB_RS_TAIL@,
        TemplateId::Entrypoint => templates::ENTRYPOINT_RS@,
        TemplateId::Errors => templates::ERRORS_RS@,
        TemplateId::InstructionsMod => instructions::INSTRUCTIONS_MOD_RS@,
        TemplateId::Initialize => instructions::INITIALIZE_RS@,
        TemplateId::StatesMod => content::STATES_MOD_RS@,
        TemplateId::State => content::STATE_RS@,
        TemplateId::Utils => content::UTILS_RS@,
        TemplateId::UnitTests => replaced(content::UNIT_TEST_RS@, content::ADDRESS_TOKEN@, user),
        TemplateId::CargoToml => templates::CARGO_TOML_HEAD@ + name + templates::CARGO_TOML_TAIL@,
        TemplateId::PinocToml => templates::PINOC_TOML@,
        TemplateId::MinimalLibRs => replaced(
            minimal::LIB_RS@,
            minimal::PROGRAM_ADDRESS_TOKEN@,
            program,
        ),
        TemplateId::MinimalReadme => minimal::README_MD_HEAD@ + name + minimal::README_MD_TAIL@,
        TemplateId::MinimalCargoToml => minimal::CARGO_TOML_HEAD@ + name
            + minimal::CARGO_TOML_TAIL@,
    }
}

/// Renders template `id`: placeholders are replaced literally by the
/// parameters; nothing else is read.
pub fn render(id: TemplateId, params: &TemplateParams) -> (r: String)
    ensures
        r@ == rendered(id, params@),
{
    match id {
        TemplateId::Readme => String::from_str(templates::readme_md()),
        TemplateId::Gitignore => String::from_str(templates::gitignore()),
        TemplateId::LibRs => templates::lib_rs(params.program_address.as_str()),
        TemplateId::Entrypoint => String::from_str(templates::entrypoint_rs()),
        TemplateId::Errors => String::from_str(templates::errors_rs()),
        TemplateId::InstructionsMod => String::from_str(instructions::instructions_mod_rs()),
        TemplateId::Initialize => String::from_str(instructions::initialize()),
        TemplateId::StatesMod => String::from_str(content::states_mod_rs()),
        TemplateId::State => String::from_str(content::state_rs()),
        TemplateId::Utils => String::from_str(content::utils_rs()),
        TemplateId::UnitTests => content::unit_test_rs(params.user_address.as_str()),
        TemplateId::CargoToml => templates::cargo_toml(params.project_name.as_str()),
        TemplateId::PinocToml => String::from_str(templates::pinoc_toml()),
        TemplateId::MinimalLibRs => minimal::lib_rs(params.program_address.as_str()),
        TemplateId::MinimalReadme => minimal::readme_md(params.project_name.as_str()),
        TemplateId::MinimalCargoToml => minimal::cargo_toml(params.project_name.as_str()),
    }
}

/// Rendering depends on the template and the parameter values alone: two
/// renderings of one template with equal parameters give the same text.
pub proof fn lemma_render_deterministic(
    id: TemplateId,
    p: TemplateParams,
    q: TemplateParams,
    first: String,
    second: String,
)
    requires
        p@ == q@,
        first@ == rendered(id, p@),
        second@ == rendered(id, q@),
    ensures
        first@ == second@,
{
}

} // verus!
