use pinoc::content;
use pinoc::render::{render, TemplateId, TemplateParams};
use pinoc::templates::{self, instructions, minimal};
use pinoc::text::replace_all;

const ALL: [TemplateId; 16] = [
    TemplateId::Readme,
    TemplateId::Gitignore,
    TemplateId::LibRs,
    TemplateId::Entrypoint,
    TemplateId::Errors,
    TemplateId::InstructionsMod,
    TemplateId::Initialize,
    TemplateId::StatesMod,
    TemplateId::State,
    TemplateId::Utils,
    TemplateId::UnitTests,
    TemplateId::CargoToml,
    TemplateId::PinocToml,
    TemplateId::MinimalLibRs,
    TemplateId::MinimalReadme,
    TemplateId::MinimalCargoToml,
];

fn params() -> TemplateParams {
    TemplateParams {
        project_name: "my_prog".to_string(),
        program_address: "Prog1111".to_string(),
        user_address: "User2222".to_string(),
    }
}

#[test]
fn rendering_twice_gives_identical_text() {
    for id in ALL {
        assert_eq!(render(id, &params()), render(id, &params()));
    }
}

#[test]
fn rendering_fills_the_parameters() {
    let p = params();
    assert!(render(TemplateId::LibRs, &p).ends_with("pinocchio_pubkey::declare_id!(\"Prog1111\");"));
    assert!(render(TemplateId::MinimalLibRs, &p).contains("declare_id!(\"Prog1111\");"));
    assert!(!render(TemplateId::MinimalLibRs, &p).contains("{program_address}"));
    assert!(render(TemplateId::UnitTests, &p).contains("pubkey!(\"User2222\")"));
    assert!(!render(TemplateId::UnitTests, &p).contains("{address}"));
    assert!(render(TemplateId::CargoToml, &p).starts_with("[package]\nname = \"my_prog\"\n"));
    assert!(render(TemplateId::MinimalReadme, &p).starts_with("# my_prog\n"));
    assert!(render(TemplateId::MinimalCargoToml, &p).contains("name = \"my_prog\""));
}

#[test]
fn fixed_templates_are_returned_unchanged() {
    assert_eq!(templates::gitignore(), "/target\n.env");
    assert_eq!(content::gitignore(), "/target\n.env");
    assert!(templates::pinoc_toml().contains("cluster = \"localhost\""));
    assert!(templates::entrypoint_rs().contains("instructions::initialize(accounts, instruction_data)"));
    assert!(content::entrypoint_rs().contains("instructions::initilaize(accounts, instruction_data)"));
    assert!(templates::readme_md().starts_with("# Pinoc Pinocchio Project"));
    assert!(content::readme_md().starts_with("# Chio Pinocchio Project"));
    assert!(templates::errors_rs().contains("pub enum MyProgramError"));
    assert_eq!(templates::errors_rs(), content::errors_rs());
    assert!(instructions::initialize().contains("pub fn initialize(accounts"));
    assert!(content::initilaize().contains("pub fn initilaize(accounts"));
    assert_eq!(instructions::instructions_mod_rs(), content::instructions_mod_rs());
    assert!(content::states_mod_rs().starts_with("pub mod state;"));
    assert!(content::state_rs().contains("pub struct MyState"));
    assert!(content::utils_rs().contains("pub trait DataLen"));
}

#[test]
fn address_templates_embed_the_address_once() {
    assert_eq!(content::lib_rs("Q").matches("\"Q\"").count(), 1);
    assert_eq!(templates::lib_rs("Q"), content::lib_rs("Q"));
    assert_eq!(minimal::lib_rs("Q").matches("declare_id!(\"Q\")").count(), 1);
    assert_eq!(content::unit_test_rs("P").matches("pubkey!(\"P\")").count(), 1);
    assert!(minimal::readme_md("demo").starts_with("# demo\n\nA minimal Solana program"));
    assert!(minimal::cargo_toml("demo").contains("pinocchio-pubkey = \"0.2.4\""));
    assert!(templates::cargo_toml("demo").contains("mollusk-svm = \"0.3.0\""));
}

#[test]
fn token_without_value_stays_unresolved() {
    assert_eq!(replace_all("a {x} b", "{y}", "v"), "a {x} b");
    assert_eq!(replace_all("{y}{y}", "{y}", "v"), "vv");
    assert_eq!(replace_all("", "{y}", "v"), "");
}
