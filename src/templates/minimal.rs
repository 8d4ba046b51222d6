//! The templates of a project without tests or boilerplate.
use vstd::prelude::*;
use crate::text::{replace_all, replaced};

verus! {

/// Where the minimal crate root takes the program address.
pub const PROGRAM_ADDRESS_TOKEN: &'static str = "{program_address}";

pub const CARGO_TOML_HEAD: &'static str = r#"[package]
name = ""#;

pub const CARGO_TOML_TAIL: &'static str = r#""
version = "0.1.0"
edition = "2021"

[lib]
crate-type = ["cdylib", "rlib"]

[dependencies]
pinocchio = "0.8.4"
pinocchio-pubkey = "0.2.4"
"#;

/// The package manifest of `project_name`.
pub fn cargo_toml(project_name: &str) -> (r: String)
    ensures
        r@ == CARGO_TOML_HEAD@ + project_name@ + CARGO_TOML_TAIL@,
{
    String::from_str(CARGO_TOML_HEAD).concat(project_name).concat(CARGO_TOML_TAIL)
}

pub const LIB_RS: &'static str = r#"use pinocchio::{account_info::AccountInfo, pubkey::Pubkey, ProgramResult};

pinocchio_pubkey::declare_id!("{program_address}");

pub fn process_instruction(
    _program_id: &Pubkey,
    _accounts: &[AccountInfo],
    _instruction_data: &[u8],
) -> ProgramResult {
    // Your program logic here
    Ok(())
}
"#;

/// The crate root, declaring `program_address` as the program identity.
pub fn lib_rs(program_address: &str) -> (r: String)
    ensures
        r@ == replaced(LIB_RS@, PROGRAM_ADDRESS_TOKEN@, program_address@),
{
    proof {
        reveal_strlit("{program_address}");
    }
    replace_all(LIB_RS, PROGRAM_ADDRESS_TOKEN, program_address)
}

pub const README_MD_HEAD: &'static str = r#"# "#;

pub const README_MD_TAIL: &'static str = r#"

A minimal Solana program built with Pinocchio.

## Building

```bash
pinoc build
```

## Deployment

```bash
pinoc deploy
```
"#;

/// The read-me of `project_name`.
pub fn readme_md(project_name: &str) -> (r: String)
    ensures
        r@ == README_MD_HEAD@ + project_name@ + README_MD_TAIL@,
{
    String::from_str(README_MD_HEAD).concat(project_name).concat(README_MD_TAIL)
}

} // verus!
