use pinoc::search::{parse_cargo_search_output, parse_search_line, search_term};

#[test]
fn search_line_with_description() {
    let r = parse_search_line("pinocchio-log = \"0.4.0\"    # logging helper").unwrap();
    assert_eq!(r.name, "pinocchio-log");
    assert_eq!(r.version, "0.4.0");
    assert_eq!(r.description, "logging helper");
}

#[test]
fn truncation_note_gives_nothing() {
    assert!(parse_search_line("... and 42 crates more").is_none());
    let all = parse_cargo_search_output("... and 42 crates more (use --limit N to see more)\n")
        .unwrap();
    assert!(all.is_empty());
}

#[test]
fn line_without_separator_gives_nothing() {
    assert!(parse_search_line("pinocchio \"0.1.0\" # no separator").is_none());
    assert!(parse_search_line("name = no quotes here").is_none());
    assert!(parse_search_line("name = \"unterminated").is_none());
    assert!(parse_search_line("   ").is_none());
}

#[test]
fn missing_description_gets_placeholder() {
    let r = parse_search_line("pinocchio = \"0.8.4\"").unwrap();
    assert_eq!(r.name, "pinocchio");
    assert_eq!(r.version, "0.8.4");
    assert_eq!(r.description, "No description available");
}

#[test]
fn whole_output_keeps_order_and_skips_noise() {
    let out = "pinocchio = \"0.8.4\"           # Create Solana programs with no external dependencies attached\n\
               \n\
               garbage line\n\
               pinocchio-system = \"0.2.3\"    # System program helpers\n\
               ... and 12 crates more (use --limit N to see more)\n";
    let all = parse_cargo_search_output(out).unwrap();
    assert_eq!(all.len(), 2);
    assert_eq!(all[0].name, "pinocchio");
    assert_eq!(all[0].description, "Create Solana programs with no external dependencies attached");
    assert_eq!(all[1].name, "pinocchio-system");
    assert_eq!(all[1].version, "0.2.3");
    assert_eq!(all[1].description, "System program helpers");
    assert!(parse_cargo_search_output("").unwrap().is_empty());
}

#[test]
fn search_term_adds_query() {
    assert_eq!(search_term(None), "pinocchio");
    assert_eq!(search_term(Some("log")), "pinocchio log");
}
