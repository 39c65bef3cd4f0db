use joshagachi_logic::debug_properties::{dwarf_label, dwarf_label_from_tokens, DebugProperties};
use joshagachi_logic::web::cors_headers;

#[test]
fn dwarf_label_by_gender() {
    let male = dwarf_label("Urist McAxe \u{2642}\u{fe0f}").ok().unwrap();
    assert_eq!(male.text, "Urist McAxe");
    assert_eq!(male.color_hex, "#00a0FF");
    let female = dwarf_label("  Kadol\tTosid \u{2640}\u{fe0f} ").ok().unwrap();
    assert_eq!(female.text, "Kadol Tosid");
    assert_eq!(female.color_hex, "#FF40B0");
    let spaced = dwarf_label("Ast\u{a0}Ber\u{3000}\u{2640}\u{fe0f}").ok().unwrap();
    assert_eq!(spaced.text, "Ast Ber");
    assert_eq!(spaced.color_hex, "#FF40B0");
    let other = dwarf_label("Ast Ber ?").ok().unwrap();
    assert_eq!(other.color_hex, "#00cc00");
}

#[test]
fn dwarf_label_wrong_token_count() {
    let err = dwarf_label("Urist McAxe").err().unwrap();
    assert_eq!(err, "Invalid amount of tokens for name 'Urist McAxe'");
    let err = dwarf_label("a b c d").err().unwrap();
    assert_eq!(err, "Invalid amount of tokens for name 'a b c d'");
}

#[test]
fn dwarf_label_from_given_tokens() {
    let label = dwarf_label_from_tokens("x", &vec!["A", "B", "\u{2642}\u{fe0f}"]).ok().unwrap();
    assert_eq!(label.text, "A B");
    assert_eq!(label.color_hex, "#00a0FF");
}

#[test]
fn display_plan_and_banner() {
    let props = DebugProperties {
        build_time_nice: Some("Tuesday".to_string()),
        build_dwarf_name: Some("Urist McAxe \u{2642}\u{fe0f}".to_string()),
    };
    let plan = props.display_plan().ok().unwrap();
    assert_eq!(plan.dwarf_label.unwrap().text, "Urist McAxe");
    assert_eq!(plan.build_time.as_deref(), Some("Tuesday"));
    assert_eq!(props.banner(), "\u{26cf}\u{fe0f} Urist McAxe \u{2642}\u{fe0f} \u{2692}\u{fe0f} (Tuesday)");

    let empty = DebugProperties { build_time_nice: None, build_dwarf_name: None };
    let plan = empty.display_plan().ok().unwrap();
    assert!(plan.dwarf_label.is_none());
    assert!(plan.build_time.is_none());
    assert_eq!(empty.banner(), "\u{26cf}\u{fe0f} No dwarf name :( \u{2692}\u{fe0f} (No nice build time :()");

    let bad = DebugProperties { build_time_nice: None, build_dwarf_name: Some("Solo".to_string()) };
    assert_eq!(bad.display_plan().err().unwrap(), "Invalid amount of tokens for name 'Solo'");
}

#[test]
fn cors_headers_are_set() {
    assert_eq!(
        cors_headers(),
        vec![
            ("Access-Control-Allow-Origin", "*"),
            ("Cross-Origin-Embedder-Policy", "require-corp"),
            ("Cross-Origin-Opener-Policy", "same-origin"),
        ]
    );
}
