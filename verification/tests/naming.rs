use frb_plugin_tool::plugin_name::PluginName;
use frb_plugin_tool::plugin_name::trim_ends;

#[test]
fn trim_removes_surrounding_whitespace() {
    assert_eq!(trim_ends("  hello_dart \n"), "hello_dart");
    assert_eq!(trim_ends("\t a b \r\n"), "a b");
    assert_eq!(trim_ends("hello"), "hello");
    assert_eq!(trim_ends(""), "");
    assert_eq!(trim_ends(" \t\r\n "), "");
}

#[test]
fn trim_covers_unicode_whitespace() {
    assert_eq!(trim_ends("\u{A0}\u{2003}hello_dart\u{3000}"), "hello_dart");
    assert_eq!(trim_ends("\u{0B}\u{0C}x\u{85}\u{2028}"), "x");
    assert_eq!(trim_ends("\u{A0} \u{2000}\u{205F}"), "");
    // Whitespace inside the name is kept.
    assert_eq!(trim_ends(" a\u{A0}b "), "a\u{A0}b");
}

#[test]
fn unicode_blank_names_are_rejected() {
    assert!(PluginName::new("\u{A0}\u{3000}\u{2028}").is_none());
    assert!(PluginName::new("\u{1680}\u{202F}").is_none());
}

#[test]
fn name_is_trimmed_and_non_empty() {
    let p = PluginName::new("  hello_dart \n").unwrap();
    assert_eq!(p.as_str(), "hello_dart");
    let q = PluginName::new("hi_ldd_plugin").unwrap();
    assert_eq!(q.as_str(), "hi_ldd_plugin");
}

#[test]
fn blank_names_are_rejected() {
    assert!(PluginName::new("").is_none());
    assert!(PluginName::new("   ").is_none());
    assert!(PluginName::new(" \t\r\n ").is_none());
}

#[test]
fn name_clone_keeps_text() {
    let p = PluginName::new("hello_dart").unwrap();
    let q = p.clone();
    assert_eq!(q.as_str(), "hello_dart");
}
