use screenguard_agent::account::{account_key, keys_call_for_rebind, should_rebind};

#[test]
fn rebind_only_on_explicit_different_account() {
    // not paired yet -> never a rebind, whatever is asked
    assert!(!should_rebind(false, None, Some("a@x")));
    // same account, any case / whitespace -> no rebind
    assert!(!should_rebind(true, Some("a@x"), Some("a@x")));
    assert!(!should_rebind(true, Some("a@x"), Some("  A@X ")));
    // paired, no account requested (plain restart / flag dropped) -> left alone
    assert!(!should_rebind(true, Some("a@x"), None));
    assert!(!should_rebind(true, None, None));
    // genuinely different targets -> rebind
    assert!(should_rebind(true, Some("a@x"), Some("b@y")));
    assert!(should_rebind(true, None, Some("a@x")));
}

#[test]
fn unpaired_agent_never_rebinds() {
    assert!(!should_rebind(false, Some("a@x"), Some("b@y")));
    assert!(!should_rebind(false, Some("a@x"), None));
    assert!(!should_rebind(false, None, None));
}

#[test]
fn key_has_no_case_and_no_outer_white_space() {
    assert_eq!(account_key(" \tYou@Example.COM\r\n"), "you@example.com");
    assert_eq!(account_key("already@lower"), "already@lower");
    assert_eq!(account_key("in side@x"), "in side@x");
    assert_eq!(account_key(""), "");
    assert_eq!(account_key(" \u{3000}\u{a0} "), "");
}

#[test]
fn key_trims_every_white_space_character_and_no_other() {
    let white = [
        '\u{9}', '\u{a}', '\u{b}', '\u{c}', '\u{d}', '\u{20}', '\u{85}', '\u{a0}', '\u{1680}',
        '\u{2000}', '\u{2001}', '\u{2002}', '\u{2003}', '\u{2004}', '\u{2005}', '\u{2006}',
        '\u{2007}', '\u{2008}', '\u{2009}', '\u{200a}', '\u{2028}', '\u{2029}', '\u{202f}',
        '\u{205f}', '\u{3000}',
    ];
    for code in 0..=0x10ffffu32 {
        if let Some(c) = char::from_u32(code) {
            let mut padded = String::new();
            padded.push(c);
            padded.push('x');
            assert_eq!(account_key(&padded) == "x", white.contains(&c), "{code:x}");
        }
    }
}

#[test]
fn ascii_case_folds_letter_by_letter() {
    for code in 0u8..128 {
        let c = char::from(code);
        let mut text = String::from("x");
        text.push(c);
        text.push('x');
        let mut expected = String::from("x");
        expected.push(c.to_ascii_lowercase());
        expected.push('x');
        assert_eq!(account_key(&text), expected);
    }
}

#[test]
fn key_folds_case_beyond_ascii() {
    assert_eq!(account_key("\u{c9}LAN@X"), "\u{e9}lan@x");
    assert_eq!(account_key("\u{3a3}\u{391}\u{3a3}"), "\u{3c3}\u{3b1}\u{3c2}");
    assert!(!should_rebind(true, Some("\u{e9}lan@x"), Some(" \u{c9}LAN@x ")));
    assert!(should_rebind(true, Some("\u{e9}lan@x"), Some("elan@x")));
}

#[test]
fn keys_decide_the_rebind() {
    assert!(keys_call_for_rebind(true, Some("a"), Some("b")));
    assert!(keys_call_for_rebind(true, None, Some("b")));
    assert!(!keys_call_for_rebind(true, Some("b"), Some("b")));
    assert!(!keys_call_for_rebind(true, Some("b"), None));
    assert!(!keys_call_for_rebind(false, Some("a"), Some("b")));
}

#[test]
fn key_of_a_key_is_the_key() {
    for text in ["You@X", " \u{130}Z@X ", "\u{3a3}\u{391}\u{3a3}", "\u{212a}@X", "A\u{3a3}", "\u{3a3}.B \u{3a3}"] {
        let key = account_key(text);
        assert_eq!(account_key(&key), key);
    }
    for code in 0..=0x10ffffu32 {
        if let Some(c) = char::from_u32(code) {
            let mut text = String::from("a");
            text.push(c);
            let key = account_key(&text);
            assert_eq!(account_key(&key), key);
            let mut text = String::new();
            text.push(c);
            text.push('A');
            let key = account_key(&text);
            assert_eq!(account_key(&key), key);
        }
    }
}

#[test]
fn ascii_case_does_not_matter_beside_other_letters() {
    for text in [
        "\u{c9}lan@x", "a\u{3a3}", "\u{3a3}a", "a\u{3a3}b", "a.\u{3a3}", "\u{391}\u{3a3}.z",
        "z\u{301}\u{3a3}\u{301}z", "\u{3a3} a", "i\u{307}\u{130}j", "\u{1e9e}k\u{212a}",
    ] {
        assert_eq!(account_key(&text.to_ascii_uppercase()), account_key(text));
        assert_eq!(account_key(&text.to_ascii_lowercase()), account_key(text));
        assert_eq!(account_key(text), text.to_lowercase());
        let padded = format!("\u{a0} {}\t", text.to_ascii_uppercase());
        assert!(!should_rebind(true, Some(text), Some(&padded)));
        assert!(!should_rebind(true, Some(&padded), Some(text)));
        assert!(should_rebind(true, Some("q@q"), Some(&padded)));
    }
}
