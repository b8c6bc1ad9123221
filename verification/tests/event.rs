use agpu::event::{topmost_hit, KeyCode, KeyEvent, KeyEventKind, KeyModifiers};

#[test]
fn key_modifiers_empty() {
    let m = KeyModifiers::empty();
    assert!(m.is_empty());
    assert!(!m.contains(KeyModifiers::SHIFT()));
}

#[test]
fn key_modifiers_contains() {
    let m = KeyModifiers::SHIFT() | KeyModifiers::CONTROL();
    assert!(m.contains(KeyModifiers::SHIFT()));
    assert!(m.contains(KeyModifiers::CONTROL()));
    assert!(!m.contains(KeyModifiers::ALT()));
}

#[test]
fn key_modifiers_union() {
    let a = KeyModifiers::SHIFT();
    let b = KeyModifiers::ALT();
    let u = a.union(b);
    assert!(u.contains(KeyModifiers::SHIFT()));
    assert!(u.contains(KeyModifiers::ALT()));
}

#[test]
fn key_modifiers_bitor_assign() {
    let mut m = KeyModifiers::NONE();
    m |= KeyModifiers::SUPER();
    assert!(m.contains(KeyModifiers::SUPER()));
}

#[test]
fn key_event_new() {
    let ke = KeyEvent::new(KeyCode::Enter, KeyModifiers::NONE());
    assert_eq!(ke.code, KeyCode::Enter);
    assert!(ke.modifiers.is_empty());
    assert_eq!(ke.kind, KeyEventKind::Press);
}

#[test]
fn key_event_is_ctrl() {
    let ke = KeyEvent::new(KeyCode::Char('s'), KeyModifiers::CONTROL());
    assert!(ke.is_ctrl(KeyCode::Char('s')));
    assert!(!ke.is_ctrl(KeyCode::Char('c')));
}

#[test]
fn key_event_is_key() {
    let ke = KeyEvent::new(KeyCode::Esc, KeyModifiers::NONE());
    assert!(ke.is_key(KeyCode::Esc));

    let with_mod = KeyEvent::new(KeyCode::Esc, KeyModifiers::SHIFT());
    assert!(!with_mod.is_key(KeyCode::Esc));
}

#[test]
fn keycode_serialize_roundtrip() {
    let codes = vec![
        KeyCode::Char('a'),
        KeyCode::F(5),
        KeyCode::Enter,
        KeyCode::Esc,
        KeyCode::Null,
    ];
    for code in codes {
        let json = code.to_json();
        let code2: KeyCode = read_key(&json).unwrap();
        assert_eq!(code, code2);
    }
}

#[test]
fn modifier_set_laws_on_all_small_sets() {
    let all = [
        KeyModifiers::NONE(),
        KeyModifiers::SHIFT(),
        KeyModifiers::CONTROL(),
        KeyModifiers::ALT(),
        KeyModifiers::SUPER(),
        KeyModifiers::SHIFT() | KeyModifiers::ALT(),
        KeyModifiers::CONTROL().union(KeyModifiers::SUPER()),
    ];
    for a in all {
        assert!(a.contains(a));
        assert!(a.contains(KeyModifiers::empty()));
        assert_eq!(a.union(a), a);
        assert_eq!(a.union(KeyModifiers::empty()), a);
        for b in all {
            assert_eq!(a.union(b), b.union(a));
            assert_eq!(a | b, a.union(b));
            assert!(a.union(b).contains(a));
            assert!(a.union(b).contains(b));
        }
    }
}

#[test]
fn ctrl_with_other_modifiers_still_ctrl_but_not_plain_key() {
    let ke = KeyEvent::new(KeyCode::Char('z'), KeyModifiers::CONTROL() | KeyModifiers::SHIFT());
    assert!(ke.is_ctrl(KeyCode::Char('z')));
    assert!(!ke.is_key(KeyCode::Char('z')));
}

#[test]
fn keycode_json_texts() {
    assert_eq!(KeyCode::Char('a').to_json(), "{\"Char\":\"a\"}");
    assert_eq!(KeyCode::F(5).to_json(), "{\"F\":5}");
    assert_eq!(KeyCode::F(12).to_json(), "{\"F\":12}");
    assert_eq!(KeyCode::F(255).to_json(), "{\"F\":255}");
    assert_eq!(KeyCode::Enter.to_json(), "\"Enter\"");
    assert_eq!(KeyCode::PageDown.to_json(), "\"PageDown\"");
    assert_eq!(KeyCode::Char('"').to_json(), "{\"Char\":\"\\\"\"}");
    assert_eq!(KeyCode::Char('\n').to_json(), "{\"Char\":\"\\n\"}");
    assert_eq!(KeyCode::Char('\u{1}').to_json(), "{\"Char\":\"\\u0001\"}");
    assert_eq!(KeyCode::Char('\u{1f}').to_json(), "{\"Char\":\"\\u001f\"}");
    assert_eq!(KeyCode::Char('é').to_json(), "{\"Char\":\"é\"}");
}

#[test]
fn keycode_json_roundtrip_every_kind() {
    let mut codes = vec![
        KeyCode::Backspace, KeyCode::Enter, KeyCode::Tab, KeyCode::BackTab, KeyCode::Esc,
        KeyCode::Left, KeyCode::Right, KeyCode::Up, KeyCode::Down, KeyCode::Home, KeyCode::End,
        KeyCode::PageUp, KeyCode::PageDown, KeyCode::Insert, KeyCode::Delete, KeyCode::Null,
    ];
    for n in 0..=255u8 {
        codes.push(KeyCode::F(n));
    }
    for c in ['a', 'Z', ' ', '"', '\\', '\u{8}', '\t', '\n', '\u{c}', '\r', '\u{0}', '\u{1b}', '\u{7f}', '中', '😀'] {
        codes.push(KeyCode::Char(c));
    }
    for code in codes {
        assert_eq!(read_key(&code.to_json()), Some(code));
    }
}

#[test]
fn keycode_json_matches_serde_json_string_escaping() {
    for c in ['a', '"', '\\', '\u{8}', '\t', '\n', '\u{c}', '\r', '\u{0}', '\u{1b}', '\u{7f}', 'é'] {
        let quoted = serde_json::to_string(&c.to_string()).unwrap();
        assert_eq!(KeyCode::Char(c).to_json(), format!("{{\"Char\":{}}}", quoted));
    }
}

#[test]
fn keycode_from_json_rejects_other_texts() {
    for text in ["", "Enter", "\"enter\"", "{\"F\":256}", "{\"F\":05}", "{\"F\":-1}", "{\"F\":1.0}",
        "{\"Char\":\"ab\"}", "{\"Char\":\"\"}", "{\"Char\":\"\\q\"}", "\"Char\"", "\"F\"",
        "{\"Enter\":1}", "{}", "{\"F\":1,\"Enter\":null}", "[\"Enter\"]", "null"] {
        assert_eq!(read_key(text), None, "{}", text);
    }
}

#[test]
fn keycode_from_json_accepts_what_serde_accepts() {
    assert_eq!(read_key("{ \"F\" : 5 }"), Some(KeyCode::F(5)));
    assert_eq!(read_key(" \"Enter\" "), Some(KeyCode::Enter));
    assert_eq!(read_key("{\"Char\":\"\\u0041\"}"), Some(KeyCode::Char('A')));
    assert_eq!(read_key("{\"Enter\":null}"), Some(KeyCode::Enter));
    assert_eq!(read_key("\"Esc\""), Some(KeyCode::Esc));
}

#[test]
fn keycode_json_value_round_trip() {
    for code in [KeyCode::Char('x'), KeyCode::F(12), KeyCode::Home, KeyCode::Null] {
        let v = code.to_json_value();
        assert_eq!(KeyCode::from_json_value(&v), Some(code));
        assert_eq!(v.to_string(), code.to_json());
    }
    let v: serde_json::Value = serde_json::from_str("{\"F\":3}").unwrap();
    assert_eq!(KeyCode::from_json_value(&v), Some(KeyCode::F(3)));
}

#[test]
fn topmost_hit_prefers_highest_z_then_latest() {
    assert_eq!(topmost_hit(&vec![], &vec![]), None);
    assert_eq!(topmost_hit(&vec![0, 10], &vec![true, true]), Some(1));
    assert_eq!(topmost_hit(&vec![10, 0], &vec![true, true]), Some(0));
    assert_eq!(topmost_hit(&vec![5, 5, 1], &vec![true, true, true]), Some(1));
    assert_eq!(topmost_hit(&vec![9, 5, 1], &vec![false, true, false]), Some(1));
    assert_eq!(topmost_hit(&vec![9, 5], &vec![false, false]), None);
}

/// Reads a key code from JSON text, checking that it agrees with reading
/// the text into a `serde_json::Value` first and the value then.
fn read_key(text: &str) -> Option<KeyCode> {
    let direct = KeyCode::from_json(text);
    let via_value = match serde_json::from_str::<serde_json::Value>(text) {
        Ok(v) => KeyCode::from_json_value(&v),
        Err(_) => None,
    };
    assert_eq!(direct, via_value, "{}", text);
    direct
}

#[test]
fn keycode_from_json_reads_written_text() {
    assert_eq!(KeyCode::from_json("\"Enter\""), Some(KeyCode::Enter));
    assert_eq!(KeyCode::from_json("{\"F\":7}"), Some(KeyCode::F(7)));
    assert_eq!(KeyCode::from_json("{\"Char\":\"q\"}"), Some(KeyCode::Char('q')));
    assert_eq!(KeyCode::from_json("not json"), None);
    assert_eq!(KeyCode::from_json(&KeyCode::PageDown.to_json()), Some(KeyCode::PageDown));
}

#[test]
fn key_input_events() {
    let (k, t) = agpu::event::key_input(None, Some("ab"), true);
    let k = k.unwrap();
    assert_eq!(k.code, KeyCode::Char('a'));
    assert_eq!(k.kind, KeyEventKind::Press);
    assert!(k.modifiers.is_empty());
    assert_eq!(t.as_deref(), Some("ab"));
    let (k, t) = agpu::event::key_input(None, Some("x"), false);
    assert_eq!(k.unwrap().kind, KeyEventKind::Release);
    assert_eq!(t, None);
    let (k, t) = agpu::event::key_input(Some(KeyCode::Enter), None, true);
    assert_eq!(k.unwrap().code, KeyCode::Enter);
    assert_eq!(t, None);
    assert_eq!(agpu::event::key_input(None, None, true), (None, None));
    let (k, t) = agpu::event::key_input(None, Some(""), true);
    assert_eq!(k, None);
    assert_eq!(t.as_deref(), Some(""));
}
