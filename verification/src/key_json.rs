//! The JSON form of key codes, as serde's externally tagged enum format
//! gives it: a unit variant is its name as a JSON string (`"Enter"`),
//! `F(n)` is `{"F":n}` and `Char(c)` is `{"Char":"c"}`. Reading accepts
//! what that format accepts: a unit variant also as `{"Enter":null}`.
//! The text is written and read by `serde_json`; a text is read into a
//! `serde_json::Value` first, and the value then as a key code. Where an
//! object repeats its key, the value holds the entry that `serde_json`
//! keeps; serde's derived parse refuses such a text.

use vstd::prelude::*;
use crate::event::KeyCode;
use crate::ontology::agent::same_text;
use crate::ontology::json::{
    json_as_str, json_as_u64, json_from_entries, json_from_string, json_from_u64, json_get,
    json_get_field, json_keys_of, json_object_keys, json_of_entries, json_of_str, json_of_u64,
    json_parse, json_parse_of, json_str, json_text_of, json_to_text, json_type, json_type_of,
    json_u64, string_or_single_plain_entry, JsonType,
};

verus! {

broadcast use vstd::string::group_string_axioms;

/// The name of a unit variant.
pub open spec fn unit_name(k: KeyCode) -> Seq<char> {
    match k {
        KeyCode::Backspace => "Backspace"@,
        KeyCode::Enter => "Enter"@,
        KeyCode::Tab => "Tab"@,
        KeyCode::BackTab => "BackTab"@,
        KeyCode::Esc => "Esc"@,
        KeyCode::Left => "Left"@,
        KeyCode::Right => "Right"@,
        KeyCode::Up => "Up"@,
        KeyCode::Down => "Down"@,
        KeyCode::Home => "Home"@,
        KeyCode::End => "End"@,
        KeyCode::PageUp => "PageUp"@,
        KeyCode::PageDown => "PageDown"@,
        KeyCode::Insert => "Insert"@,
        KeyCode::Delete => "Delete"@,
        KeyCode::Null => "Null"@,
        _ => Seq::empty(),
    }
}

/// Whether `k` is a unit variant (neither `Char` nor `F`).
pub open spec fn is_unit(k: KeyCode) -> bool {
    !(k is Char) && !(k is F)
}

/// The unit variant with the given name, if there is one.
pub open spec fn unit_named(s: Seq<char>) -> Option<KeyCode> {
    if s == "Backspace"@ {
        Some(KeyCode::Backspace)
    } else if s == "Enter"@ {
        Some(KeyCode::Enter)
    } else if s == "Tab"@ {
        Some(KeyCode::Tab)
    } else if s == "BackTab"@ {
        Some(KeyCode::BackTab)
    } else if s == "Esc"@ {
        Some(KeyCode::Esc)
    } else if s == "Left"@ {
        Some(KeyCode::Left)
    } else if s == "Right"@ {
        Some(KeyCode::Right)
    } else if s == "Up"@ {
        Some(KeyCode::Up)
    } else if s == "Down"@ {
        Some(KeyCode::Down)
    } else if s == "Home"@ {
        Some(KeyCode::Home)
    } else if s == "End"@ {
        Some(KeyCode::End)
    } else if s == "PageUp"@ {
        Some(KeyCode::PageUp)
    } else if s == "PageDown"@ {
        Some(KeyCode::PageDown)
    } else if s == "Insert"@ {
        Some(KeyCode::Insert)
    } else if s == "Delete"@ {
        Some(KeyCode::Delete)
    } else if s == "Null"@ {
        Some(KeyCode::Null)
    } else {
        None
    }
}

/// The JSON value of a key code.
pub open spec fn key_code_value(k: KeyCode) -> serde_json::Value {
    match k {
        KeyCode::Char(c) => json_of_entries(seq![("Char"@, json_of_str(seq![c]))]),
        KeyCode::F(n) => json_of_entries(seq![("F"@, json_of_u64(n as u64))]),
        _ => json_of_str(unit_name(k)),
    }
}

/// The key code that the variant `name` with content `inner` stands for:
/// `Char` holds a string of exactly one character, `F` a whole number up
/// to 255, and a unit variant `null`.
pub open spec fn tagged_key_code(name: Seq<char>, inner: serde_json::Value) -> Option<KeyCode> {
    if name == "Char"@ {
        if json_type_of(inner) == JsonType::Str && json_str(inner).len() == 1 {
            Some(KeyCode::Char(json_str(inner)[0]))
        } else {
            None
        }
    } else if name == "F"@ {
        match json_u64(inner) {
            Some(n) => if n <= 255 {
                Some(KeyCode::F(n as u8))
            } else {
                None
            },
            None => None,
        }
    } else {
        match unit_named(name) {
            Some(k) => if json_type_of(inner) == JsonType::Null {
                Some(k)
            } else {
                None
            },
            None => None,
        }
    }
}

/// The key code that a JSON text holds when `serde_json` reads it into a
/// value, which is then read as `key_code_of_value` does. For a text that
/// repeats no object key this is what serde's derived parse gives.
pub open spec fn key_code_from_text(s: Seq<char>) -> Option<KeyCode> {
    match json_parse_of(s) {
        Some(v) => key_code_of_value(v),
        None => None,
    }
}

/// The key code that a JSON value stands for: a string names a unit
/// variant; an object with exactly one key tags a variant with its
/// content; nothing else is a key code.
pub open spec fn key_code_of_value(v: serde_json::Value) -> Option<KeyCode> {
    if json_type_of(v) == JsonType::Str {
        unit_named(json_str(v))
    } else if json_type_of(v) == JsonType::Object {
        match json_keys_of(v) {
            Some(keys) => if keys.len() == 1 {
                match json_get(v, keys[0]) {
                    Some(inner) => tagged_key_code(keys[0], inner),
                    None => None,
                }
            } else {
                None
            },
            None => None,
        }
    } else {
        None
    }
}

proof fn lemma_unit_names_distinct(a: KeyCode, b: KeyCode)
    requires
        is_unit(a),
        is_unit(b),
        unit_name(a) == unit_name(b),
    ensures
        a == b,
{
    reveal_strlit("Backspace");
    reveal_strlit("Enter");
    reveal_strlit("Tab");
    reveal_strlit("BackTab");
    reveal_strlit("Esc");
    reveal_strlit("Left");
    reveal_strlit("Right");
    reveal_strlit("Up");
    reveal_strlit("Down");
    reveal_strlit("Home");
    reveal_strlit("End");
    reveal_strlit("PageUp");
    reveal_strlit("PageDown");
    reveal_strlit("Insert");
    reveal_strlit("Delete");
    reveal_strlit("Null");
    let (na, nb) = (unit_name(a), unit_name(b));
    assert(na.len() == nb.len());
    assert(na.len() > 0 ==> na[0] == nb[0]);
    assert(na.len() > 1 ==> na[1] == nb[1]);
    assert(na.len() > 2 ==> na[2] == nb[2]);
    assert(na.len() > 4 ==> na[4] == nb[4]);
}

/// A unit variant is found again by its name, and the names of the unit
/// variants are not those of `Char` and `F`.
proof fn lemma_unit_named_name(k: KeyCode)
    requires
        is_unit(k),
    ensures
        unit_named(unit_name(k)) == Some(k),
        unit_name(k) != "Char"@,
        unit_name(k) != "F"@,
{
    reveal_strlit("Backspace");
    reveal_strlit("Enter");
    reveal_strlit("Tab");
    reveal_strlit("BackTab");
    reveal_strlit("Esc");
    reveal_strlit("Left");
    reveal_strlit("Right");
    reveal_strlit("Up");
    reveal_strlit("Down");
    reveal_strlit("Home");
    reveal_strlit("End");
    reveal_strlit("PageUp");
    reveal_strlit("PageDown");
    reveal_strlit("Insert");
    reveal_strlit("Delete");
    reveal_strlit("Null");
    reveal_strlit("Char");
    reveal_strlit("F");
    let n = unit_name(k);
    assert(n.len() > 1);
    assert(n[0] != 'C' || n.len() != 4);
    let found = unit_named(n);
    assert(found is Some);
    lemma_unit_names_distinct(k, found.unwrap());
}

/// The unit variant with the given name (see `unit_named`).
fn unit_named_exec(s: &str) -> (r: Option<KeyCode>)
    ensures
        r == unit_named(s@),
{
    if same_text(s, "Backspace") {
        Some(KeyCode::Backspace)
    } else if same_text(s, "Enter") {
        Some(KeyCode::Enter)
    } else if same_text(s, "Tab") {
        Some(KeyCode::Tab)
    } else if same_text(s, "BackTab") {
        Some(KeyCode::BackTab)
    } else if same_text(s, "Esc") {
        Some(KeyCode::Esc)
    } else if same_text(s, "Left") {
        Some(KeyCode::Left)
    } else if same_text(s, "Right") {
        Some(KeyCode::Right)
    } else if same_text(s, "Up") {
        Some(KeyCode::Up)
    } else if same_text(s, "Down") {
        Some(KeyCode::Down)
    } else if same_text(s, "Home") {
        Some(KeyCode::Home)
    } else if same_text(s, "End") {
        Some(KeyCode::End)
    } else if same_text(s, "PageUp") {
        Some(KeyCode::PageUp)
    } else if same_text(s, "PageDown") {
        Some(KeyCode::PageDown)
    } else if same_text(s, "Insert") {
        Some(KeyCode::Insert)
    } else if same_text(s, "Delete") {
        Some(KeyCode::Delete)
    } else if same_text(s, "Null") {
        Some(KeyCode::Null)
    } else {
        None
    }
}

/// The key code that the variant `name` with content `inner` stands for
/// (see `tagged_key_code`).
fn tagged_key_code_exec(name: &str, inner: &serde_json::Value) -> (r: Option<KeyCode>)
    ensures
        r == tagged_key_code(name@, *inner),
{
    if same_text(name, "Char") {
        match json_as_str(inner) {
            Some(t) => {
                if t.unicode_len() == 1 {
                    Some(KeyCode::Char(t.get_char(0)))
                } else {
                    None
                }
            },
            None => None,
        }
    } else if same_text(name, "F") {
        match json_as_u64(inner) {
            Some(n) => {
                if n <= 255 {
                    Some(KeyCode::F(n as u8))
                } else {
                    None
                }
            },
            None => None,
        }
    } else {
        match unit_named_exec(name) {
            Some(k) => {
                match json_type(inner) {
                    JsonType::Null => Some(k),
                    _ => None,
                }
            },
            None => None,
        }
    }
}

/// serde's externally tagged form, variant by variant: each unit variant
/// is written as the JSON string of its own name, and a JSON string
/// holding a unit variant's name reads as that variant; `Char(c)` is the
/// object `{"Char": "c"}` and `F(n)` the object `{"F": n}`.
pub proof fn lemma_key_codes_named_as_variants(v: serde_json::Value, c: char, n: u8)
    ensures
        key_code_value(KeyCode::Backspace) == json_of_str("Backspace"@),
        key_code_value(KeyCode::Enter) == json_of_str("Enter"@),
        key_code_value(KeyCode::Tab) == json_of_str("Tab"@),
        key_code_value(KeyCode::BackTab) == json_of_str("BackTab"@),
        key_code_value(KeyCode::Esc) == json_of_str("Esc"@),
        key_code_value(KeyCode::Left) == json_of_str("Left"@),
        key_code_value(KeyCode::Right) == json_of_str("Right"@),
        key_code_value(KeyCode::Up) == json_of_str("Up"@),
        key_code_value(KeyCode::Down) == json_of_str("Down"@),
        key_code_value(KeyCode::Home) == json_of_str("Home"@),
        key_code_value(KeyCode::End) == json_of_str("End"@),
        key_code_value(KeyCode::PageUp) == json_of_str("PageUp"@),
        key_code_value(KeyCode::PageDown) == json_of_str("PageDown"@),
        key_code_value(KeyCode::Insert) == json_of_str("Insert"@),
        key_code_value(KeyCode::Delete) == json_of_str("Delete"@),
        key_code_value(KeyCode::Null) == json_of_str("Null"@),
        json_type_of(v) == JsonType::Str && json_str(v) == "Backspace"@ ==> key_code_of_value(v) == Some(KeyCode::Backspace),
        json_type_of(v) == JsonType::Str && json_str(v) == "Enter"@ ==> key_code_of_value(v) == Some(KeyCode::Enter),
        json_type_of(v) == JsonType::Str && json_str(v) == "Tab"@ ==> key_code_of_value(v) == Some(KeyCode::Tab),
        json_type_of(v) == JsonType::Str && json_str(v) == "BackTab"@ ==> key_code_of_value(v) == Some(KeyCode::BackTab),
        json_type_of(v) == JsonType::Str && json_str(v) == "Esc"@ ==> key_code_of_value(v) == Some(KeyCode::Esc),
        json_type_of(v) == JsonType::Str && json_str(v) == "Left"@ ==> key_code_of_value(v) == Some(KeyCode::Left),
        json_type_of(v) == JsonType::Str && json_str(v) == "Right"@ ==> key_code_of_value(v) == Some(KeyCode::Right),
        json_type_of(v) == JsonType::Str && json_str(v) == "Up"@ ==> key_code_of_value(v) == Some(KeyCode::Up),
        json_type_of(v) == JsonType::Str && json_str(v) == "Down"@ ==> key_code_of_value(v) == Some(KeyCode::Down),
        json_type_of(v) == JsonType::Str && json_str(v) == "Home"@ ==> key_code_of_value(v) == Some(KeyCode::Home),
        json_type_of(v) == JsonType::Str && json_str(v) == "End"@ ==> key_code_of_value(v) == Some(KeyCode::End),
        json_type_of(v) == JsonType::Str && json_str(v) == "PageUp"@ ==> key_code_of_value(v) == Some(KeyCode::PageUp),
        json_type_of(v) == JsonType::Str && json_str(v) == "PageDown"@ ==> key_code_of_value(v) == Some(KeyCode::PageDown),
        json_type_of(v) == JsonType::Str && json_str(v) == "Insert"@ ==> key_code_of_value(v) == Some(KeyCode::Insert),
        json_type_of(v) == JsonType::Str && json_str(v) == "Delete"@ ==> key_code_of_value(v) == Some(KeyCode::Delete),
        json_type_of(v) == JsonType::Str && json_str(v) == "Null"@ ==> key_code_of_value(v) == Some(KeyCode::Null),
        key_code_value(KeyCode::Char(c)) == json_of_entries(seq![("Char"@, json_of_str(seq![c]))]),
        key_code_value(KeyCode::F(n)) == json_of_entries(seq![("F"@, json_of_u64(n as u64))]),
{
    lemma_unit_named_name(KeyCode::Backspace);
    lemma_unit_named_name(KeyCode::Enter);
    lemma_unit_named_name(KeyCode::Tab);
    lemma_unit_named_name(KeyCode::BackTab);
    lemma_unit_named_name(KeyCode::Esc);
    lemma_unit_named_name(KeyCode::Left);
    lemma_unit_named_name(KeyCode::Right);
    lemma_unit_named_name(KeyCode::Up);
    lemma_unit_named_name(KeyCode::Down);
    lemma_unit_named_name(KeyCode::Home);
    lemma_unit_named_name(KeyCode::End);
    lemma_unit_named_name(KeyCode::PageUp);
    lemma_unit_named_name(KeyCode::PageDown);
    lemma_unit_named_name(KeyCode::Insert);
    lemma_unit_named_name(KeyCode::Delete);
    lemma_unit_named_name(KeyCode::Null);
}

/// Reading a tagged object: `{"F": n}` is the function key `n` for a whole
/// number up to 255 and nothing above; `{"Char": "c"}` is the character
/// key for a string of exactly one character and nothing for a longer or
/// empty one; a unit variant's name tags `null` only.
pub proof fn lemma_tagged_key_codes(inner: serde_json::Value, k: KeyCode)
    ensures
        json_u64(inner) matches Some(n) ==> (n <= 255 ==> tagged_key_code("F"@, inner) == Some(
            KeyCode::F(n as u8),
        )),
        json_u64(inner) matches Some(n) ==> (n > 255 ==> tagged_key_code("F"@, inner) is None),
        json_u64(inner) is None ==> tagged_key_code("F"@, inner) is None,
        json_type_of(inner) == JsonType::Str && json_str(inner).len() == 1 ==> tagged_key_code(
            "Char"@,
            inner,
        ) == Some(KeyCode::Char(json_str(inner)[0])),
        json_type_of(inner) == JsonType::Str && json_str(inner).len() != 1 ==> tagged_key_code(
            "Char"@,
            inner,
        ) is None,
        is_unit(k) ==> (tagged_key_code(unit_name(k), inner) == if json_type_of(inner)
            == JsonType::Null {
            Some(k)
        } else {
            None
        }),
{
    reveal_strlit("Char");
    reveal_strlit("F");
    assert("F"@.len() != "Char"@.len());
    if is_unit(k) {
        lemma_unit_named_name(k);
    }
}

impl KeyCode {
    /// The JSON value of the key code; reading it back gives the key code.
    pub fn to_json_value(&self) -> (r: serde_json::Value)
        ensures
            r == key_code_value(*self),
            key_code_of_value(r) == Some(*self),
            string_or_single_plain_entry(r),
    {
        match *self {
            KeyCode::Char(c) => {
                let mut text = String::new();
                text.push(c);
                proof {
                    assert(text@ =~= seq![c]);
                }
                let inner = json_from_string(text);
                let e = vec![("Char".to_owned(), inner)];
                let r = json_from_entries(e);
                proof {
                    assert(crate::ontology::json::entries_view(e@) =~= seq![("Char"@, inner)]);
                    assert(json_str(inner)[0] == c);
                }
                r
            },
            KeyCode::F(n) => {
                let inner = json_from_u64(n as u64);
                let e = vec![("F".to_owned(), inner)];
                let r = json_from_entries(e);
                proof {
                    assert(crate::ontology::json::entries_view(e@) =~= seq![("F"@, inner)]);
                    reveal_strlit("Char");
                    reveal_strlit("F");
                    assert("F"@.len() != "Char"@.len());
                }
                r
            },
            _ => {
                let name = self.unit_name_str();
                let r = json_from_string(name.to_owned());
                proof {
                    lemma_unit_named_name(*self);
                }
                r
            },
        }
    }

    /// The JSON text of the key code, as `serde_json` writes its value;
    /// reading the text gives the key code back.
    pub fn to_json(&self) -> (r: String)
        ensures
            r@ == json_text_of(key_code_value(*self)),
            key_code_from_text(r@) == Some(*self),
    {
        json_to_text(&self.to_json_value())
    }

    /// The key code that a JSON text holds: the text read by `serde_json`
    /// into a value, the value read as `from_json_value` does.
    pub fn from_json(text: &str) -> (r: Option<KeyCode>)
        ensures
            r == key_code_from_text(text@),
    {
        match json_parse(text) {
            Some(v) => KeyCode::from_json_value(&v),
            None => None,
        }
    }

    /// The key code that a JSON value stands for (see `key_code_of_value`).
    pub fn from_json_value(v: &serde_json::Value) -> (r: Option<KeyCode>)
        ensures
            r == key_code_of_value(*v),
    {
        match json_type(v) {
            JsonType::Str => match json_as_str(v) {
                Some(s) => unit_named_exec(s),
                None => None,
            },
            JsonType::Object => match json_object_keys(v) {
                Some(keys) => {
                    if keys.len() == 1 {
                        let key = keys[0].as_str();
                        proof {
                            assert(keys@.map_values(|k: String| k@)[0] == key@);
                        }
                        match json_get_field(v, key) {
                            Some(inner) => tagged_key_code_exec(key, inner),
                            None => None,
                        }
                    } else {
                        None
                    }
                },
                None => None,
            },
            _ => None,
        }
    }

    fn unit_name_str(&self) -> (r: &'static str)
        requires
            is_unit(*self),
        ensures
            r@ == unit_name(*self),
    {
        match *self {
            KeyCode::Backspace => "Backspace",
            KeyCode::Enter => "Enter",
            KeyCode::Tab => "Tab",
            KeyCode::BackTab => "BackTab",
            KeyCode::Esc => "Esc",
            KeyCode::Left => "Left",
            KeyCode::Right => "Right",
            KeyCode::Up => "Up",
            KeyCode::Down => "Down",
            KeyCode::Home => "Home",
            KeyCode::End => "End",
            KeyCode::PageUp => "PageUp",
            KeyCode::PageDown => "PageDown",
            KeyCode::Insert => "Insert",
            KeyCode::Delete => "Delete",
            KeyCode::Null => "Null",
            _ => "",
        }
    }
}

} // verus!
