//! Single-line text input: the text, the cursor (a byte offset into the
//! text) and how editing moves it, and how the field answers an agent.
//! Colours, corner radius and font size are the drawing layer's.

use vstd::prelude::*;
use crate::ontology::action::AgentAction;
use crate::ontology::agent::{
    is_simple_action, json_text, object1, object3, read_str_param, reply_view, same_text,
    str_param, unknown_action, unknown_action_text,
};
use crate::ontology::json::{json_from_u64, json_of_entries, json_of_str, json_of_u64};
use crate::utf8::{
    byte_len, char_index_at, char_utf8_width, is_boundary, lemma_utf8_len_concat,
    lemma_utf8_len_take_step, push_chars, utf8_len, utf8_width,
};

verus! {

broadcast use vstd::string::group_string_axioms;

/// A single-line editable text field.
pub struct TextInput {
    pub id: String,
    pub value: String,
    pub placeholder: String,
    /// Byte offset of the cursor in `value`.
    pub cursor: usize,
    pub selection: Option<(usize, usize)>,
    /// Whether the text is drawn in bold.
    pub is_bold: bool,
}

/// The text after inserting `ch` at byte offset `cursor`.
pub open spec fn inserted(value: Seq<char>, cursor: int, ch: char) -> Seq<char> {
    let k = choose|k: int| 0 <= k <= value.len() && #[trigger] utf8_len(value.take(k)) == cursor;
    value.take(k).push(ch) + value.skip(k)
}

/// The text and cursor after deleting the character before byte offset
/// `cursor`; unchanged when the cursor is at the start.
pub open spec fn deleted_back(value: Seq<char>, cursor: int) -> (Seq<char>, int) {
    if cursor <= 0 {
        (value, cursor)
    } else {
        let k = choose|k: int| 0 <= k <= value.len() && #[trigger] utf8_len(value.take(k)) == cursor;
        (value.take(k - 1) + value.skip(k), utf8_len(value.take(k - 1)) as int)
    }
}

/// What an agent action does to a text input: its text and cursor
/// afterwards, and the reply. "set_value" replaces the text with the
/// "value" parameter when it is a string and puts the cursor at the end;
/// "clear" empties the text; any other action is refused. A refused action
/// changes nothing.
pub open spec fn text_input_action(
    value: Seq<char>,
    cursor: int,
    action: Seq<char>,
    params: serde_json::Value,
) -> (Seq<char>, int, Result<serde_json::Value, Seq<char>>) {
    if action == "set_value"@ {
        match str_param(params, "value"@) {
            Some(v) => (v, utf8_len(v) as int, Ok(json_of_entries(seq![("value"@, json_of_str(v))]))),
            None => (value, cursor, Err("Missing 'value' parameter"@)),
        }
    } else if action == "clear"@ {
        (Seq::empty(), 0, Ok(json_of_entries(seq![("value"@, json_of_str(Seq::empty()))])))
    } else {
        (value, cursor, Err(unknown_action_text(action)))
    }
}

impl TextInput {
    /// An empty field with the cursor at the start.
    pub fn new(id: &str) -> (r: Self)
        ensures
            r.id@ == id@,
            r.value@ == Seq::<char>::empty(),
            r.placeholder@ == Seq::<char>::empty(),
            r.cursor == 0,
            r.selection is None,
            !r.is_bold,
    {
        TextInput {
            id: id.to_owned(),
            value: String::new(),
            placeholder: String::new(),
            cursor: 0,
            selection: None,
            is_bold: false,
        }
    }

    /// Sets the text and puts the cursor at its end.
    pub fn value(self, value: &str) -> (r: Self)
        ensures
            r.value@ == value@,
            r.cursor == utf8_len(value@),
            r.id == self.id,
            r.placeholder == self.placeholder,
            r.selection == self.selection,
            r.is_bold == self.is_bold,
    {
        let mut s = self;
        s.cursor = byte_len(value);
        s.value = value.to_owned();
        s
    }

    pub fn placeholder(self, placeholder: &str) -> (r: Self)
        ensures
            r.placeholder@ == placeholder@,
            r.id == self.id,
            r.value == self.value,
            r.cursor == self.cursor,
            r.selection == self.selection,
            r.is_bold == self.is_bold,
    {
        let mut s = self;
        s.placeholder = placeholder.to_owned();
        s
    }

    /// Draws the text in bold.
    pub fn bold(self) -> (r: Self)
        ensures
            r.is_bold,
            r.id == self.id,
            r.value == self.value,
            r.placeholder == self.placeholder,
            r.cursor == self.cursor,
            r.selection == self.selection,
    {
        let mut s = self;
        s.is_bold = true;
        s
    }

    /// Inserts `ch` at the cursor and moves the cursor past it. The cursor
    /// must fall between two characters.
    pub fn insert_char(&mut self, ch: char)
        requires
            is_boundary(old(self).value@, old(self).cursor as int),
        ensures
            final(self).value@ == inserted(old(self).value@, old(self).cursor as int, ch),
            final(self).cursor == old(self).cursor + utf8_width(ch),
            is_boundary(final(self).value@, final(self).cursor as int),
            final(self).id == old(self).id,
            final(self).placeholder == old(self).placeholder,
            final(self).selection == old(self).selection,
            final(self).is_bold == old(self).is_bold,
    {
        let ghost v = self.value@;
        let k = char_index_at(self.value.as_str(), self.cursor);
        let n = self.value.as_str().unicode_len();
        let mut out = String::new();
        push_chars(&mut out, self.value.as_str(), 0, k);
        out.push(ch);
        push_chars(&mut out, self.value.as_str(), k, n);
        let w = char_utf8_width(ch);
        let total = byte_len(out.as_str());
        proof {
            let kk = choose|kk: int| 0 <= kk <= v.len() && #[trigger] utf8_len(v.take(kk)) == self.cursor;
            crate::utf8::lemma_boundary_unique(v, kk, k as int);
            assert(v.subrange(0, k as int) =~= v.take(k as int));
            assert(v.subrange(k as int, n as int) =~= v.skip(k as int));
            let head = v.take(k as int).push(ch);
            assert(out@ =~= head + v.skip(k as int));
            assert(head.drop_last() =~= v.take(k as int));
            lemma_utf8_len_concat(head, v.skip(k as int));
            assert(out@.take(k + 1) =~= head);
        }
        self.value = out;
        self.cursor = self.cursor + w;
    }

    /// Deletes the character before the cursor and moves the cursor to where
    /// it began; does nothing at the start. The cursor must fall between two
    /// characters.
    pub fn delete_back(&mut self)
        requires
            is_boundary(old(self).value@, old(self).cursor as int),
        ensures
            (final(self).value@, final(self).cursor as int) == deleted_back(
                old(self).value@,
                old(self).cursor as int,
            ),
            is_boundary(final(self).value@, final(self).cursor as int),
            final(self).id == old(self).id,
            final(self).placeholder == old(self).placeholder,
            final(self).selection == old(self).selection,
            final(self).is_bold == old(self).is_bold,
    {
        if self.cursor > 0 {
            let ghost v = self.value@;
            let k = char_index_at(self.value.as_str(), self.cursor);
            let n = self.value.as_str().unicode_len();
            proof {
                if k == 0 {
                    assert(v.take(0) =~= Seq::<char>::empty());
                }
            }
            let mut out = String::new();
            push_chars(&mut out, self.value.as_str(), 0, k - 1);
            push_chars(&mut out, self.value.as_str(), k, n);
            let c = self.value.as_str().get_char(k - 1);
            let w = char_utf8_width(c);
            proof {
                let kk = choose|kk: int| 0 <= kk <= v.len() && #[trigger] utf8_len(v.take(kk)) == self.cursor;
                crate::utf8::lemma_boundary_unique(v, kk, k as int);
                lemma_utf8_len_take_step(v, k - 1);
                assert(v.subrange(0, k - 1) =~= v.take(k - 1));
                assert(v.subrange(k as int, n as int) =~= v.skip(k as int));
                assert(out@ =~= v.take(k - 1) + v.skip(k as int));
                assert(out@.take(k - 1) =~= v.take(k - 1));
            }
            self.value = out;
            self.cursor = self.cursor - w;
        } else {
            proof {
                assert(self.value@.take(0) =~= Seq::<char>::empty());
            }
        }
    }

    /// The actions an agent can invoke: "set_value" and "clear".
    pub fn actions(&self) -> (r: Vec<AgentAction>)
        ensures
            r@.len() == 2,
            is_simple_action(r@[0], "set_value"@, "Set the text value"@, true),
            is_simple_action(r@[1], "clear"@, "Clear the text value"@, true),
    {
        vec![
            AgentAction::simple("set_value", "Set the text value", true),
            AgentAction::simple("clear", "Clear the text value", true),
        ]
    }

    /// The state an agent sees: `{"value": .., "placeholder": .., "cursor": ..}`.
    pub fn agent_state(&self) -> (r: serde_json::Value)
        ensures
            r == json_of_entries(
                seq![
                    ("value"@, json_of_str(self.value@)),
                    ("placeholder"@, json_of_str(self.placeholder@)),
                    ("cursor"@, json_of_u64(self.cursor as u64)),
                ],
            ),
    {
        object3(
            "value",
            json_text(self.value.as_str()),
            "placeholder",
            json_text(self.placeholder.as_str()),
            "cursor",
            json_from_u64(self.cursor as u64),
        )
    }

    /// Carries out an agent action (see `text_input_action`).
    pub fn execute_action(&mut self, action: &str, params: &serde_json::Value) -> (r: Result<
        serde_json::Value,
        String,
    >)
        ensures
            (final(self).value@, final(self).cursor as int, reply_view(r)) == text_input_action(
                old(self).value@,
                old(self).cursor as int,
                action@,
                *params,
            ),
            final(self).id == old(self).id,
            final(self).placeholder == old(self).placeholder,
            final(self).selection == old(self).selection,
            final(self).is_bold == old(self).is_bold,
    {
        if same_text(action, "set_value") {
            match read_str_param(params, "value") {
                Some(v) => {
                    self.value = v.to_owned();
                    self.cursor = byte_len(self.value.as_str());
                    Ok(object1("value", json_text(self.value.as_str())))
                },
                None => Err("Missing 'value' parameter".to_owned()),
            }
        } else if same_text(action, "clear") {
            self.value = String::new();
            self.cursor = 0;
            proof {
                reveal_strlit("");
                assert(""@ =~= Seq::<char>::empty());
            }
            Ok(object1("value", json_text("")))
        } else {
            Err(unknown_action(action))
        }
    }

    /// The identifier an agent addresses the field by.
    pub fn agent_id(&self) -> (r: Option<&str>)
        ensures
            r matches Some(s) && s@ == self.id@,
    {
        Some(self.id.as_str())
    }
}

/// Deleting back right after inserting a character gives back the text and
/// the cursor as they were.
pub proof fn lemma_delete_back_undoes_insert(value: Seq<char>, cursor: int, ch: char)
    requires
        is_boundary(value, cursor),
    ensures
        ({
            let v2 = inserted(value, cursor, ch);
            deleted_back(v2, cursor + utf8_width(ch)) == (value, cursor)
        }),
{
    let k = choose|k: int| 0 <= k <= value.len() && #[trigger] utf8_len(value.take(k)) == cursor;
    let head = value.take(k).push(ch);
    let v2 = head + value.skip(k);
    assert(head.drop_last() =~= value.take(k));
    assert(v2.take(k + 1) =~= head);
    let c2 = cursor + utf8_width(ch);
    assert(utf8_len(v2.take(k + 1)) == c2);
    let k2 = choose|k2: int| 0 <= k2 <= v2.len() && #[trigger] utf8_len(v2.take(k2)) == c2;
    crate::utf8::lemma_boundary_unique(v2, k2, k + 1);
    assert(v2.take(k) =~= value.take(k));
    assert(v2.skip(k + 1) =~= value.skip(k));
    assert(value.take(k) + value.skip(k) =~= value);
}

/// Inserting puts the character between the characters before the cursor
/// and those after it, and grows the encoding by the character's width.
pub proof fn lemma_insert_at_cursor(value: Seq<char>, cursor: int, ch: char)
    requires
        is_boundary(value, cursor),
    ensures
        exists|k: int|
            0 <= k <= value.len() && #[trigger] utf8_len(value.take(k)) == cursor && inserted(
                value,
                cursor,
                ch,
            ) == value.take(k) + seq![ch] + value.skip(k),
        inserted(value, cursor, ch).len() == value.len() + 1,
        utf8_len(inserted(value, cursor, ch)) == utf8_len(value) + utf8_width(ch),
{
    let k = choose|k: int| 0 <= k <= value.len() && #[trigger] utf8_len(value.take(k)) == cursor;
    assert(value.take(k).push(ch) =~= value.take(k) + seq![ch]);
    let head = value.take(k).push(ch);
    assert(head.drop_last() =~= value.take(k));
    lemma_utf8_len_concat(head, value.skip(k));
    lemma_utf8_len_concat(value.take(k), value.skip(k));
    assert(value.take(k) + value.skip(k) =~= value);
}

/// Deleting back removes the one character that ends at the cursor and
/// moves the cursor back by that character's width; at the start of the
/// text nothing changes.
pub proof fn lemma_delete_back_removes_previous(value: Seq<char>, cursor: int)
    requires
        is_boundary(value, cursor),
    ensures
        cursor == 0 ==> deleted_back(value, cursor) == (value, cursor),
        cursor > 0 ==> exists|k: int|
            1 <= k <= value.len() && #[trigger] utf8_len(value.take(k)) == cursor && deleted_back(
                value,
                cursor,
            ) == (value.take(k - 1) + value.skip(k), cursor - utf8_width(value[k - 1])),
{
    if cursor > 0 {
        let k = choose|k: int| 0 <= k <= value.len() && #[trigger] utf8_len(value.take(k)) == cursor;
        if k == 0 {
            assert(value.take(0) =~= Seq::<char>::empty());
        }
        lemma_utf8_len_take_step(value, k - 1);
    }
}

} // verus!
