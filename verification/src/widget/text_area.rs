//! Multi-line text area: the text, its lines, and how the area answers an
//! agent. Scrolling, colours, corner radius and font size are the drawing
//! layer's.

use vstd::prelude::*;
use crate::ontology::action::AgentAction;
use crate::ontology::agent::{
    is_simple_action, json_text, object1, object2, read_str_param, reply_view, same_text,
    str_param, unknown_action, unknown_action_text,
};
use crate::ontology::json::{json_from_u64, json_of_entries, json_of_str, json_of_u64};

verus! {

broadcast use vstd::string::group_string_axioms;

/// A multi-line editable text area.
pub struct TextArea {
    pub id: String,
    pub value: String,
    /// Whether the text is drawn in bold.
    pub is_bold: bool,
}

/// The number of line feeds in `s`.
pub open spec fn newline_count(s: Seq<char>) -> nat
    decreases s.len(),
{
    if s.len() == 0 {
        0
    } else {
        newline_count(s.drop_last()) + if s.last() == '\n' {
            1nat
        } else {
            0
        }
    }
}

/// The number of lines of `s` as `str::lines` splits it: lines end at a
/// line feed, and the last line's line feed is optional; empty text has
/// no lines.
pub open spec fn line_count(s: Seq<char>) -> nat {
    if s.len() == 0 {
        0
    } else if s.last() == '\n' {
        newline_count(s)
    } else {
        newline_count(s) + 1
    }
}

proof fn lemma_newline_count_concat(a: Seq<char>, b: Seq<char>)
    ensures
        newline_count(a + b) == newline_count(a) + newline_count(b),
    decreases b.len(),
{
    if b.len() == 0 {
        assert(a + b =~= a);
    } else {
        assert((a + b).drop_last() =~= a + b.drop_last());
        lemma_newline_count_concat(a, b.drop_last());
    }
}

proof fn lemma_no_newline(s: Seq<char>)
    requires
        forall|i: int| 0 <= i < s.len() ==> s[i] != '\n',
    ensures
        newline_count(s) == 0,
    decreases s.len(),
{
    if s.len() > 0 {
        lemma_no_newline(s.drop_last());
    }
}

/// How text splits into lines: empty text has none; text without a line
/// feed is one line; a line feed ends the line before it (so a final line
/// feed adds no line of its own, and a lone one is one empty line); and
/// the lines of text after a line feed are added to those before it.
pub proof fn lemma_line_count_laws(s: Seq<char>, t: Seq<char>)
    ensures
        line_count(Seq::<char>::empty()) == 0,
        line_count(seq!['\n']) == 1,
        s.len() > 0 && (forall|i: int| 0 <= i < s.len() ==> s[i] != '\n') ==> line_count(s) == 1,
        s.len() > 0 && s.last() != '\n' ==> line_count(s.push('\n')) == line_count(s),
        line_count(s.push('\n') + t) == line_count(s.push('\n')) + line_count(t),
        line_count(s.push('\n')) == newline_count(s) + 1,
{
    assert(seq!['\n'].drop_last() =~= Seq::<char>::empty());
    assert(seq!['\n'].last() == '\n');
    reveal_with_fuel(newline_count, 2);
    assert(newline_count(seq!['\n']) == 1);
    if s.len() > 0 && (forall|i: int| 0 <= i < s.len() ==> s[i] != '\n') {
        lemma_no_newline(s);
    }
    assert(s.push('\n').drop_last() =~= s);
    lemma_newline_count_concat(s.push('\n'), t);
    if t.len() > 0 {
        assert((s.push('\n') + t).last() == t.last());
    } else {
        assert(s.push('\n') + t =~= s.push('\n'));
    }
}

/// What an agent action does to a text area: its text afterwards, and the
/// reply. "set_value" replaces the text with the "value" parameter when it
/// is a string; "clear" empties it; any other action is refused. A refused
/// action changes nothing.
pub open spec fn text_area_action(value: Seq<char>, action: Seq<char>, params: serde_json::Value) -> (
    Seq<char>,
    Result<serde_json::Value, Seq<char>>,
) {
    if action == "set_value"@ {
        match str_param(params, "value"@) {
            Some(v) => (v, Ok(json_of_entries(seq![("value"@, json_of_str(v))]))),
            None => (value, Err("Missing 'value' parameter"@)),
        }
    } else if action == "clear"@ {
        (Seq::empty(), Ok(json_of_entries(seq![("value"@, json_of_str(Seq::empty()))])))
    } else {
        (value, Err(unknown_action_text(action)))
    }
}

/// The number of lines of `s` (see `line_count`).
pub fn count_lines(s: &str) -> (r: usize)
    ensures
        r == line_count(s@),
{
    let n = s.unicode_len();
    let mut feeds: usize = 0;
    let mut i: usize = 0;
    let mut last: char = ' ';
    while i < n
        invariant
            n == s@.len(),
            i <= n,
            feeds == newline_count(s@.take(i as int)),
            feeds <= i,
            i > 0 ==> last == s@[i - 1],
            i > 0 && last != '\n' ==> feeds < i,
        decreases n - i,
    {
        let c = s.get_char(i);
        proof {
            assert(s@.take(i + 1).drop_last() =~= s@.take(i as int));
        }
        if c == '\n' {
            feeds = feeds + 1;
        }
        last = c;
        i = i + 1;
    }
    proof {
        assert(s@.take(n as int) =~= s@);
    }
    if n == 0 {
        0
    } else if last == '\n' {
        feeds
    } else {
        feeds + 1
    }
}

impl TextArea {
    /// An empty text area.
    pub fn new(id: &str) -> (r: Self)
        ensures
            r.id@ == id@,
            r.value@ == Seq::<char>::empty(),
            !r.is_bold,
    {
        TextArea { id: id.to_owned(), value: String::new(), is_bold: false }
    }

    /// Sets the text.
    pub fn value(self, value: &str) -> (r: Self)
        ensures
            r.value@ == value@,
            r.id == self.id,
            r.is_bold == self.is_bold,
    {
        let mut s = self;
        s.value = value.to_owned();
        s
    }

    /// Draws the text in bold.
    pub fn bold(self) -> (r: Self)
        ensures
            r.is_bold,
            r.id == self.id,
            r.value == self.value,
    {
        let mut s = self;
        s.is_bold = true;
        s
    }

    /// The actions an agent can invoke: "set_value" and "clear".
    pub fn actions(&self) -> (r: Vec<AgentAction>)
        ensures
            r@.len() == 2,
            is_simple_action(r@[0], "set_value"@, "Set the text content"@, true),
            is_simple_action(r@[1], "clear"@, "Clear all text"@, true),
    {
        vec![
            AgentAction::simple("set_value", "Set the text content", true),
            AgentAction::simple("clear", "Clear all text", true),
        ]
    }

    /// The state an agent sees: `{"value": .., "line_count": ..}`.
    pub fn agent_state(&self) -> (r: serde_json::Value)
        ensures
            r == json_of_entries(
                seq![
                    ("value"@, json_of_str(self.value@)),
                    ("line_count"@, json_of_u64(line_count(self.value@) as u64)),
                ],
            ),
    {
        let lines = count_lines(self.value.as_str());
        object2("value", json_text(self.value.as_str()), "line_count", json_from_u64(lines as u64))
    }

    /// Carries out an agent action (see `text_area_action`).
    pub fn execute_action(&mut self, action: &str, params: &serde_json::Value) -> (r: Result<
        serde_json::Value,
        String,
    >)
        ensures
            (final(self).value@, reply_view(r)) == text_area_action(old(self).value@, action@, *params),
            final(self).id == old(self).id,
            final(self).is_bold == old(self).is_bold,
    {
        if same_text(action, "set_value") {
            match read_str_param(params, "value") {
                Some(v) => {
                    self.value = v.to_owned();
                    Ok(object1("value", json_text(self.value.as_str())))
                },
                None => Err("Missing 'value' parameter".to_owned()),
            }
        } else if same_text(action, "clear") {
            self.value = String::new();
            proof {
                reveal_strlit("");
                assert(""@ =~= Seq::<char>::empty());
            }
            Ok(object1("value", json_text("")))
        } else {
            Err(unknown_action(action))
        }
    }

    /// The identifier an agent addresses the text area by.
    pub fn agent_id(&self) -> (r: Option<&str>)
        ensures
            r matches Some(s) && s@ == self.id@,
    {
        Some(self.id.as_str())
    }
}

} // verus!
