//! What holds of every widget's answer to an agent.

use vstd::prelude::*;
use crate::ontology::agent::{str_param, u64_param, unknown_action_text};
use crate::ontology::json::{json_of_bool, json_of_entries, json_of_str, json_of_u64};
use crate::utf8::utf8_len;
use crate::widget::button::button_action;
use crate::widget::checkbox::{checkbox_action, radio_action};
use crate::widget::list::{list_action, table_action};
use crate::widget::menu::{menu_action, MenuItem};
use crate::widget::modal::modal_action;
use crate::widget::select::select_action;
use crate::widget::tabs::{panel_action, tabs_action};
use crate::widget::text_area::text_area_action;
use crate::widget::text_input::text_input_action;
use crate::widget::tooltip::tooltip_action;
use crate::widget::tree::tree_action;

verus! {

/// Whether `action` names one of the actions that some widget carries out.
pub open spec fn is_widget_action(action: Seq<char>) -> bool {
    ||| action == "open"@
    ||| action == "close"@
    ||| action == "select"@
    ||| action == "toggle"@
    ||| action == "expand"@
    ||| action == "collapse"@
    ||| action == "select_tab"@
    ||| action == "select_item"@
    ||| action == "select_row"@
    ||| action == "set_value"@
    ||| action == "clear"@
    ||| action == "set_text"@
    ||| action == "click"@
}

/// An action that no widget knows is refused by every widget with
/// "Unknown action: " and its name, and leaves the widget's state as it
/// was.
pub proof fn lemma_unknown_actions_refused(
    action: Seq<char>,
    params: serde_json::Value,
    flag: bool,
    index: usize,
    selection: Option<usize>,
    count: nat,
    options: Seq<String>,
    items: Seq<MenuItem>,
    text: Seq<char>,
    cursor: int,
)
    requires
        !is_widget_action(action),
    ensures
        ({
            let refused: Result<serde_json::Value, Seq<char>> = Err(unknown_action_text(action));
            &&& modal_action(flag, action) == (flag, refused)
            &&& panel_action(flag, action) == (flag, refused)
            &&& tree_action(flag, action) == (flag, refused)
            &&& checkbox_action(flag, action) == (flag, refused)
            &&& radio_action(flag, action) == (flag, refused)
            &&& button_action(flag, action) == refused
            &&& tabs_action(count, index, action, params) == (index, refused)
            &&& list_action(count, selection, action, params) == (selection, refused)
            &&& table_action(count, selection, action, params) == (selection, refused)
            &&& select_action(options, selection, flag, action, params) == (selection, flag, refused)
            &&& menu_action(items, action, params) == refused
            &&& tooltip_action(text, action, params) == (text, refused)
            &&& text_area_action(text, action, params) == (text, refused)
            &&& text_input_action(text, cursor, action, params) == (text, cursor, refused)
        }),
{
}

} // verus!

verus! {

/// Clicking an enabled button answers `{"clicked": true}`; clicking a
/// disabled one is refused with "Button is disabled".
pub proof fn lemma_button_click(disabled: bool)
    ensures
        !disabled ==> button_action(disabled, "click"@) == Ok::<serde_json::Value, Seq<char>>(
            json_of_entries(seq![("clicked"@, json_of_bool(true))]),
        ),
        disabled ==> button_action(disabled, "click"@) == Err::<serde_json::Value, Seq<char>>(
            "Button is disabled"@,
        ),
{
}

/// "toggle" flips a checkbox and answers with its new state; "select"
/// turns a radio button on, whatever it was, and selecting it again
/// changes nothing.
pub proof fn lemma_checkbox_and_radio(checked: bool)
    ensures
        checkbox_action(checked, "toggle"@).0 == !checked,
        checkbox_action(checked, "toggle"@).1 == Ok::<serde_json::Value, Seq<char>>(
            json_of_entries(seq![("checked"@, json_of_bool(!checked))]),
        ),
        radio_action(checked, "select"@).0,
        radio_action(checked, "select"@).1 == Ok::<serde_json::Value, Seq<char>>(
            json_of_entries(seq![("selected"@, json_of_bool(true))]),
        ),
        radio_action(radio_action(checked, "select"@).0, "select"@) == radio_action(
            checked,
            "select"@,
        ),
{
}

/// "open" shows a modal and "close" hides it, whatever it was before;
/// each answers `{"visible": ..}` with the new visibility.
pub proof fn lemma_modal_open_close(visible: bool)
    ensures
        modal_action(visible, "open"@) == (
            true,
            Ok::<serde_json::Value, Seq<char>>(json_of_entries(seq![("visible"@, json_of_bool(true))])),
        ),
        modal_action(visible, "close"@) == (
            false,
            Ok::<serde_json::Value, Seq<char>>(json_of_entries(seq![("visible"@, json_of_bool(false))])),
        ),
        !modal_action(modal_action(visible, "open"@).0, "close"@).0,
{
    reveal_strlit("open");
    reveal_strlit("close");
    assert("open"@.len() != "close"@.len());
}

/// "expand" opens a tree node and "collapse" closes it, whatever it was;
/// each answers `{"expanded": ..}` with the new state.
pub proof fn lemma_tree_expand_collapse(expanded: bool)
    ensures
        tree_action(expanded, "expand"@) == (
            true,
            Ok::<serde_json::Value, Seq<char>>(json_of_entries(seq![("expanded"@, json_of_bool(true))])),
        ),
        tree_action(expanded, "collapse"@) == (
            false,
            Ok::<serde_json::Value, Seq<char>>(json_of_entries(seq![("expanded"@, json_of_bool(false))])),
        ),
{
    reveal_strlit("expand");
    reveal_strlit("collapse");
    assert("expand"@.len() != "collapse"@.len());
}

/// A panel's "toggle" flips whether it is collapsed, "expand" uncollapses
/// it and "collapse" collapses it, whatever it was; each answers
/// `{"collapsed": ..}` with the new state.
pub proof fn lemma_panel_actions(collapsed: bool)
    ensures
        panel_action(collapsed, "toggle"@) == (
            !collapsed,
            Ok::<serde_json::Value, Seq<char>>(json_of_entries(seq![("collapsed"@, json_of_bool(!collapsed))])),
        ),
        panel_action(collapsed, "expand"@) == (
            false,
            Ok::<serde_json::Value, Seq<char>>(json_of_entries(seq![("collapsed"@, json_of_bool(false))])),
        ),
        panel_action(collapsed, "collapse"@) == (
            true,
            Ok::<serde_json::Value, Seq<char>>(json_of_entries(seq![("collapsed"@, json_of_bool(true))])),
        ),
{
    reveal_strlit("toggle");
    reveal_strlit("expand");
    reveal_strlit("collapse");
    assert("toggle"@[0] != "expand"@[0]);
    assert("toggle"@.len() != "collapse"@.len());
    assert("expand"@.len() != "collapse"@.len());
}

/// Selecting by index among `count` entries (a list's "select", a
/// table's "select_row", a tab bar's "select_tab"): an index below
/// `count` becomes the selection and is answered back; an index past the
/// end, or a missing index, leaves the selection as it was and is refused.
pub proof fn lemma_select_by_index(
    count: nat,
    selected: Option<usize>,
    active: usize,
    params: serde_json::Value,
)
    ensures
        u64_param(params, "index"@) matches Some(i) ==> (i as usize) < count ==> {
            &&& list_action(count, selected, "select"@, params) == (
                Some(i as usize),
                Ok::<serde_json::Value, Seq<char>>(json_of_entries(seq![("selected"@, json_of_u64((i as usize) as u64))])),
            )
            &&& table_action(count, selected, "select_row"@, params) == (
                Some(i as usize),
                Ok::<serde_json::Value, Seq<char>>(json_of_entries(seq![("selected_row"@, json_of_u64((i as usize) as u64))])),
            )
            &&& tabs_action(count, active, "select_tab"@, params) == (
                i as usize,
                Ok::<serde_json::Value, Seq<char>>(json_of_entries(seq![("active"@, json_of_u64((i as usize) as u64))])),
            )
        },
        u64_param(params, "index"@) matches Some(i) ==> (i as usize) >= count ==> {
            &&& list_action(count, selected, "select"@, params) == (
                selected,
                Err::<serde_json::Value, Seq<char>>("Index out of range"@),
            )
            &&& table_action(count, selected, "select_row"@, params) == (
                selected,
                Err::<serde_json::Value, Seq<char>>("Index out of range"@),
            )
            &&& tabs_action(count, active, "select_tab"@, params) == (
                active,
                Err::<serde_json::Value, Seq<char>>("Tab index out of range"@),
            )
        },
        u64_param(params, "index"@) is None ==> {
            &&& list_action(count, selected, "select"@, params) == (
                selected,
                Err::<serde_json::Value, Seq<char>>("Missing 'index' parameter"@),
            )
            &&& table_action(count, selected, "select_row"@, params) == (
                selected,
                Err::<serde_json::Value, Seq<char>>("Missing 'index' parameter"@),
            )
            &&& tabs_action(count, active, "select_tab"@, params) == (
                active,
                Err::<serde_json::Value, Seq<char>>("Missing 'index' parameter"@),
            )
        },
{
}

/// "select_item" answers `{"selected": id}` exactly when some clickable
/// item of the menu has the id passed under "id", and is refused with
/// "Unknown menu item: <id>" otherwise; a missing id is refused.
pub proof fn lemma_menu_select_item(items: Seq<MenuItem>, params: serde_json::Value)
    ensures
        str_param(params, "id"@) matches Some(id) ==> (
        (exists|i: int|
            0 <= i < items.len() && (#[trigger] items[i] matches MenuItem::Item { id: iid, .. }
                && iid@ == id)) ==> menu_action(items, "select_item"@, params) == Ok::<
            serde_json::Value,
            Seq<char>,
        >(json_of_entries(seq![("selected"@, json_of_str(id))]))),
        str_param(params, "id"@) matches Some(id) ==> (!(exists|i: int|
            0 <= i < items.len() && (#[trigger] items[i] matches MenuItem::Item { id: iid, .. }
                && iid@ == id)) ==> menu_action(items, "select_item"@, params) == Err::<
            serde_json::Value,
            Seq<char>,
        >("Unknown menu item: "@ + id)),
        str_param(params, "id"@) is None ==> menu_action(items, "select_item"@, params) == Err::<
            serde_json::Value,
            Seq<char>,
        >("Missing 'id' parameter"@),
{
}

/// "set_text" on a tooltip, and "set_value" on a text area or text input,
/// replace the text with the string passed (a text input's cursor moves
/// to its end, counted in UTF-8 bytes) and answer it back; "clear" empties
/// the text (and puts the cursor at 0). Without the parameter nothing
/// changes and the action is refused.
pub proof fn lemma_text_actions(text: Seq<char>, cursor: int, params: serde_json::Value)
    ensures
        str_param(params, "text"@) matches Some(t) ==> tooltip_action(text, "set_text"@, params) == (
            t,
            Ok::<serde_json::Value, Seq<char>>(json_of_entries(seq![("text"@, json_of_str(t))])),
        ),
        str_param(params, "text"@) is None ==> tooltip_action(text, "set_text"@, params) == (
            text,
            Err::<serde_json::Value, Seq<char>>("Missing 'text' parameter"@),
        ),
        str_param(params, "value"@) matches Some(v) ==> text_area_action(text, "set_value"@, params) == (
            v,
            Ok::<serde_json::Value, Seq<char>>(json_of_entries(seq![("value"@, json_of_str(v))])),
        ),
        str_param(params, "value"@) matches Some(v) ==> text_input_action(text, cursor, "set_value"@, params) == (
            v,
            utf8_len(v) as int,
            Ok::<serde_json::Value, Seq<char>>(json_of_entries(seq![("value"@, json_of_str(v))])),
        ),
        str_param(params, "value"@) is None ==> text_area_action(text, "set_value"@, params) == (
            text,
            Err::<serde_json::Value, Seq<char>>("Missing 'value' parameter"@),
        ),
        str_param(params, "value"@) is None ==> text_input_action(text, cursor, "set_value"@, params) == (
            text,
            cursor,
            Err::<serde_json::Value, Seq<char>>("Missing 'value' parameter"@),
        ),
        text_area_action(text, "clear"@, params) == (
            Seq::<char>::empty(),
            Ok::<serde_json::Value, Seq<char>>(json_of_entries(seq![("value"@, json_of_str(Seq::<char>::empty()))])),
        ),
        text_input_action(text, cursor, "clear"@, params) == (
            Seq::<char>::empty(),
            0int,
            Ok::<serde_json::Value, Seq<char>>(json_of_entries(seq![("value"@, json_of_str(Seq::<char>::empty()))])),
        ),
{
    reveal_strlit("set_value");
    reveal_strlit("clear");
    assert("set_value"@.len() != "clear"@.len());
}

} // verus!
