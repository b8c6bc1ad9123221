use agpu::widget::{
    Button, Checkbox, List, Menu, MenuItem, Modal, Panel, Radio, Select, Table, Tabs, TextArea,
    TextInput, Tooltip, TreeNode, TreeView,
};

#[test]
fn select_label_follows_selection() {
    let s = Select::new("sel_1", vec!["A".into(), "B".into()]);
    assert_eq!(s.selected_label(), "Select...");
    assert!(!s.open);
    assert!(!s.searchable);
    let s = s.selected(1);
    assert_eq!(s.selected_label(), "B");
    let s = s.selected(2);
    assert_eq!(s.selected_label(), "Select...");
    let s = s.searchable(true);
    assert!(s.searchable);
    assert_eq!(s.selected, Some(2));
}

#[test]
fn tree_visible_count_follows_expansion() {
    let leaf = TreeNode::new("c", "C");
    let mid = TreeNode::new("b", "B").child(leaf.clone()).child(TreeNode::new("d", "D"));
    let root = TreeNode::new("root", "Root").child(mid.clone()).child(TreeNode::new("e", "E"));
    assert_eq!(root.visible_count(), 1);
    let root = root.expanded(true);
    assert_eq!(root.visible_count(), 3);
    let root2 = TreeNode::new("root", "Root").expanded(true).child(mid.expanded(true)).child(leaf);
    assert_eq!(root2.visible_count(), 5);
    let copy = root2.clone();
    assert_eq!(copy.visible_count(), root2.visible_count());
    assert_eq!(copy.id, "root");
}

#[test]
fn tree_view_and_containers() {
    let tree = TreeView::new("tree_1", TreeNode::new("root", "Root"));
    assert_eq!(tree.id, "tree_1");
    assert_eq!(tree.root.label, "Root");
    let tabs = Tabs::new("tabs_1", vec!["Tab A".into(), "Tab B".into()], 0);
    assert_eq!(tabs.labels.len(), 2);
    assert_eq!(tabs.active, 0);
    let panel = Panel::new("p", "Settings");
    assert!(!panel.collapsed);
    assert!(panel.collapsed(true).collapsed);
    let modal = Modal::new("modal_1", "Confirm?", true);
    assert!(modal.visible);
    assert_eq!(modal.title, "Confirm?");
    let menu = Menu::new("menu_1", vec![MenuItem::item("open", "Open"), MenuItem::separator()]);
    assert_eq!(menu.items.len(), 2);
    match &menu.items[0] {
        MenuItem::Item { id, label } => {
            assert_eq!(id, "open");
            assert_eq!(label, "Open");
        }
        MenuItem::Separator => panic!("expected an item"),
    }
    assert!(matches!(menu.items[1], MenuItem::Separator));
}

fn json(text: &str) -> serde_json::Value {
    serde_json::from_str(text).unwrap()
}

#[test]
fn modal_open_close_actions() {
    let mut m = Modal::new("m", "Title", false);
    assert_eq!(m.execute_action("open", &json("{}")).unwrap(), json(r#"{"visible": true}"#));
    assert!(m.visible);
    assert_eq!(m.agent_state(), json(r#"{"title": "Title", "visible": true}"#));
    assert_eq!(m.execute_action("close", &json("{}")).unwrap(), json(r#"{"visible": false}"#));
    assert!(!m.visible);
    assert_eq!(m.execute_action("spin", &json("{}")).unwrap_err(), "Unknown action: spin");
    assert!(!m.visible);
    assert_eq!(m.actions().len(), 2);
}

#[test]
fn tabs_select_tab_action() {
    let mut t = Tabs::new("t", vec!["A".to_string(), "B".to_string()], 0);
    assert_eq!(t.execute_action("select_tab", &json(r#"{"index": 1}"#)).unwrap(), json(r#"{"active": 1}"#));
    assert_eq!(t.active, 1);
    assert_eq!(t.execute_action("select_tab", &json(r#"{"index": 2}"#)).unwrap_err(), "Tab index out of range");
    assert_eq!(t.execute_action("select_tab", &json(r#"{"index": -1}"#)).unwrap_err(), "Missing 'index' parameter");
    assert_eq!(t.execute_action("select_tab", &json("{}")).unwrap_err(), "Missing 'index' parameter");
    assert_eq!(t.active, 1);
    assert_eq!(t.agent_state(), json(r#"{"active": 1, "tab_count": 2, "labels": ["A", "B"]}"#));
}

#[test]
fn panel_toggle_actions() {
    let mut p = Panel::new("p", "Panel");
    assert_eq!(p.execute_action("toggle", &json("{}")).unwrap(), json(r#"{"collapsed": true}"#));
    assert_eq!(p.execute_action("toggle", &json("{}")).unwrap(), json(r#"{"collapsed": false}"#));
    assert!(!p.collapsed);
    p.execute_action("collapse", &json("{}")).unwrap();
    assert!(p.collapsed);
    p.execute_action("expand", &json("{}")).unwrap();
    assert!(!p.collapsed);
    assert_eq!(p.agent_state(), json(r#"{"title": "Panel", "collapsed": false}"#));
    assert!(p.execute_action("fold", &json("{}")).is_err());
}

#[test]
fn select_actions() {
    let mut s = Select::new("s", vec!["Red".to_string(), "Green".to_string()]);
    assert_eq!(
        s.agent_state(),
        json(r#"{"selected": null, "selected_label": "Select...", "option_count": 2, "open": false}"#)
    );
    s.execute_action("open", &json("{}")).unwrap();
    assert!(s.open);
    let r = s.execute_action("select", &json(r#"{"index": 1}"#)).unwrap();
    assert_eq!(r, json(r#"{"selected": 1, "label": "Green"}"#));
    assert_eq!(s.selected, Some(1));
    assert!(!s.open);
    assert_eq!(s.selected_label(), "Green");
    assert_eq!(s.execute_action("select", &json(r#"{"index": 5}"#)).unwrap_err(), "Index out of range");
    assert_eq!(s.execute_action("select", &json(r#"{"index": "1"}"#)).unwrap_err(), "Missing 'index' parameter");
    assert_eq!(s.selected, Some(1));
}

#[test]
fn menu_select_item_action() {
    let mut m = Menu::new(
        "menu",
        vec![MenuItem::item("new", "New"), MenuItem::separator(), MenuItem::item("quit", "Quit")],
    );
    assert_eq!(
        m.agent_state(),
        json(r#"{"items": [{"id": "new", "label": "New"}, {"id": "quit", "label": "Quit"}]}"#)
    );
    assert_eq!(m.execute_action("select_item", &json(r#"{"id": "quit"}"#)).unwrap(), json(r#"{"selected": "quit"}"#));
    assert_eq!(m.execute_action("select_item", &json(r#"{"id": "open"}"#)).unwrap_err(), "Unknown menu item: open");
    assert_eq!(m.execute_action("select_item", &json("{}")).unwrap_err(), "Missing 'id' parameter");
    assert_eq!(m.execute_action("hover", &json("{}")).unwrap_err(), "Unknown action: hover");
}

#[test]
fn tree_view_expand_collapse_actions() {
    let root = TreeNode::new("r", "Root").child(TreeNode::new("a", "A")).child(TreeNode::new("b", "B"));
    let mut t = TreeView::new("tree", root);
    t.execute_action("expand", &json("{}")).unwrap();
    assert_eq!(
        t.agent_state(),
        json(r#"{"root_label": "Root", "root_expanded": true, "visible_nodes": 3}"#)
    );
    assert_eq!(t.execute_action("collapse", &json("{}")).unwrap(), json(r#"{"expanded": false}"#));
    assert_eq!(t.root.visible_count(), 1);
    assert!(t.execute_action("grow", &json("{}")).is_err());
}

#[test]
fn button_click_actions() {
    let mut b = Button::new("ok", "OK").icon("check").bold();
    assert_eq!(b.icon.as_deref(), Some("check"));
    assert!(b.is_bold);
    assert_eq!(b.execute_action("click", &json("{}")).unwrap(), json(r#"{"clicked": true}"#));
    assert_eq!(b.actions().len(), 1);
    let mut d = Button::new("no", "No").disabled(true);
    assert_eq!(d.execute_action("click", &json("{}")).unwrap_err(), "Button is disabled");
    assert!(d.actions().is_empty());
    assert_eq!(d.agent_state(), json(r#"{"label": "No", "disabled": true}"#));
    assert_eq!(d.execute_action("press", &json("{}")).unwrap_err(), "Unknown action: press");
}

#[test]
fn checkbox_and_radio_actions() {
    let mut c = Checkbox::new("c", "Accept", false);
    assert_eq!(c.execute_action("toggle", &json("{}")).unwrap(), json(r#"{"checked": true}"#));
    assert_eq!(c.agent_state(), json(r#"{"checked": true, "label": "Accept"}"#));
    c.execute_action("toggle", &json("{}")).unwrap();
    assert!(!c.checked);
    let mut r = Radio::new("r", "A", false);
    assert_eq!(r.execute_action("select", &json("{}")).unwrap(), json(r#"{"selected": true}"#));
    assert!(r.selected);
    assert!(r.execute_action("toggle", &json("{}")).is_err());
    assert!(r.selected);
}

#[test]
fn tooltip_set_text_action() {
    let mut t = Tooltip::new("tip", "Help");
    assert_eq!(t.execute_action("set_text", &json(r#"{"text": "More help"}"#)).unwrap(), json(r#"{"text": "More help"}"#));
    assert_eq!(t.text, "More help");
    assert_eq!(t.execute_action("set_text", &json(r#"{"text": 3}"#)).unwrap_err(), "Missing 'text' parameter");
    assert_eq!(t.agent_state(), json(r#"{"text": "More help"}"#));
}

#[test]
fn list_and_table_selection_actions() {
    let mut l = List::new("l", vec!["a".to_string(), "b".to_string(), "c".to_string()]);
    assert_eq!(l.agent_state(), json(r#"{"item_count": 3, "selected": null}"#));
    assert_eq!(l.execute_action("select", &json(r#"{"index": 2}"#)).unwrap(), json(r#"{"selected": 2}"#));
    assert_eq!(l.selected, Some(2));
    assert_eq!(l.execute_action("select", &json(r#"{"index": 3}"#)).unwrap_err(), "Index out of range");
    assert_eq!(l.selected, Some(2));
    let l2 = List::new("l2", vec![]).selected(4);
    assert_eq!(l2.selected, Some(4));

    let mut t = Table::new(
        "t",
        vec!["Name".to_string(), "Age".to_string()],
        vec![vec!["Ann".to_string(), "3".to_string()]],
    );
    assert_eq!(t.execute_action("select_row", &json(r#"{"index": 0}"#)).unwrap(), json(r#"{"selected_row": 0}"#));
    assert_eq!(t.agent_state(), json(r#"{"columns": ["Name", "Age"], "row_count": 1, "selected_row": 0}"#));
    assert_eq!(t.execute_action("sort", &json("{}")).unwrap_err(), "Unknown action: sort");
    assert_eq!(t.actions().len(), 3);
}

#[test]
fn text_input_editing_with_multibyte_chars() {
    let mut t = TextInput::new("in").value("hé");
    assert_eq!(t.cursor, 3);
    t.insert_char('€');
    assert_eq!(t.value, "hé€");
    assert_eq!(t.cursor, 6);
    t.cursor = 1;
    t.insert_char('x');
    assert_eq!(t.value, "hxé€");
    assert_eq!(t.cursor, 2);
    t.delete_back();
    assert_eq!(t.value, "hé€");
    assert_eq!(t.cursor, 1);
    t.delete_back();
    assert_eq!(t.value, "é€");
    assert_eq!(t.cursor, 0);
    t.delete_back();
    assert_eq!(t.value, "é€");
    assert_eq!(t.cursor, 0);
}

#[test]
fn text_input_agent_actions() {
    let mut t = TextInput::new("in").placeholder("Name");
    assert_eq!(t.execute_action("set_value", &json(r#"{"value": "añb"}"#)).unwrap(), json(r#"{"value": "añb"}"#));
    assert_eq!(t.cursor, 4);
    assert_eq!(t.agent_state(), json(r#"{"value": "añb", "placeholder": "Name", "cursor": 4}"#));
    assert_eq!(t.execute_action("clear", &json("{}")).unwrap(), json(r#"{"value": ""}"#));
    assert_eq!(t.value, "");
    assert_eq!(t.cursor, 0);
    assert_eq!(t.execute_action("set_value", &json("{}")).unwrap_err(), "Missing 'value' parameter");
}

#[test]
fn text_area_lines_and_actions() {
    let mut a = TextArea::new("ta").value("one\ntwo\n");
    assert_eq!(a.agent_state(), json(r#"{"value": "one\ntwo\n", "line_count": 2}"#));
    a.execute_action("set_value", &json(r#"{"value": "a\r\nb\n\nc"}"#)).unwrap();
    assert_eq!(a.agent_state()["line_count"], 4);
    assert_eq!(a.agent_state()["line_count"], a.value.lines().count());
    a.execute_action("clear", &json("{}")).unwrap();
    assert_eq!(a.agent_state(), json(r#"{"value": "", "line_count": 0}"#));
}
