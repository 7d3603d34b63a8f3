use todo_list::todo::{Command, TodoList};

fn editor_with(items: &[&str]) -> TodoList {
    let mut app = TodoList::new("TodoList".to_string());
    for item in items {
        app.set_input(item.to_string());
        app.dispatch(Command::Submit);
    }
    app
}

#[test]
fn empty_start_shows_title_empty_input_zero_rows() {
    let app = TodoList::new("TodoList".to_string());
    let tree = app.render();
    assert_eq!(tree.title, "TodoList - GPUI");
    assert_eq!(tree.input_value, "");
    assert_eq!(tree.rows.len(), 0);
}

#[test]
fn typed_text_then_submit_moves_value_and_clears_input() {
    let mut app = TodoList::new("TodoList".to_string());
    app.set_input("buy milk".to_string());
    assert_eq!(app.input_value(), "buy milk");
    app.dispatch(Command::Submit);
    assert_eq!(app.input_value(), "");
    assert_eq!(app.items(), &vec!["buy milk".to_string()]);
    let tree = app.render();
    assert_eq!(tree.rows.len(), 1);
    assert_eq!(tree.rows[0].label, "T-0: buy milk");
    assert_eq!(tree.input_value, "");
}

#[test]
fn submit_is_atomic_both_effects_observed_together() {
    let mut app = editor_with(&["first"]);
    app.set_input("second".to_string());
    app.dispatch(Command::Submit);
    assert_eq!(app.input_value(), "");
    assert_eq!(app.items(), &vec!["first".to_string(), "second".to_string()]);
}

#[test]
fn submit_of_empty_input_appends_empty_item() {
    let mut app = TodoList::new("TodoList".to_string());
    app.dispatch(Command::Submit);
    assert_eq!(app.input_value(), "");
    assert_eq!(app.items(), &vec!["".to_string()]);
}

#[test]
fn remove_on_rendered_row_relabels_remaining_rows() {
    let mut app = editor_with(&["a", "b", "c"]);
    let tree = app.render();
    assert_eq!(tree.rows[1].label, "T-1: b");
    let payload = tree.rows[1].remove_payload.clone();
    assert_eq!(payload, "b");
    app.dispatch(Command::Remove(payload));
    assert_eq!(app.items(), &vec!["a".to_string(), "c".to_string()]);
    let tree = app.render();
    assert_eq!(tree.rows.len(), 2);
    assert_eq!(tree.rows[0].label, "T-0: a");
    assert_eq!(tree.rows[1].label, "T-1: c");
}

#[test]
fn remove_command_deletes_all_equal_items() {
    let mut app = editor_with(&["x", "x"]);
    assert_eq!(app.items(), &vec!["x".to_string(), "x".to_string()]);
    app.dispatch(Command::Remove("x".to_string()));
    assert_eq!(app.items().len(), 0);
}

#[test]
fn remove_command_leaves_input_alone() {
    let mut app = editor_with(&["a"]);
    app.set_input("half-typed".to_string());
    app.dispatch(Command::Remove("a".to_string()));
    assert_eq!(app.input_value(), "half-typed");
    assert_eq!(app.items().len(), 0);
}

#[test]
fn render_is_idempotent_and_pure() {
    let mut app = editor_with(&["one", "two"]);
    app.set_input("three".to_string());
    let first = app.render();
    let second = app.render();
    assert_eq!(first, second);
    assert_eq!(app.input_value(), "three");
    assert_eq!(app.items(), &vec!["one".to_string(), "two".to_string()]);
}

#[test]
fn render_is_total_for_odd_values() {
    let mut app = TodoList::new(String::new());
    app.set_input("tab\tand\nnewline".to_string());
    app.dispatch(Command::Submit);
    app.set_input("".to_string());
    let tree = app.render();
    assert_eq!(tree.title, " - GPUI");
    assert_eq!(tree.rows[0].label, "T-0: tab\tand\nnewline");
}

#[test]
fn row_labels_use_decimal_indices_in_order() {
    let items: Vec<String> = (0..12).map(|i| format!("item{i}")).collect();
    let refs: Vec<&str> = items.iter().map(|s| s.as_str()).collect();
    let app = editor_with(&refs);
    let tree = app.render();
    assert_eq!(tree.rows.len(), 12);
    assert_eq!(tree.rows[9].label, "T-9: item9");
    assert_eq!(tree.rows[10].label, "T-10: item10");
    assert_eq!(tree.rows[11].label, "T-11: item11");
}
