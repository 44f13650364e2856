use todo_list::{AppState, Command, Delegate, Dispatch, Handled, SerdeTodoItem, Stored, TodoItem};

fn record(id: u128, text: &str, done: bool) -> SerdeTodoItem {
    SerdeTodoItem { id, done, text: text.to_string() }
}

fn two_items() -> AppState {
    AppState::load_from_json(Stored::Records(vec![record(1, "A", false), record(2, "B", false)]))
}

fn item(state: &AppState, id: u128) -> &TodoItem {
    &state.todos()[state.position(id).unwrap()]
}

#[test]
fn select_is_handled_without_a_write() {
    let mut state = two_items();
    let out = Delegate.command(&Command::Select(1), &mut state);
    assert_eq!(out, Dispatch { handled: Handled::Yes, persist: None });
    assert_eq!(state.selected(), Some(1));
}

#[test]
fn select_then_select_is_exclusive() {
    let mut state = two_items();
    Delegate.command(&Command::Select(1), &mut state);
    Delegate.command(&Command::Select(2), &mut state);
    assert!(!item(&state, 1).is_selected());
    assert!(item(&state, 2).is_selected());
    assert_eq!(state.selected(), Some(2));
}

#[test]
fn confirm_keeps_the_text_and_writes_it() {
    let mut state = two_items();
    Delegate.command(&Command::Select(1), &mut state);
    state.set_text(1, "new");
    let out = Delegate.command(&Command::UnselectConfirm(1), &mut state);
    assert_eq!(item(&state, 1).text(), "new");
    assert_eq!(state.selected(), None);
    assert_eq!(out.handled, Handled::Yes);
    assert_eq!(out.persist, Some(vec![record(1, "new", false), record(2, "B", false)]));
}

#[test]
fn confirm_of_an_idle_item_still_writes() {
    let mut state = two_items();
    let before = state.clone();
    let out = Delegate.command(&Command::UnselectConfirm(2), &mut state);
    assert_eq!(state, before);
    assert_eq!(out.persist, Some(before.save_to_json()));
}

#[test]
fn cancel_restores_the_text_without_a_write() {
    let mut state = two_items();
    Delegate.command(&Command::Select(1), &mut state);
    state.set_text(1, "anything");
    let out = Delegate.command(&Command::UnselectCancel(1), &mut state);
    assert_eq!(out, Dispatch { handled: Handled::Yes, persist: None });
    assert_eq!(item(&state, 1).text(), "A");
    assert_eq!(item(&state, 1).rendered().content(), "A");
    assert_eq!(state.selected(), None);
}

#[test]
fn rebuild_is_handled_without_a_write() {
    let mut state = two_items();
    let before = state.clone();
    let out = Delegate.command(&Command::Rebuild(1), &mut state);
    assert_eq!(out, Dispatch { handled: Handled::Yes, persist: None });
    assert_eq!(state, before);
}

#[test]
fn save_writes_the_current_records() {
    let mut state = two_items();
    Delegate.command(&Command::Select(2), &mut state);
    state.set_text(2, "typing");
    let before = state.clone();
    let out = Delegate.command(&Command::Save, &mut state);
    assert_eq!(state, before);
    assert_eq!(out.handled, Handled::Yes);
    assert_eq!(out.persist, Some(vec![record(1, "A", false), record(2, "typing", false)]));
}

#[test]
fn toggle_done_rebuilds_and_writes() {
    let mut state = two_items();
    let out = Delegate.command(&Command::ToggleDone(2), &mut state);
    assert!(item(&state, 2).is_done());
    assert_eq!(item(&state, 2).rendered().content(), "~B~");
    assert_eq!(out.handled, Handled::Yes);
    assert_eq!(out.persist, Some(vec![record(1, "A", false), record(2, "B", true)]));
}

#[test]
fn add_writes_the_new_record_first() {
    let mut state = AppState::new();
    state.set_draft("buy milk");
    let out = Delegate.command(&Command::Add, &mut state);
    assert_eq!(out.handled, Handled::Yes);
    assert_eq!(state.todos().len(), 1);
    assert_eq!(state.todos()[0].text(), "buy milk");
    assert!(!state.todos()[0].is_done());
    assert_eq!(state.new_todo(), "");
    assert_eq!(out.persist, Some(vec![record(state.todos()[0].id(), "buy milk", false)]));
}

#[test]
fn dispatch_adds_with_the_given_identifier() {
    let mut state = two_items();
    state.set_draft("C");
    let out = Delegate.dispatch(&Command::Add, 3, &mut state);
    assert_eq!(
        out.persist,
        Some(vec![record(3, "C", false), record(1, "A", false), record(2, "B", false)])
    );
    let before = state.clone();
    state.set_draft("D");
    let out = Delegate.dispatch(&Command::Add, 3, &mut state);
    assert_eq!(state.todos(), before.todos());
    assert_eq!(state.new_todo(), "D");
    assert_eq!(out.persist, Some(before.save_to_json()));
}

#[test]
fn dispatch_ignores_the_identifier_for_other_commands() {
    let mut a = two_items();
    let mut b = two_items();
    let out_a = Delegate.dispatch(&Command::Select(2), 7, &mut a);
    let out_b = Delegate.dispatch(&Command::Select(2), 8, &mut b);
    assert_eq!(a, b);
    assert_eq!(out_a, out_b);
}

#[test]
fn clear_completed_writes_the_survivors() {
    let mut state = AppState::load_from_json(Stored::Records(vec![
        record(1, "a", true),
        record(2, "b", false),
        record(3, "c", true),
    ]));
    let out = Delegate.command(&Command::ClearCompleted, &mut state);
    assert_eq!(out.handled, Handled::Yes);
    assert_eq!(out.persist, Some(vec![record(2, "b", false)]));
    assert_eq!(state.todos().len(), 1);
    assert_eq!(state.todos()[0].id(), 2);
}

#[test]
fn unrecognized_command_is_not_handled() {
    let mut state = two_items();
    Delegate.command(&Command::Select(1), &mut state);
    let before = state.clone();
    let out = Delegate.command(&Command::Unrecognized, &mut state);
    assert_eq!(out, Dispatch { handled: Handled::No, persist: None });
    assert_eq!(state, before);
}

#[test]
fn write_sees_the_state_after_the_change() {
    let mut state = two_items();
    Delegate.command(&Command::Select(1), &mut state);
    state.set_text(1, "kept");
    Delegate.command(&Command::Select(2), &mut state);
    state.set_text(2, "typed");
    let out = Delegate.command(&Command::ToggleDone(1), &mut state);
    assert_eq!(out.persist, Some(state.save_to_json()));
    assert_eq!(out.persist, Some(vec![record(1, "kept", true), record(2, "typed", false)]));
}
