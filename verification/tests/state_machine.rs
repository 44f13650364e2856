use todo_list::{AppState, RichText, SerdeTodoItem, Stored, TodoItem};

fn record(id: u128, text: &str, done: bool) -> SerdeTodoItem {
    SerdeTodoItem { id, done, text: text.to_string() }
}

fn three_items() -> AppState {
    AppState::load_from_json(Stored::Records(vec![
        record(1, "one", false),
        record(2, "two", true),
        record(3, "three", false),
    ]))
}

fn item(state: &AppState, id: u128) -> &TodoItem {
    &state.todos()[state.position(id).unwrap()]
}

fn selected_count(state: &AppState) -> usize {
    state.todos().iter().filter(|t| t.is_selected()).count()
}

fn flags_agree(state: &AppState) -> bool {
    state.todos().iter().all(|t| t.is_selected() == t.is_editing())
}

fn pointer_agrees(state: &AppState) -> bool {
    match state.selected() {
        Some(id) => {
            state.todos().iter().filter(|t| t.id() == id && t.is_selected()).count() == 1
                && selected_count(state) == 1
        }
        None => selected_count(state) == 0,
    }
}

#[test]
fn new_state_is_empty() {
    let state = AppState::new();
    assert!(state.todos().is_empty());
    assert_eq!(state.new_todo(), "");
    assert_eq!(state.selected(), None);
}

#[test]
fn select_activates_one_item() {
    let mut state = three_items();
    state.select(2);
    assert_eq!(state.selected(), Some(2));
    assert!(item(&state, 2).is_selected());
    assert!(item(&state, 2).is_editing());
    assert!(!item(&state, 1).is_selected());
    assert!(!item(&state, 3).is_selected());
    assert_eq!(selected_count(&state), 1);
}

#[test]
fn select_snapshots_the_text() {
    let mut state = three_items();
    state.select(1);
    state.set_text(1, "uno");
    state.unselect(1);
    assert_eq!(item(&state, 1).stash(), "one");
    state.select(1);
    assert_eq!(item(&state, 1).stash(), "uno");
}

#[test]
fn select_of_selected_item_changes_nothing() {
    let mut state = three_items();
    state.select(1);
    state.set_text(1, "edited");
    let before = state.clone();
    state.select(1);
    assert_eq!(state, before);
    assert_eq!(item(&state, 1).stash(), "one");
}

#[test]
fn select_of_unknown_id_changes_nothing() {
    let mut state = three_items();
    state.select(1);
    let before = state.clone();
    state.select(99);
    assert_eq!(state, before);
}

#[test]
fn selecting_another_item_deselects_the_first() {
    let mut state = three_items();
    state.select(1);
    state.select(3);
    assert!(!item(&state, 1).is_selected());
    assert!(!item(&state, 1).is_editing());
    assert!(item(&state, 3).is_selected());
    assert!(item(&state, 3).is_editing());
    assert_eq!(state.selected(), Some(3));
}

#[test]
fn selecting_another_item_keeps_and_shows_what_was_typed() {
    let mut state = three_items();
    state.select(1);
    state.set_text(1, "uno");
    state.select(3);
    assert_eq!(item(&state, 1).text(), "uno");
    assert_eq!(item(&state, 1).rendered(), &RichText::render("uno", false));
}

#[test]
fn unselect_keeps_the_typed_text() {
    let mut state = three_items();
    state.select(2);
    state.set_text(2, "zwei");
    state.unselect(2);
    assert_eq!(state.selected(), None);
    assert_eq!(item(&state, 2).text(), "zwei");
    assert!(!item(&state, 2).is_selected());
    assert!(!item(&state, 2).is_editing());
    assert_eq!(item(&state, 2).rendered().content(), "~zwei~");
}

#[test]
fn unselect_of_another_item_changes_nothing() {
    let mut state = three_items();
    state.select(2);
    let before = state.clone();
    state.unselect(1);
    assert_eq!(state, before);
    state.unselect(99);
    assert_eq!(state, before);
}

#[test]
fn cancel_restores_the_text() {
    let mut state = three_items();
    let before = item(&state, 1).text().to_string();
    state.select(1);
    state.set_text(1, "anything");
    state.cancel(1);
    assert_eq!(item(&state, 1).text(), before);
    assert_eq!(item(&state, 1).text(), "one");
    assert_eq!(item(&state, 1).rendered().content(), "one");
    assert_eq!(state.selected(), None);
    assert!(!item(&state, 1).is_selected());
}

#[test]
fn cancel_of_another_item_changes_nothing() {
    let mut state = three_items();
    state.select(1);
    state.set_text(1, "uno");
    state.unselect(1);
    state.select(2);
    let before = state.clone();
    state.cancel(1);
    assert_eq!(state, before);
    assert_eq!(item(&state, 1).text(), "uno");
}

#[test]
fn cancel_of_a_running_session_goes_back_to_its_start() {
    let mut state = three_items();
    state.select(1);
    state.set_text(1, "half");
    state.select(1);
    state.set_text(1, "whole");
    state.cancel(1);
    assert_eq!(item(&state, 1).text(), "one");
}

#[test]
fn set_text_reaches_only_the_edited_item() {
    let mut state = three_items();
    let before = state.clone();
    state.set_text(1, "nope");
    assert_eq!(state, before);
    state.select(1);
    state.set_text(3, "nope");
    assert_eq!(item(&state, 3).text(), "three");
    state.set_text(1, "yes");
    assert_eq!(item(&state, 1).text(), "yes");
    assert_eq!(item(&state, 1).stash(), "one");
}

#[test]
fn set_draft_replaces_the_draft() {
    let mut state = three_items();
    state.set_draft("next");
    assert_eq!(state.new_todo(), "next");
    assert_eq!(state.todos().len(), 3);
}

#[test]
fn toggle_done_flips_one_item() {
    let mut state = three_items();
    state.toggle_done(1);
    assert!(item(&state, 1).is_done());
    assert_eq!(item(&state, 1).rendered().content(), "~one~");
    assert!(item(&state, 2).is_done());
    assert!(!item(&state, 3).is_done());
    state.toggle_done(1);
    assert!(!item(&state, 1).is_done());
    assert_eq!(item(&state, 1).rendered().content(), "one");
}

#[test]
fn toggle_done_leaves_the_selection_alone() {
    let mut state = three_items();
    state.select(2);
    state.toggle_done(2);
    assert!(!item(&state, 2).is_done());
    assert!(item(&state, 2).is_selected());
    assert!(item(&state, 2).is_editing());
    assert_eq!(state.selected(), Some(2));
}

#[test]
fn rebuild_changes_nothing_for_an_idle_item() {
    let mut state = three_items();
    let before = state.clone();
    state.rebuild(2);
    assert_eq!(state, before);
    state.rebuild(99);
    assert_eq!(state, before);
}

#[test]
fn add_with_id_prepends_and_clears_the_draft() {
    let mut state = three_items();
    state.set_draft("zero");
    assert!(state.add_with_id(10));
    assert_eq!(state.todos().len(), 4);
    assert_eq!(state.todos()[0], TodoItem::with_id(10, "zero"));
    assert_eq!(state.todos()[1].id(), 1);
    assert_eq!(state.todos()[2].id(), 2);
    assert_eq!(state.todos()[3].id(), 3);
    assert_eq!(state.new_todo(), "");
}

#[test]
fn add_with_used_id_changes_nothing() {
    let mut state = three_items();
    state.set_draft("zero");
    let before = state.clone();
    assert!(!state.add_with_id(2));
    assert_eq!(state, before);
}

#[test]
fn add_keeps_the_selection() {
    let mut state = three_items();
    state.select(3);
    state.set_draft("zero");
    assert!(state.add_with_id(10));
    assert_eq!(state.selected(), Some(3));
    assert!(item(&state, 3).is_selected());
    assert!(!item(&state, 10).is_selected());
}

#[test]
fn add_to_empty_state() {
    let mut state = AppState::new();
    state.set_draft("buy milk");
    assert!(state.add_todo());
    assert_eq!(state.todos().len(), 1);
    assert_eq!(state.todos()[0].text(), "buy milk");
    assert!(!state.todos()[0].is_done());
    assert!(!state.todos()[0].is_selected());
    assert_eq!(state.new_todo(), "");
    assert_eq!(
        state.save_to_json(),
        vec![record(state.todos()[0].id(), "buy milk", false)]
    );
}

#[test]
fn add_todo_puts_the_newest_first() {
    let mut state = AppState::new();
    state.set_draft("first");
    assert!(state.add_todo());
    state.set_draft("second");
    assert!(state.add_todo());
    assert_eq!(state.todos()[0].text(), "second");
    assert_eq!(state.todos()[1].text(), "first");
    assert_ne!(state.todos()[0].id(), state.todos()[1].id());
}

#[test]
fn clear_completed_keeps_the_open_item() {
    let mut state = AppState::load_from_json(Stored::Records(vec![
        record(1, "a", true),
        record(2, "b", false),
        record(3, "c", true),
    ]));
    state.clear_completed();
    assert_eq!(state.save_to_json(), vec![record(2, "b", false)]);
}

#[test]
fn clear_completed_keeps_the_order_of_survivors() {
    let mut state = AppState::load_from_json(Stored::Records(vec![
        record(1, "a", false),
        record(2, "b", true),
        record(3, "c", false),
        record(4, "d", true),
        record(5, "e", true),
        record(6, "f", false),
    ]));
    state.clear_completed();
    assert_eq!(
        state.save_to_json(),
        vec![record(1, "a", false), record(3, "c", false), record(6, "f", false)]
    );
}

#[test]
fn clear_completed_without_completed_items_changes_nothing() {
    let mut state = AppState::load_from_json(Stored::Records(vec![
        record(1, "a", false),
        record(2, "b", false),
    ]));
    let before = state.clone();
    state.clear_completed();
    assert_eq!(state, before);
}

#[test]
fn clear_completed_can_empty_the_list() {
    let mut state = AppState::load_from_json(Stored::Records(vec![
        record(1, "a", true),
        record(2, "b", true),
    ]));
    state.clear_completed();
    assert!(state.todos().is_empty());
}

#[test]
fn clear_completed_drops_the_selection_with_its_item() {
    let mut state = three_items();
    state.select(2);
    state.clear_completed();
    assert_eq!(state.selected(), None);
    assert_eq!(selected_count(&state), 0);
    assert_eq!(state.todos().len(), 2);
}

#[test]
fn clear_completed_keeps_the_selection_of_a_survivor() {
    let mut state = three_items();
    state.select(3);
    state.set_text(3, "drei");
    state.clear_completed();
    assert_eq!(state.selected(), Some(3));
    assert!(item(&state, 3).is_selected());
    assert_eq!(item(&state, 3).text(), "drei");
}

#[test]
fn position_finds_items_by_id() {
    let state = three_items();
    assert_eq!(state.position(1), Some(0));
    assert_eq!(state.position(3), Some(2));
    assert_eq!(state.position(4), None);
    assert_eq!(AppState::new().position(1), None);
}

#[test]
fn is_selected_follows_the_pointer() {
    let mut state = three_items();
    assert!(!state.is_selected(1));
    state.select(1);
    assert!(state.is_selected(1));
    assert!(!state.is_selected(2));
}

#[test]
fn at_most_one_item_is_selected_all_along() {
    let mut state = three_items();
    let steps: Vec<fn(&mut AppState)> = vec![
        |s| s.select(1),
        |s| s.select(2),
        |s| s.set_text(2, "zwei"),
        |s| s.select(3),
        |s| s.toggle_done(3),
        |s| s.cancel(3),
        |s| s.select(1),
        |s| s.clear_completed(),
        |s| s.set_draft("new"),
        |s| {
            s.add_with_id(7);
        },
        |s| s.select(7),
        |s| s.unselect(1),
        |s| s.unselect(7),
        |s| s.select(99),
        |s| s.rebuild(1),
    ];
    assert!(selected_count(&state) <= 1 && flags_agree(&state) && pointer_agrees(&state));
    for step in steps {
        step(&mut state);
        assert!(selected_count(&state) <= 1);
        assert!(flags_agree(&state));
        assert!(pointer_agrees(&state));
    }
}

#[test]
fn idle_items_show_their_current_text_all_along() {
    let mut state = three_items();
    state.select(1);
    state.set_text(1, "uno");
    state.toggle_done(3);
    state.select(2);
    state.set_text(2, "zwei");
    state.cancel(2);
    state.toggle_done(1);
    for t in state.todos() {
        assert!(!t.is_selected());
        assert_eq!(t.rendered(), &RichText::render(t.text(), t.is_done()));
    }
}

#[test]
fn clone_gives_an_equal_state() {
    let mut state = three_items();
    state.select(2);
    state.set_text(2, "zwei");
    state.set_draft("vier");
    let copy = state.clone();
    assert_eq!(copy, state);
    assert_eq!(copy.save_to_json(), state.save_to_json());
    state.cancel(2);
    assert_ne!(copy, state);
    assert_eq!(item(&copy, 2).text(), "zwei");
}

#[test]
fn unselect_after_clear_of_the_selected_item_changes_nothing() {
    let mut state = three_items();
    state.select(2);
    state.clear_completed();
    let before = state.clone();
    state.unselect(2);
    state.cancel(2);
    state.rebuild(2);
    state.toggle_done(2);
    state.set_text(2, "gone");
    assert_eq!(state, before);
}
