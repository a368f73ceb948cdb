use srotas_desk::ui::history::{push_edit, redo, undo, EditableField, EditableState, HISTORY_LIMIT};
use srotas_desk::ui::items::{FormField, ItemForm};

#[test]
fn undo_restores_the_previous_value_of_a_plain_state_field() {
    let mut state = EditableState::default();
    push_edit(&mut state, EditableField::Search, "abc".to_string());
    assert_eq!(state.search_query, "abc");

    undo(&mut state);
    assert_eq!(state.search_query, "");
}

#[test]
fn redo_reapplies_an_undone_edit() {
    let mut state = EditableState::default();
    push_edit(&mut state, EditableField::Search, "abc".to_string());
    undo(&mut state);
    redo(&mut state);
    assert_eq!(state.search_query, "abc");
}

#[test]
fn multiple_edits_unwind_in_reverse_order() {
    let mut state = EditableState::default();
    push_edit(&mut state, EditableField::Search, "a".to_string());
    push_edit(&mut state, EditableField::Search, "ab".to_string());
    push_edit(&mut state, EditableField::Search, "abc".to_string());

    undo(&mut state);
    assert_eq!(state.search_query, "ab");
    undo(&mut state);
    assert_eq!(state.search_query, "a");
    undo(&mut state);
    assert_eq!(state.search_query, "");
}

#[test]
fn a_fresh_edit_clears_the_redo_stack() {
    let mut state = EditableState::default();
    push_edit(&mut state, EditableField::Search, "a".to_string());
    push_edit(&mut state, EditableField::Search, "ab".to_string());
    undo(&mut state);

    push_edit(&mut state, EditableField::Search, "az".to_string());
    redo(&mut state);
    assert_eq!(state.search_query, "az");
}

#[test]
fn undo_and_redo_on_empty_stacks_do_nothing() {
    let mut state = EditableState::default();
    undo(&mut state);
    redo(&mut state);
    assert_eq!(state.search_query, "");
}

#[test]
fn undo_applies_to_a_field_inside_a_currently_open_form() {
    let mut state = EditableState::default();
    state.item_form = Some(ItemForm::empty());

    push_edit(&mut state, EditableField::ItemForm(FormField::Name), "PVC Pipe".to_string());
    assert_eq!(state.item_form.as_ref().unwrap().name, "PVC Pipe");

    undo(&mut state);
    assert_eq!(state.item_form.as_ref().unwrap().name, "");
}

#[test]
fn undo_targeting_a_closed_form_is_a_harmless_no_op() {
    let mut state = EditableState::default();
    state.item_form = Some(ItemForm::empty());
    push_edit(&mut state, EditableField::ItemForm(FormField::Name), "PVC Pipe".to_string());

    state.item_form = None;
    undo(&mut state);
    assert!(state.item_form.is_none());
}

#[test]
fn editing_the_search_returns_to_the_first_page() {
    let mut state = EditableState::default();
    state.items_page = 4;
    push_edit(&mut state, EditableField::Search, "pipe".to_string());
    assert_eq!(state.items_page, 0);
}

#[test]
fn the_history_keeps_only_the_most_recent_edits() {
    let mut state = EditableState::default();
    for i in 0..(HISTORY_LIMIT + 25) {
        push_edit(&mut state, EditableField::BillQty, i.to_string());
    }
    assert_eq!(state.undo_stack.len(), HISTORY_LIMIT);
    for _ in 0..HISTORY_LIMIT {
        undo(&mut state);
    }
    // the oldest 25 edits were forgotten, so the text stops at the 25th
    assert_eq!(state.bill_qty, "24");
    undo(&mut state);
    assert_eq!(state.bill_qty, "24");
}
