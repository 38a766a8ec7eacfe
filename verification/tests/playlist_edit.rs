use euphonica::playlist_edit::{HistoryStep, InternalEditAction, PlaylistContentView};

fn editor_with(items: &[u32]) -> PlaylistContentView<u32> {
    let mut ed = PlaylistContentView::new();
    ed.enter_edit_mode(items.to_vec());
    ed
}

#[test]
fn shift_backward_swaps_with_previous() {
    let mut ed = editor_with(&[1, 2, 3, 4]);
    ed.shift_backward(2);
    assert_eq!(ed.songs(), &vec![1, 3, 2, 4]);
    assert_eq!(ed.history_idx(), 1);
    assert_eq!(ed.history_len(), 1);
}

#[test]
fn shift_backward_at_top_does_nothing() {
    let mut ed = editor_with(&[1, 2, 3]);
    ed.shift_backward(0);
    assert_eq!(ed.songs(), &vec![1, 2, 3]);
    assert_eq!(ed.history_len(), 0);
}

#[test]
fn shift_forward_swaps_with_next_and_ignores_last() {
    let mut ed = editor_with(&[1, 2, 3]);
    ed.shift_forward(0);
    assert_eq!(ed.songs(), &vec![2, 1, 3]);
    ed.shift_forward(2);
    assert_eq!(ed.songs(), &vec![2, 1, 3]);
    assert_eq!(ed.history_len(), 1);
}

#[test]
fn remove_then_undo_restores_song() {
    let mut ed = editor_with(&[10, 20, 30]);
    ed.remove(1);
    assert_eq!(ed.songs(), &vec![10, 30]);
    ed.undo();
    assert_eq!(ed.songs(), &vec![10, 20, 30]);
    assert_eq!(ed.history_idx(), 0);
    assert_eq!(ed.update_undo_redo_sensitivity(), (false, true));
}

#[test]
fn undo_then_redo_restores_edit() {
    let mut ed = editor_with(&[1, 2, 3, 4]);
    ed.shift_forward(1);
    ed.remove(0);
    let after = ed.songs().clone();
    ed.undo();
    ed.undo();
    assert_eq!(ed.songs(), &vec![1, 2, 3, 4]);
    ed.redo();
    ed.redo();
    assert_eq!(ed.songs(), &after);
    assert_eq!(ed.update_undo_redo_sensitivity(), (true, false));
}

#[test]
fn new_edit_drops_undone_steps() {
    let mut ed = editor_with(&[1, 2, 3]);
    ed.shift_forward(0);
    ed.shift_forward(1);
    ed.undo();
    assert_eq!(ed.history_len(), 2);
    ed.remove(2);
    assert_eq!(ed.history_len(), 2);
    assert_eq!(ed.history_idx(), 2);
    assert_eq!(ed.songs(), &vec![2, 1]);
}

#[test]
fn exit_with_apply_returns_edited_list() {
    let mut ed = editor_with(&[5, 6, 7]);
    ed.remove(0);
    let written = ed.exit_edit_mode(true);
    assert_eq!(written, Some(vec![6, 7]));
    assert_eq!(ed.history_len(), 0);
    assert_eq!(ed.history_idx(), 0);
}

#[test]
fn exit_with_apply_after_undoing_everything_writes_nothing() {
    let mut ed = editor_with(&[5, 6, 7]);
    ed.remove(0);
    ed.undo();
    assert_eq!(ed.exit_edit_mode(true), None);
    assert_eq!(ed.history_len(), 0);
}

#[test]
fn cancel_keeps_history() {
    let mut ed = editor_with(&[5, 6, 7]);
    ed.shift_forward(0);
    assert_eq!(ed.exit_edit_mode(false), None);
    assert_eq!(ed.history_len(), 1);
    assert_eq!(ed.history_idx(), 1);
    ed.enter_edit_mode(vec![5, 6, 7]);
    assert_eq!(ed.update_undo_redo_sensitivity(), (true, false));
}

#[test]
fn history_step_forward_backward_roundtrip() {
    let mut list = vec![1u32, 2, 3];
    let step = HistoryStep { action: InternalEditAction::Remove(2), song: Some(3u32) };
    step.forward(&mut list);
    assert_eq!(list, vec![1, 2]);
    step.backward(&mut list);
    assert_eq!(list, vec![1, 2, 3]);
    let shift = HistoryStep::<u32> { action: InternalEditAction::ShiftBackward(1), song: None };
    shift.forward(&mut list);
    assert_eq!(list, vec![2, 1, 3]);
    shift.backward(&mut list);
    assert_eq!(list, vec![1, 2, 3]);
}

#[test]
fn removal_past_end_changes_nothing() {
    let mut list = vec![1u32, 2];
    let step = HistoryStep { action: InternalEditAction::Remove(5), song: Some(9u32) };
    step.forward(&mut list);
    assert_eq!(list, vec![1, 2]);
    step.backward(&mut list);
    assert_eq!(list, vec![1, 2]);
}
