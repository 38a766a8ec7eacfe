//! Editing a playlist with undo and redo.
//!
//! An edit session works on a copy of the playlist's songs. Each edit is a
//! `HistoryStep` that can be replayed (`forward`) or reverted (`backward`).
//! The history is a list of steps with a cursor: the steps before the cursor
//! have been applied, those after it have been undone and can be redone.
use vstd::prelude::*;

verus! {

/// One edit of the song list, by the position it touches.
#[derive(Debug, Clone, Copy, PartialEq, Eq, Structural)]
pub enum InternalEditAction {
    /// Move the song at this position one place towards the start.
    ShiftBackward(u32),
    /// Move the song at this position one place towards the end.
    ShiftForward(u32),
    /// Take the song at this position out of the list.
    Remove(u32),
}

/// An edit together with what is needed to revert it: the song that a removal
/// took out.
#[derive(Debug)]
pub struct HistoryStep<T> {
    pub action: InternalEditAction,
    pub song: Option<T>,
}

/// `s` with the items at `src` and `src + 1` exchanged.
pub open spec fn swap_adjacent<T>(s: Seq<T>, src: int) -> Seq<T> {
    s.update(src, s[src + 1]).update(src + 1, s[src])
}

/// Replaying the step touches only positions inside the list: a shift needs
/// both of the positions it exchanges. (A removal past the end changes
/// nothing, as the list store ignores it.)
pub open spec fn forward_safe<T>(step: HistoryStep<T>, s: Seq<T>) -> bool {
    match step.action {
        InternalEditAction::ShiftBackward(i) => 1 <= i && i < s.len(),
        InternalEditAction::ShiftForward(i) => i + 1 < s.len(),
        InternalEditAction::Remove(_) => true,
    }
}

/// Reverting the step touches only positions inside the list, and a removal
/// carries the song to put back.
pub open spec fn backward_safe<T>(step: HistoryStep<T>, s: Seq<T>) -> bool {
    match step.action {
        InternalEditAction::ShiftBackward(i) => 1 <= i && i < s.len(),
        InternalEditAction::ShiftForward(i) => i + 1 < s.len(),
        InternalEditAction::Remove(_) => step.song is Some,
    }
}

/// The list after replaying the step.
pub open spec fn apply_forward<T>(step: HistoryStep<T>, s: Seq<T>) -> Seq<T> {
    match step.action {
        InternalEditAction::ShiftBackward(i) => swap_adjacent(s, i - 1),
        InternalEditAction::ShiftForward(i) => swap_adjacent(s, i as int),
        InternalEditAction::Remove(i) => if i < s.len() {
            s.remove(i as int)
        } else {
            s
        },
    }
}

/// The list after reverting the step.
pub open spec fn apply_backward<T>(step: HistoryStep<T>, s: Seq<T>) -> Seq<T> {
    match step.action {
        InternalEditAction::ShiftBackward(i) => swap_adjacent(s, i - 1),
        InternalEditAction::ShiftForward(i) => swap_adjacent(s, i as int),
        InternalEditAction::Remove(i) => if i <= s.len() {
            s.insert(i as int, step.song->0)
        } else {
            s
        },
    }
}

/// A step as an edit session records it on the list it was applied to: it
/// applies there, and a removal remembers the song it took out.
pub open spec fn step_recorded_on<T>(step: HistoryStep<T>, s: Seq<T>) -> bool {
    &&& forward_safe(step, s)
    &&& match step.action {
        InternalEditAction::Remove(i) => i < s.len() && step.song == Some(s[i as int]),
        _ => true,
    }
}

/// Exchanges the items at `src` and `src + 1`.
fn swap_in_place<T: Copy>(list: &mut Vec<T>, src: usize)
    requires
        src + 1 < old(list).len(),
    ensures
        final(list)@ == swap_adjacent(old(list)@, src as int),
{
    let a = list[src];
    let b = list[src + 1];
    list.set(src, b);
    list.set(src + 1, a);
}

impl<T: Copy> HistoryStep<T> {
    /// Applies the edit to the list.
    pub fn forward(&self, list: &mut Vec<T>)
        requires
            forward_safe(*self, old(list)@),
        ensures
            final(list)@ == apply_forward(*self, old(list)@),
    {
        match self.action {
            InternalEditAction::ShiftBackward(idx) => {
                swap_in_place(list, (idx - 1) as usize);
            },
            InternalEditAction::ShiftForward(idx) => {
                swap_in_place(list, idx as usize);
            },
            InternalEditAction::Remove(idx) => {
                if (idx as usize) < list.len() {
                    list.remove(idx as usize);
                }
            },
        }
    }

    /// Reverts the edit on the list.
    pub fn backward(&self, list: &mut Vec<T>)
        requires
            backward_safe(*self, old(list)@),
        ensures
            final(list)@ == apply_backward(*self, old(list)@),
    {
        match self.action {
            InternalEditAction::ShiftBackward(idx) => {
                swap_in_place(list, (idx - 1) as usize);
            },
            InternalEditAction::ShiftForward(idx) => {
                swap_in_place(list, idx as usize);
            },
            InternalEditAction::Remove(idx) => {
                if (idx as usize) <= list.len() {
                    match self.song {
                        Some(song) => list.insert(idx as usize, song),
                        None => {},
                    }
                }
            },
        }
    }
}

/// Reverting a step that was recorded on `s` right after replaying it gives
/// `s` back.
pub proof fn lemma_backward_undoes_forward<T>(step: HistoryStep<T>, s: Seq<T>)
    requires
        step_recorded_on(step, s),
    ensures
        backward_safe(step, apply_forward(step, s)),
        apply_backward(step, apply_forward(step, s)) == s,
{
    match step.action {
        InternalEditAction::Remove(i) => {
            assert(s.remove(i as int).insert(i as int, s[i as int]) =~= s);
        },
        InternalEditAction::ShiftBackward(i) => {
            assert(swap_adjacent(swap_adjacent(s, i - 1), i - 1) =~= s);
        },
        InternalEditAction::ShiftForward(i) => {
            assert(swap_adjacent(swap_adjacent(s, i as int), i as int) =~= s);
        },
    }
}

/// Replaying a step right after reverting it gives the list back.
pub proof fn lemma_forward_undoes_backward<T>(step: HistoryStep<T>, s: Seq<T>)
    requires
        backward_safe(step, s),
        step.action is Remove ==> step.action->Remove_0 <= s.len(),
    ensures
        forward_safe(step, apply_backward(step, s)),
        apply_forward(step, apply_backward(step, s)) == s,
{
    match step.action {
        InternalEditAction::Remove(i) => {
            assert(s.insert(i as int, step.song->0).remove(i as int) =~= s);
        },
        InternalEditAction::ShiftBackward(i) => {
            assert(swap_adjacent(swap_adjacent(s, i - 1), i - 1) =~= s);
        },
        InternalEditAction::ShiftForward(i) => {
            assert(swap_adjacent(swap_adjacent(s, i as int), i as int) =~= s);
        },
    }
}


/// The list obtained from `base` by replaying the first `k` steps.
pub open spec fn replay<T>(base: Seq<T>, steps: Seq<HistoryStep<T>>, k: nat) -> Seq<T>
    decreases k,
{
    if k == 0 {
        base
    } else {
        apply_forward(steps[k - 1], replay(base, steps, (k - 1) as nat))
    }
}

/// Every step was recorded on the list that the steps before it produced
/// from `base`.
pub open spec fn recorded_chain<T>(base: Seq<T>, steps: Seq<HistoryStep<T>>) -> bool {
    forall|k: nat|
        k < steps.len() ==> #[trigger] step_recorded_on(steps[k as int], replay(base, steps, k))
}

/// What an edit session holds: the list being edited, the recorded steps and
/// the cursor (how many of the steps are applied).
pub struct EditorState<T> {
    pub songs: Seq<T>,
    pub steps: Seq<HistoryStep<T>>,
    pub cursor: nat,
}

/// The session is what replaying the applied steps from `base` gives, and
/// every recorded step was recorded in order from `base`.
pub open spec fn consistent_from<T>(base: Seq<T>, st: EditorState<T>) -> bool {
    &&& st.cursor <= st.steps.len()
    &&& recorded_chain(base, st.steps)
    &&& st.songs == replay(base, st.steps, st.cursor)
}

/// Undo may run without touching a position outside the list.
pub open spec fn undo_safe<T>(st: EditorState<T>) -> bool {
    st.cursor > 0 ==> backward_safe(st.steps[st.cursor - 1], st.songs)
}

/// Redo may run without touching a position outside the list.
pub open spec fn redo_safe<T>(st: EditorState<T>) -> bool {
    st.cursor < st.steps.len() ==> forward_safe(st.steps[st.cursor as int], st.songs)
}

/// The session after an undo: the step before the cursor is reverted.
pub open spec fn undone<T>(st: EditorState<T>) -> EditorState<T> {
    if st.cursor > 0 {
        EditorState {
            songs: apply_backward(st.steps[st.cursor - 1], st.songs),
            steps: st.steps,
            cursor: (st.cursor - 1) as nat,
        }
    } else {
        st
    }
}

/// The session after a redo: the step at the cursor is replayed.
pub open spec fn redone<T>(st: EditorState<T>) -> EditorState<T> {
    if st.cursor < st.steps.len() {
        EditorState {
            songs: apply_forward(st.steps[st.cursor as int], st.songs),
            steps: st.steps,
            cursor: st.cursor + 1,
        }
    } else {
        st
    }
}

/// The session after recording a new step whose edit is already applied to
/// `songs`: the undone steps are dropped and the new one is appended.
pub open spec fn recorded<T>(st: EditorState<T>, step: HistoryStep<T>) -> Seq<HistoryStep<T>> {
    st.steps.subrange(0, st.cursor as int).push(step)
}

/// Replaying the first `k` steps depends on those steps only.
pub proof fn lemma_replay_prefix<T>(
    base: Seq<T>,
    a: Seq<HistoryStep<T>>,
    b: Seq<HistoryStep<T>>,
    k: nat,
)
    requires
        k <= a.len(),
        k <= b.len(),
        a.subrange(0, k as int) == b.subrange(0, k as int),
    ensures
        replay(base, a, k) == replay(base, b, k),
    decreases k,
{
    if k > 0 {
        assert(a[k - 1] == a.subrange(0, k as int)[k - 1]);
        assert(b[k - 1] == b.subrange(0, k as int)[k - 1]);
        assert(a.subrange(0, k - 1) =~= a.subrange(0, k as int).subrange(0, k - 1));
        assert(b.subrange(0, k - 1) =~= b.subrange(0, k as int).subrange(0, k - 1));
        lemma_replay_prefix(base, a, b, (k - 1) as nat);
    }
}

/// A consistent session can always undo and redo safely.
pub proof fn lemma_consistent_is_safe<T>(base: Seq<T>, st: EditorState<T>)
    requires
        consistent_from(base, st),
    ensures
        undo_safe(st),
        redo_safe(st),
{
    if st.cursor > 0 {
        let k = (st.cursor - 1) as nat;
        assert(step_recorded_on(st.steps[k as int], replay(base, st.steps, k)));
        lemma_backward_undoes_forward(st.steps[k as int], replay(base, st.steps, k));
    }
    if st.cursor < st.steps.len() {
        assert(step_recorded_on(st.steps[st.cursor as int], replay(base, st.steps, st.cursor)));
    }
}

/// Undo and redo keep a session consistent.
pub proof fn lemma_undo_redo_keep_consistent<T>(base: Seq<T>, st: EditorState<T>)
    requires
        consistent_from(base, st),
    ensures
        consistent_from(base, undone(st)),
        consistent_from(base, redone(st)),
{
    if st.cursor > 0 {
        let k = (st.cursor - 1) as nat;
        assert(step_recorded_on(st.steps[k as int], replay(base, st.steps, k)));
        lemma_backward_undoes_forward(st.steps[k as int], replay(base, st.steps, k));
    }
}

/// Redo right after undo gives the session back.
pub proof fn lemma_redo_after_undo<T>(st: EditorState<T>)
    requires
        st.cursor > 0,
        st.cursor <= st.steps.len(),
        undo_safe(st),
        st.steps[st.cursor - 1].action is Remove ==> st.steps[st.cursor - 1].action->Remove_0
            <= st.songs.len(),
    ensures
        redone(undone(st)) == st,
{
    lemma_forward_undoes_backward(st.steps[st.cursor - 1], st.songs);
}

/// In a consistent session with a step to redo, undo right after redo gives
/// the session back.
pub proof fn lemma_undo_after_redo<T>(base: Seq<T>, st: EditorState<T>)
    requires
        consistent_from(base, st),
        st.cursor < st.steps.len(),
    ensures
        undone(redone(st)) == st,
{
    assert(step_recorded_on(st.steps[st.cursor as int], replay(base, st.steps, st.cursor)));
    lemma_backward_undoes_forward(st.steps[st.cursor as int], st.songs);
}

/// Recording a step on the current list of a consistent session keeps it
/// consistent.
pub proof fn lemma_record_keeps_consistent<T>(
    base: Seq<T>,
    st: EditorState<T>,
    step: HistoryStep<T>,
)
    requires
        consistent_from(base, st),
        step_recorded_on(step, st.songs),
    ensures
        consistent_from(
            base,
            EditorState {
                songs: apply_forward(step, st.songs),
                steps: recorded(st, step),
                cursor: st.cursor + 1,
            },
        ),
{
    let steps2 = recorded(st, step);
    assert(steps2.subrange(0, st.cursor as int) =~= st.steps.subrange(0, st.cursor as int));
    assert forall|k: nat| k < steps2.len() implies #[trigger] step_recorded_on(
        steps2[k as int],
        replay(base, steps2, k),
    ) by {
        assert(steps2.subrange(0, k as int) =~= st.steps.subrange(0, k as int));
        lemma_replay_prefix(base, steps2, st.steps, k);
        if k < st.cursor {
            assert(step_recorded_on(st.steps[k as int], replay(base, st.steps, k)));
        }
    }
    lemma_replay_prefix(base, steps2, st.steps, st.cursor);
}


/// The editing side of a playlist's content view: the song list being edited
/// and its undo history.
pub struct PlaylistContentView<T> {
    songs: Vec<T>,
    history: Vec<HistoryStep<T>>,
    history_idx: usize,
    base: Ghost<Seq<T>>,
}

impl<T> View for PlaylistContentView<T> {
    type V = EditorState<T>;

    closed spec fn view(&self) -> EditorState<T> {
        EditorState { songs: self.songs@, steps: self.history@, cursor: self.history_idx as nat }
    }
}

impl<T: Copy> PlaylistContentView<T> {
    /// The history replays from the list that the session started from.
    pub closed spec fn consistent(&self) -> bool {
        consistent_from(self.base@, self@)
    }

    /// The list that the recorded history starts from.
    pub closed spec fn origin(&self) -> Seq<T> {
        self.base@
    }

    /// The cursor lies within the history.
    pub open spec fn wf(&self) -> bool {
        self@.cursor <= self@.steps.len()
    }

    /// An empty session: no songs and no history.
    pub fn new() -> (res: Self)
        ensures
            res@.songs == Seq::<T>::empty(),
            res@.steps == Seq::<HistoryStep<T>>::empty(),
            res@.cursor == 0,
            res.consistent(),
    {
        PlaylistContentView {
            songs: Vec::new(),
            history: Vec::new(),
            history_idx: 0,
            base: Ghost(Seq::empty()),
        }
    }

    /// The list being edited.
    pub fn songs(&self) -> (res: &Vec<T>)
        ensures
            res@ == self@.songs,
    {
        &self.songs
    }

    /// The number of recorded steps.
    pub fn history_len(&self) -> (res: usize)
        ensures
            res == self@.steps.len(),
    {
        self.history.len()
    }

    /// The number of applied steps.
    pub fn history_idx(&self) -> (res: usize)
        ensures
            res == self@.cursor,
    {
        self.history_idx
    }

    /// Whether undo and redo have anything to do: `(undo, redo)`.
    pub fn update_undo_redo_sensitivity(&self) -> (res: (bool, bool))
        ensures
            res.0 == (self@.cursor > 0),
            res.1 == (self@.cursor < self@.steps.len()),
    {
        (self.history_idx > 0, self.history_idx < self.history.len())
    }

    /// Starts editing a copy of the playlist's songs. The history is kept as it
    /// stands, so a session that was left without applying still has its
    /// steps.
    pub fn enter_edit_mode(&mut self, songs: Vec<T>)
        ensures
            final(self)@.songs == songs@,
            final(self)@.steps == old(self)@.steps,
            final(self)@.cursor == old(self)@.cursor,
            old(self)@.steps.len() == 0 && old(self)@.cursor == 0 ==> final(self).consistent(),
    {
        self.songs = songs;
        self.base = Ghost(songs@);
    }

    /// Leaves the session. When applying after at least one applied step, the
    /// edited list is returned to be written over the playlist; applying also
    /// forgets the history. Leaving without applying keeps everything.
    pub fn exit_edit_mode(&mut self, apply: bool) -> (res: Option<Vec<T>>)
        ensures
            apply && old(self)@.cursor > 0 ==> res is Some && res->0@ == old(self)@.songs,
            !(apply && old(self)@.cursor > 0) ==> res is None,
            apply ==> final(self)@.songs == old(self)@.songs
                && final(self)@.steps == Seq::<HistoryStep<T>>::empty()
                && final(self)@.cursor == 0
                && final(self).consistent(),
            !apply ==> final(self)@ == old(self)@,
    {
        if apply {
            let mut out: Option<Vec<T>> = None;
            if self.history_idx > 0 {
                let mut list: Vec<T> = Vec::new();
                let mut i: usize = 0;
                while i < self.songs.len()
                    invariant
                        i <= self.songs.len(),
                        list@ == self.songs@.subrange(0, i as int),
                    decreases self.songs.len() - i,
                {
                    list.push(self.songs[i]);
                    i = i + 1;
                }
                assert(list@ =~= self.songs@);
                out = Some(list);
                self.history_idx = 0;
            }
            self.history.clear();
            self.base = Ghost(self.songs@);
            out
        } else {
            None
        }
    }

    /// Reverts the step before the cursor, if any.
    pub fn undo(&mut self)
        requires
            old(self).wf(),
            undo_safe(old(self)@),
        ensures
            final(self)@ == undone(old(self)@),
            final(self).wf(),
            old(self).consistent() ==> final(self).consistent(),
    {
        let curr_idx = self.history_idx;
        if curr_idx > 0 {
            let step = &self.history[curr_idx - 1];
            step.backward(&mut self.songs);
            self.history_idx = curr_idx - 1;
        }
        proof {
            if old(self).consistent() {
                lemma_undo_redo_keep_consistent(self.base@, old(self)@);
            }
        }
    }

    /// Replays the step at the cursor, if any.
    pub fn redo(&mut self)
        requires
            old(self).wf(),
            redo_safe(old(self)@),
        ensures
            final(self)@ == redone(old(self)@),
            final(self).wf(),
            old(self).consistent() ==> final(self).consistent(),
    {
        let curr_idx = self.history_idx;
        if curr_idx < self.history.len() {
            let step = &self.history[curr_idx];
            step.forward(&mut self.songs);
            self.history_idx = curr_idx + 1;
        }
        proof {
            if old(self).consistent() {
                lemma_undo_redo_keep_consistent(self.base@, old(self)@);
            }
        }
    }

    /// Records a step whose edit has just been applied: the undone steps are
    /// dropped, the step is appended and the cursor moves past it.
    pub fn push_history(&mut self, step: HistoryStep<T>)
        requires
            old(self).wf(),
        ensures
            final(self)@.songs == old(self)@.songs,
            final(self)@.steps == recorded(old(self)@, step),
            final(self)@.cursor == final(self)@.steps.len(),
            final(self).origin() == old(self).origin(),
    {
        let curr_idx = self.history_idx;
        let hist_len = self.history.len();
        if curr_idx < hist_len {
            self.history.truncate(curr_idx);
        }
        proof {
            assert(self.history@ =~= old(self)@.steps.subrange(0, curr_idx as int));
        }
        self.history.push(step);
        self.history_idx = self.history.len();
    }

    /// Applies a step to the list and records it.
    fn apply_and_record(&mut self, step: HistoryStep<T>)
        requires
            old(self).wf(),
            step_recorded_on(step, old(self)@.songs),
        ensures
            final(self)@.songs == apply_forward(step, old(self)@.songs),
            final(self)@.steps == recorded(old(self)@, step),
            final(self)@.cursor == old(self)@.cursor + 1,
            final(self).wf(),
            old(self).consistent() ==> final(self).consistent(),
    {
        let ghost before = self@;
        step.forward(&mut self.songs);
        self.push_history(step);
        proof {
            if old(self).consistent() {
                lemma_record_keeps_consistent(old(self).base@, before, step);
            }
        }
    }

    /// Moves the song at `idx` one place up; nothing happens at the top.
    pub fn shift_backward(&mut self, idx: u32)
        requires
            old(self).wf(),
            idx == 0 || idx < old(self)@.songs.len(),
        ensures
            idx == 0 ==> final(self)@ == old(self)@,
            idx > 0 ==> final(self)@.songs == swap_adjacent(old(self)@.songs, idx - 1)
                && final(self)@.steps == recorded(
                    old(self)@,
                    HistoryStep { action: InternalEditAction::ShiftBackward(idx), song: None },
                ) && final(self)@.cursor == old(self)@.cursor + 1,
            final(self).wf(),
            old(self).consistent() ==> final(self).consistent(),
    {
        if idx > 0 {
            let step = HistoryStep { action: InternalEditAction::ShiftBackward(idx), song: None };
            self.apply_and_record(step);
        }
    }

    /// Moves the song at `idx` one place down; nothing happens at the bottom
    /// or past the end.
    pub fn shift_forward(&mut self, idx: u32)
        requires
            old(self).wf(),
        ensures
            !(idx + 1 < old(self)@.songs.len()) ==> final(self)@ == old(self)@,
            idx + 1 < old(self)@.songs.len() ==> final(self)@.songs == swap_adjacent(
                old(self)@.songs,
                idx as int,
            ) && final(self)@.steps == recorded(
                old(self)@,
                HistoryStep { action: InternalEditAction::ShiftForward(idx), song: None },
            ) && final(self)@.cursor == old(self)@.cursor + 1,
            final(self).wf(),
            old(self).consistent() ==> final(self).consistent(),
    {
        let len = self.songs.len();
        if len > 1 && (idx as usize) < len - 1 {
            let step = HistoryStep { action: InternalEditAction::ShiftForward(idx), song: None };
            self.apply_and_record(step);
        }
    }

    /// Takes the song at `idx` out of the list, remembering it for undo.
    pub fn remove(&mut self, idx: u32)
        requires
            old(self).wf(),
            idx < old(self)@.songs.len(),
        ensures
            final(self)@.songs == old(self)@.songs.remove(idx as int),
            final(self)@.steps == recorded(
                old(self)@,
                HistoryStep {
                    action: InternalEditAction::Remove(idx),
                    song: Some(old(self)@.songs[idx as int]),
                },
            ),
            final(self)@.cursor == old(self)@.cursor + 1,
            final(self).wf(),
            old(self).consistent() ==> final(self).consistent(),
    {
        let song = self.songs[idx as usize];
        let step = HistoryStep { action: InternalEditAction::Remove(idx), song: Some(song) };
        self.apply_and_record(step);
    }

    /// A consistent session can always undo and redo.
    pub proof fn lemma_consistent_session_is_safe(&self)
        requires
            self.consistent(),
        ensures
            self.wf(),
            undo_safe(self@),
            redo_safe(self@),
    {
        lemma_consistent_is_safe(self.base@, self@);
    }

    /// In a consistent session with a step to redo, undo right after redo
    /// restores the session.
    pub proof fn lemma_session_undo_after_redo(&self)
        requires
            self.consistent(),
            self@.cursor < self@.steps.len(),
        ensures
            undone(redone(self@)) == self@,
    {
        lemma_undo_after_redo(self.base@, self@);
    }
}

} // verus!
