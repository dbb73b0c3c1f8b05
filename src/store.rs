use vstd::prelude::*;

use crate::snapshot::{GamepadSnapshot, zeroed_snapshot};

verus! {

/// The holder of the most recently observed snapshot. Each write replaces the
/// whole value; no history is kept.
pub struct StateStore {
    current: GamepadSnapshot,
}

impl View for StateStore {
    type V = GamepadSnapshot;

    closed spec fn view(&self) -> GamepadSnapshot {
        self.current
    }
}

/// What the store holds after one intercepted call whose output buffer was
/// `output` (`None` for a null buffer).
pub open spec fn after_call(current: GamepadSnapshot, output: Option<GamepadSnapshot>) -> GamepadSnapshot {
    match output {
        Some(s) => s,
        None => current,
    }
}

/// What a store that started at `init` holds after the intercepted calls
/// `calls`, in the order in which they took the lock.
pub open spec fn replay(init: GamepadSnapshot, calls: Seq<Option<GamepadSnapshot>>) -> GamepadSnapshot
    decreases calls.len(),
{
    if calls.len() == 0 {
        init
    } else {
        after_call(replay(init, calls.drop_last()), calls.last())
    }
}

impl StateStore {
    /// A store holding the all-zero snapshot.
    pub fn new() -> (r: StateStore)
        ensures
            r@ == zeroed_snapshot(),
    {
        StateStore { current: GamepadSnapshot::zeroed() }
    }

    /// Replaces the stored snapshot by `snapshot`.
    pub fn write(&mut self, snapshot: GamepadSnapshot)
        ensures
            final(self)@ == snapshot,
    {
        self.current = snapshot;
    }

    /// A copy of the stored snapshot.
    pub fn read(&self) -> (r: GamepadSnapshot)
        ensures
            r == self@,
    {
        self.current
    }

    /// Records the outcome of one intercepted call: the real function returned
    /// `code` and, where its output buffer was not null, wrote `output` there.
    /// The code goes back to the host unchanged.
    pub fn capture(&mut self, code: u32, output: Option<GamepadSnapshot>) -> (r: u32)
        ensures
            r == code,
            final(self)@ == after_call(old(self)@, output),
    {
        if let Some(s) = output {
            self.write(s);
        }
        code
    }
}

/// Whatever order the intercepted calls take the lock in, the store holds
/// either its initial snapshot or one snapshot that some call wrote in full.
pub proof fn lemma_stored_value_was_written(init: GamepadSnapshot, calls: Seq<Option<GamepadSnapshot>>)
    ensures
        replay(init, calls) == init
            || exists|i: int| 0 <= i < calls.len() && calls[i] == Some(replay(init, calls)),
    decreases calls.len(),
{
    if calls.len() > 0 {
        let prev = calls.drop_last();
        lemma_stored_value_was_written(init, prev);
        if calls.last() is None {
            if replay(init, prev) != init {
                let i = choose|i: int| 0 <= i < prev.len() && prev[i] == Some(replay(init, prev));
                assert(calls[i] == prev[i]);
            }
        } else {
            assert(calls[calls.len() - 1] == calls.last());
        }
    }
}

/// While no intercepted call hands over an output buffer (for instance because
/// no hook was ever installed), the store keeps its initial snapshot.
pub proof fn lemma_untouched_without_output(init: GamepadSnapshot, calls: Seq<Option<GamepadSnapshot>>)
    requires
        forall|i: int| 0 <= i < calls.len() ==> calls[i] is None,
    ensures
        replay(init, calls) == init,
    decreases calls.len(),
{
    if calls.len() > 0 {
        let prev = calls.drop_last();
        assert forall|i: int| 0 <= i < prev.len() implies prev[i] is None by {
            assert(prev[i] == calls[i]);
        }
        lemma_untouched_without_output(init, prev);
        assert(calls[calls.len() - 1] == calls.last());
    }
}

/// Running the calls `calls` one by one through `capture` leaves the store
/// holding `replay` of them.
pub fn capture_all(store: &mut StateStore, calls: &Vec<Option<GamepadSnapshot>>)
    ensures
        final(store)@ == replay(old(store)@, calls@),
{
    let ghost init = store@;
    let mut i: usize = 0;
    while i < calls.len()
        invariant
            i <= calls@.len(),
            store@ == replay(init, calls@.subrange(0, i as int)),
        decreases calls@.len() - i,
    {
        let ghost before = calls@.subrange(0, i as int);
        store.capture(0, calls[i]);
        assert(calls@.subrange(0, i + 1 as int).drop_last() == before);
        i = i + 1;
    }
    assert(calls@.subrange(0, calls@.len() as int) == calls@);
}

} // verus!
