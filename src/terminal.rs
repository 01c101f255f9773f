//! The terminal's acquire and restore discipline: which setup steps were
//! taken, and the one restoration that undoes them in reverse order.

use vstd::prelude::*;

verus! {

/// A setup step that takes over the terminal.
#[derive(Debug, Clone, Copy, PartialEq, Eq, Structural)]
pub enum TermStep {
    RawMode,
    AlternateScreen,
    MouseCapture,
}

/// A step of giving the terminal back.
#[derive(Debug, Clone, Copy, PartialEq, Eq, Structural)]
pub enum RestoreStep {
    DisableMouseCapture,
    LeaveAlternateScreen,
    DisableRawMode,
    ShowCursor,
}

/// The setup steps in the order they are taken.
pub open spec fn acquire_order_spec() -> Seq<TermStep> {
    seq![TermStep::RawMode, TermStep::AlternateScreen, TermStep::MouseCapture]
}

/// The step that undoes a setup step.
pub open spec fn undo(step: TermStep) -> RestoreStep {
    match step {
        TermStep::RawMode => RestoreStep::DisableRawMode,
        TermStep::AlternateScreen => RestoreStep::LeaveAlternateScreen,
        TermStep::MouseCapture => RestoreStep::DisableMouseCapture,
    }
}

/// The restoration of the steps `acquired`: each undone, the last taken
/// first, then the cursor shown again.
pub open spec fn restore_plan_spec(acquired: Seq<TermStep>) -> Seq<RestoreStep>
    decreases acquired.len(),
{
    if acquired.len() == 0 {
        seq![RestoreStep::ShowCursor]
    } else {
        seq![undo(acquired.last())] + restore_plan_spec(acquired.drop_last())
    }
}

/// What a session knows: the setup steps taken, in order, and whether the
/// terminal was already given back.
pub struct SessionModel {
    pub acquired: Seq<TermStep>,
    pub restored: bool,
}

/// A session after one request to restore, and the steps that request
/// performs: the full restoration the first time, nothing afterwards.
pub open spec fn restore_spec(s: SessionModel) -> (SessionModel, Seq<RestoreStep>) {
    if s.restored {
        (s, Seq::empty())
    } else {
        (SessionModel { acquired: s.acquired, restored: true }, restore_plan_spec(s.acquired))
    }
}

/// The steps performed by `n` requests to restore in a row.
pub open spec fn restore_calls(s: SessionModel, n: nat) -> Seq<Seq<RestoreStep>>
    decreases n,
{
    if n == 0 {
        Seq::empty()
    } else {
        seq![restore_spec(s).1] + restore_calls(restore_spec(s).0, (n - 1) as nat)
    }
}

/// The record of one run's hold on the terminal. Every exit path asks it
/// for the restoration; only the first request gets the steps.
#[derive(Debug)]
pub struct TerminalSession {
    acquired: Vec<TermStep>,
    restored: bool,
}

impl View for TerminalSession {
    type V = SessionModel;

    closed spec fn view(&self) -> SessionModel {
        SessionModel { acquired: self.acquired@, restored: self.restored }
    }
}

/// The setup steps in the order they are taken.
pub fn acquire_order() -> (r: Vec<TermStep>)
    ensures
        r@ == acquire_order_spec(),
{
    let r = vec![TermStep::RawMode, TermStep::AlternateScreen, TermStep::MouseCapture];
    assert(r@ =~= acquire_order_spec());
    r
}

impl TerminalSession {
    /// Nothing taken over yet.
    pub fn new() -> (r: TerminalSession)
        ensures
            r@.acquired == Seq::<TermStep>::empty(),
            !r@.restored,
    {
        TerminalSession { acquired: Vec::new(), restored: false }
    }

    /// Notes that `step` succeeded.
    pub fn record(&mut self, step: TermStep)
        ensures
            final(self)@.acquired == old(self)@.acquired.push(step),
            final(self)@.restored == old(self)@.restored,
    {
        self.acquired.push(step);
    }

    /// Whether the terminal was already given back.
    pub fn is_restored(&self) -> (r: bool)
        ensures
            r == self@.restored,
    {
        self.restored
    }

    /// The steps to give the terminal back: on the first request, every
    /// recorded step undone in reverse order and then the cursor shown; on
    /// every later request, none.
    pub fn restore(&mut self) -> (r: Vec<RestoreStep>)
        ensures
            final(self)@ == restore_spec(old(self)@).0,
            r@ == restore_spec(old(self)@).1,
    {
        if self.restored {
            return Vec::new();
        }
        self.restored = true;
        let mut r: Vec<RestoreStep> = Vec::new();
        let mut i: usize = self.acquired.len();
        assert(self.acquired@.subrange(0, i as int) =~= self.acquired@);
        assert(r@ + restore_plan_spec(self.acquired@) =~= restore_plan_spec(self.acquired@));
        while i > 0
            invariant
                i <= self.acquired@.len(),
                self.restored,
                restore_plan_spec(self.acquired@) == r@ + restore_plan_spec(
                    self.acquired@.subrange(0, i as int),
                ),
            decreases i,
        {
            let step = self.acquired[i - 1];
            let u = match step {
                TermStep::RawMode => RestoreStep::DisableRawMode,
                TermStep::AlternateScreen => RestoreStep::LeaveAlternateScreen,
                TermStep::MouseCapture => RestoreStep::DisableMouseCapture,
            };
            let ghost prefix = self.acquired@.subrange(0, i as int);
            assert(prefix.drop_last() == self.acquired@.subrange(0, i - 1));
            r.push(u);
            assert(restore_plan_spec(self.acquired@) == r@ + restore_plan_spec(
                self.acquired@.subrange(0, i - 1),
            ));
            i = i - 1;
        }
        r.push(RestoreStep::ShowCursor);
        assert(r@ =~= restore_plan_spec(self.acquired@));
        r
    }
}

/// The terminal is given back exactly once per run, whichever way the run
/// ends: for any steps taken so far (all of them, or a prefix when setup
/// failed half-way), the first of any number of restore requests undoes
/// them all in reverse order and shows the cursor, and every later request
/// does nothing.
pub proof fn lemma_restore_exactly_once(s: SessionModel, n: nat)
    requires
        !s.restored,
        n >= 1,
    ensures
        restore_calls(s, n).len() == n,
        restore_calls(s, n)[0] == restore_plan_spec(s.acquired),
        forall|i: int| 1 <= i < n ==> (#[trigger] restore_calls(s, n)[i]).len() == 0,
{
    let s1 = restore_spec(s).0;
    lemma_restored_stays_quiet(s1, (n - 1) as nat);
}

/// Once restored, any number of further requests perform no step.
pub proof fn lemma_restored_stays_quiet(s: SessionModel, n: nat)
    requires
        s.restored,
    ensures
        restore_calls(s, n).len() == n,
        forall|i: int| 0 <= i < n ==> (#[trigger] restore_calls(s, n)[i]).len() == 0,
    decreases n,
{
    if n > 0 {
        lemma_restored_stays_quiet(s, (n - 1) as nat);
        assert forall|i: int| 0 <= i < n implies (#[trigger] restore_calls(s, n)[i]).len() == 0 by {
            if i > 0 {
                assert(restore_calls(s, n)[i] == restore_calls(s, (n - 1) as nat)[i - 1]);
            }
        }
    }
}

/// A full setup restores in the reverse of the order it was taken: mouse
/// capture off, alternate screen left, raw mode off, cursor shown.
pub proof fn lemma_full_restore_order()
    ensures
        restore_plan_spec(acquire_order_spec()) == seq![
            RestoreStep::DisableMouseCapture,
            RestoreStep::LeaveAlternateScreen,
            RestoreStep::DisableRawMode,
            RestoreStep::ShowCursor,
        ],
{
    reveal_with_fuel(restore_plan_spec, 4);
    assert(acquire_order_spec().drop_last() =~= seq![TermStep::RawMode, TermStep::AlternateScreen]);
    assert(acquire_order_spec().drop_last().drop_last() =~= seq![TermStep::RawMode]);
    assert(acquire_order_spec().drop_last().drop_last().drop_last() =~= Seq::<TermStep>::empty());
    assert(restore_plan_spec(acquire_order_spec()) =~= seq![
        RestoreStep::DisableMouseCapture,
        RestoreStep::LeaveAlternateScreen,
        RestoreStep::DisableRawMode,
        RestoreStep::ShowCursor,
    ]);
}

} // verus!
