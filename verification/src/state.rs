//! Application state and the transitions the event loop applies to it.

use vstd::prelude::*;

verus! {

use vstd::arithmetic::div_mod::{
    lemma_add_mod_noop_right,
    lemma_fundamental_div_mod,
    lemma_mod_multiples_vanish,
    lemma_mod_pos_bound,
};

/// Number of navigation tabs in the dashboard sidebar.
pub const TAB_COUNT: usize = 6;

/// Payload shown on the home tab once the background fetch has succeeded.
#[derive(Debug)]
pub struct Announcement {
    pub title: String,
    pub content: String,
    pub tips: Vec<String>,
}

/// The single message the background fetcher delivers over the channel.
#[derive(Debug)]
pub enum FetchOutcome {
    Loaded(Announcement),
    Failed(String),
}

/// Press/release classification of a key event, as the input backend
/// reports it. Only presses drive transitions.
#[derive(Clone, Copy, PartialEq, Eq, Structural, Debug)]
pub enum KeyKind {
    Press,
    Release,
    Repeat,
}

/// Symbolic key codes the event loop interprets; everything outside the
/// mapped set arrives as `Other`.
#[derive(Clone, Copy, PartialEq, Eq, Structural, Debug)]
pub enum KeyCode {
    Quit,
    NextTab,
    PrevTab,
    Other,
}

/// A discrete key event.
#[derive(Clone, Copy, PartialEq, Eq, Structural, Debug)]
pub struct KeyEvent {
    pub kind: KeyKind,
    pub code: KeyCode,
}

/// Everything the event loop can observe during one tick: a key event from
/// the input backend or a message drained from the channel.
#[derive(Debug)]
pub enum LoopEvent {
    Key(KeyEvent),
    Message(FetchOutcome),
}

/// Mutable snapshot of what the UI shows; owned and mutated solely by the
/// event loop.
#[derive(Debug)]
pub struct AppState {
    pub should_quit: bool,
    pub selected_tab: usize,
    pub home_data: Option<Announcement>,
}

/// The tab index that follows `t`, wrapping past the last tab.
pub open spec fn spec_next_tab(t: int) -> int {
    (t + 1) % (TAB_COUNT as int)
}

/// The tab index that precedes `t`, wrapping past the first tab.
pub open spec fn spec_prev_tab(t: int) -> int {
    (t + (TAB_COUNT as int) - 1) % (TAB_COUNT as int)
}

/// Effect of one key event on the state: only presses of the mapped keys
/// change anything.
pub open spec fn key_step(s: AppState, ev: KeyEvent) -> AppState {
    if ev.kind is Press {
        match ev.code {
            KeyCode::Quit => AppState { should_quit: true, ..s },
            KeyCode::NextTab => AppState {
                selected_tab: spec_next_tab(s.selected_tab as int) as usize,
                ..s
            },
            KeyCode::PrevTab => AppState {
                selected_tab: spec_prev_tab(s.selected_tab as int) as usize,
                ..s
            },
            KeyCode::Other => s,
        }
    } else {
        s
    }
}

/// Effect of one drained channel message: a successful fetch fills
/// `home_data` when it is still empty; a failure changes nothing.
pub open spec fn message_step(s: AppState, m: FetchOutcome) -> AppState {
    match m {
        FetchOutcome::Loaded(a) => {
            if s.home_data is None {
                AppState { home_data: Some(a), ..s }
            } else {
                s
            }
        },
        FetchOutcome::Failed(_) => s,
    }
}

/// Effect of one observed event.
pub open spec fn step(s: AppState, e: LoopEvent) -> AppState {
    match e {
        LoopEvent::Key(k) => key_step(s, k),
        LoopEvent::Message(m) => message_step(s, m),
    }
}

/// State reached after a whole sequence of events, applied in order.
pub open spec fn run(s: AppState, es: Seq<LoopEvent>) -> AppState
    decreases es.len(),
{
    if es.len() == 0 {
        s
    } else {
        run(step(s, es[0]), es.drop_first())
    }
}

/// State reached after draining a queue of channel messages, oldest first.
pub open spec fn run_messages(s: AppState, ms: Seq<FetchOutcome>) -> AppState
    decreases ms.len(),
{
    if ms.len() == 0 {
        s
    } else {
        run_messages(message_step(s, ms[0]), ms.drop_first())
    }
}

impl AppState {
    /// The selected tab is always a valid index.
    pub open spec fn wf(self) -> bool {
        self.selected_tab < TAB_COUNT
    }

    /// Fresh state at runtime start: running, first tab selected, nothing
    /// fetched yet.
    pub fn new() -> (s: Self)
        ensures
            s.wf(),
            !s.should_quit,
            s.selected_tab == 0,
            s.home_data is None,
    {
        AppState { should_quit: false, selected_tab: 0, home_data: None }
    }

    /// Apply one key event: quit key sets the termination flag, next/previous
    /// keys move the tab selection cyclically, anything else is a no-op.
    pub fn handle_key(&mut self, ev: KeyEvent)
        requires
            old(self).wf(),
        ensures
            final(self).wf(),
            *final(self) == key_step(*old(self), ev),
    {
        match (ev.kind, ev.code) {
            (KeyKind::Press, KeyCode::Quit) => {
                self.should_quit = true;
            },
            (KeyKind::Press, KeyCode::NextTab) => {
                self.selected_tab = if self.selected_tab + 1 < TAB_COUNT {
                    self.selected_tab + 1
                } else {
                    0
                };
            },
            (KeyKind::Press, KeyCode::PrevTab) => {
                self.selected_tab = if self.selected_tab == 0 {
                    TAB_COUNT - 1
                } else {
                    self.selected_tab - 1
                };
            },
            _ => {},
        }
    }

    /// Apply one drained channel message.
    pub fn apply_message(&mut self, m: FetchOutcome)
        requires
            old(self).wf(),
        ensures
            final(self).wf(),
            *final(self) == message_step(*old(self), m),
    {
        match m {
            FetchOutcome::Loaded(a) => {
                if self.home_data.is_none() {
                    self.home_data = Some(a);
                }
            },
            FetchOutcome::Failed(_) => {},
        }
    }

    /// Drain the messages currently queued on the channel, oldest first.
    /// The drain is bounded by what was handed in: it never waits.
    pub fn drain_messages(&mut self, msgs: Vec<FetchOutcome>)
        requires
            old(self).wf(),
        ensures
            final(self).wf(),
            *final(self) == run_messages(*old(self), msgs@),
    {
        let mut q = msgs;
        while q.len() > 0
            invariant
                self.wf(),
                run_messages(*old(self), msgs@) == run_messages(*self, q@),
            decreases q.len(),
        {
            let ghost q0 = q@;
            let m = q.remove(0);
            proof {
                assert(q@ =~= q0.drop_first());
            }
            self.apply_message(m);
        }
    }
}

/// A press of the key that advances the tab selection.
pub open spec fn next_press() -> KeyEvent {
    KeyEvent { kind: KeyKind::Press, code: KeyCode::NextTab }
}

/// A press of the key that moves the tab selection back.
pub open spec fn prev_press() -> KeyEvent {
    KeyEvent { kind: KeyKind::Press, code: KeyCode::PrevTab }
}

/// Whether an observed event is a press of the quit key.
pub open spec fn is_quit_press(e: LoopEvent) -> bool {
    match e {
        LoopEvent::Key(k) => k.kind is Press && k.code is Quit,
        LoopEvent::Message(_) => false,
    }
}

/// `n` repetitions of the same key event.
pub open spec fn repeat_key(ev: KeyEvent, n: nat) -> Seq<LoopEvent>
    decreases n,
{
    if n == 0 {
        Seq::empty()
    } else {
        seq![LoopEvent::Key(ev)] + repeat_key(ev, (n - 1) as nat)
    }
}

/// Law: every transition keeps the selected tab a valid index.
pub proof fn lemma_step_wf(s: AppState, e: LoopEvent)
    requires
        s.wf(),
    ensures
        step(s, e).wf(),
{
    lemma_mod_pos_bound(s.selected_tab + 1, TAB_COUNT as int);
    lemma_mod_pos_bound(s.selected_tab + (TAB_COUNT as int) - 1, TAB_COUNT as int);
}

/// Law: the well-formedness invariant holds across any event sequence.
pub proof fn lemma_run_wf(s: AppState, es: Seq<LoopEvent>)
    requires
        s.wf(),
    ensures
        run(s, es).wf(),
    decreases es.len(),
{
    if es.len() > 0 {
        lemma_step_wf(s, es[0]);
        lemma_run_wf(step(s, es[0]), es.drop_first());
    }
}

/// Law: `n` presses of the next key advance the selected tab by `n`,
/// modulo the tab count.
pub proof fn lemma_next_key_rotation(s: AppState, n: nat)
    requires
        s.wf(),
    ensures
        run(s, repeat_key(next_press(), n)).selected_tab == (s.selected_tab + n as int) % (
        TAB_COUNT as int),
    decreases n,
{
    let m = TAB_COUNT as int;
    if n == 0 {
        lemma_mod_pos_bound(s.selected_tab as int, m);
        assert((s.selected_tab as int) % m == s.selected_tab as int);
    } else {
        let es = repeat_key(next_press(), n);
        let rest = repeat_key(next_press(), (n - 1) as nat);
        assert(es[0] == LoopEvent::Key(next_press()));
        assert(es.drop_first() =~= rest);
        let s1 = step(s, es[0]);
        lemma_mod_pos_bound(s.selected_tab + 1, m);
        assert(s1.selected_tab == (s.selected_tab + 1) % m);
        lemma_next_key_rotation(s1, (n - 1) as nat);
        lemma_add_mod_noop_right(n as int - 1, s.selected_tab + 1, m);
        assert((n as int - 1 + (s.selected_tab + 1) % m) % m == (n as int - 1 + (s.selected_tab + 1)) % m);
        assert(run(s, es).selected_tab == (s.selected_tab + n as int) % m);
    }
}

/// Law: from the first tab, `n` presses of the next key land on
/// `n mod TAB_COUNT`.
pub proof fn lemma_next_key_from_start(s: AppState, n: nat)
    requires
        s.wf(),
        s.selected_tab == 0,
    ensures
        run(s, repeat_key(next_press(), n)).selected_tab == (n as int) % (TAB_COUNT as int),
{
    lemma_next_key_rotation(s, n);
}

/// Law: `n` presses of the previous key move the selected tab back by `n`,
/// modulo the tab count.
pub proof fn lemma_prev_key_rotation(s: AppState, n: nat)
    requires
        s.wf(),
    ensures
        run(s, repeat_key(prev_press(), n)).selected_tab == (s.selected_tab + ((TAB_COUNT as int)
            - 1) * (n as int)) % (TAB_COUNT as int),
    decreases n,
{
    let m = TAB_COUNT as int;
    if n == 0 {
        lemma_mod_pos_bound(s.selected_tab as int, m);
        assert((s.selected_tab as int) % m == s.selected_tab as int);
    } else {
        let es = repeat_key(prev_press(), n);
        let rest = repeat_key(prev_press(), (n - 1) as nat);
        assert(es[0] == LoopEvent::Key(prev_press()));
        assert(es.drop_first() =~= rest);
        let s1 = step(s, es[0]);
        lemma_mod_pos_bound(s.selected_tab + m - 1, m);
        assert(s1.selected_tab == (s.selected_tab + m - 1) % m);
        lemma_prev_key_rotation(s1, (n - 1) as nat);
        lemma_add_mod_noop_right((m - 1) * (n as int - 1), s.selected_tab + m - 1, m);
        assert(((m - 1) * (n as int - 1) + (s.selected_tab + m - 1) % m) % m == ((m - 1) * (n as int - 1) + (
        s.selected_tab + m - 1)) % m);
        assert((m - 1) * (n as int - 1) + (s.selected_tab + m - 1) == s.selected_tab + (m - 1) * (n as int)) by {
            assert((m - 1) * (n as int - 1) + (m - 1) == (m - 1) * (n as int)) by (nonlinear_arith);
        }
        assert(run(s, es).selected_tab == (s.selected_tab + (m - 1) * (n as int)) % m);
    }
}

/// Law: from the first tab, `n` presses of the previous key land on
/// `(TAB_COUNT - n mod TAB_COUNT) mod TAB_COUNT`.
pub proof fn lemma_prev_key_from_start(s: AppState, n: nat)
    requires
        s.wf(),
        s.selected_tab == 0,
    ensures
        run(s, repeat_key(prev_press(), n)).selected_tab == ((TAB_COUNT as int) - ((n as int) % (
        TAB_COUNT as int))) % (TAB_COUNT as int),
{
    let m = TAB_COUNT as int;
    lemma_prev_key_rotation(s, n);
    assert(run(s, repeat_key(prev_press(), n)).selected_tab == ((m - 1) * (n as int)) % m);
    lemma_fundamental_div_mod(n as int, m);
    let q = n as int / m;
    let r = (n as int) % m;
    lemma_mod_pos_bound(n as int, m);
    assert((m - 1) * (n as int) == m * (n as int - q - 1) + (m - r)) by (nonlinear_arith)
        requires
            n as int == q * m + r,
    ;
    lemma_mod_multiples_vanish(n as int - q - 1, m - r, m);
    assert(((m - 1) * (n as int)) % m == (m - r) % m);
}

/// Law: after any event sequence the termination flag is set exactly when
/// it was already set or the sequence contains a quit-key press. Absent a
/// quit-key press, any finite sequence of other keys and messages leaves
/// the loop running.
pub proof fn lemma_quit_iff(s: AppState, es: Seq<LoopEvent>)
    ensures
        run(s, es).should_quit <==> (s.should_quit || exists|i: int|
            0 <= i < es.len() && is_quit_press(es[i])),
    decreases es.len(),
{
    if es.len() > 0 {
        let s1 = step(s, es[0]);
        lemma_quit_iff(s1, es.drop_first());
        assert(s1.should_quit == (s.should_quit || is_quit_press(es[0])));
        if run(s, es).should_quit {
            if !s.should_quit && !is_quit_press(es[0]) {
                let j = choose|j: int|
                    0 <= j < es.drop_first().len() && is_quit_press(es.drop_first()[j]);
                assert(es.drop_first()[j] == es[j + 1]);
                assert(0 <= j + 1 < es.len() && is_quit_press(es[j + 1]));
            }
        } else {
            assert forall|i: int| 0 <= i < es.len() implies !is_quit_press(es[i]) by {
                if i > 0 && is_quit_press(es[i]) {
                    assert(es.drop_first()[i - 1] == es[i]);
                    assert(run(s1, es.drop_first()).should_quit);
                }
            }
        }
    }
}

/// Law: once the announcement has been delivered it never changes and
/// never reverts to absent, whatever events follow.
pub proof fn lemma_home_data_stable(s: AppState, es: Seq<LoopEvent>, a: Announcement)
    requires
        s.home_data == Some(a),
    ensures
        run(s, es).home_data == Some(a),
    decreases es.len(),
{
    if es.len() > 0 {
        assert(step(s, es[0]).home_data == Some(a));
        lemma_home_data_stable(step(s, es[0]), es.drop_first(), a);
    }
}

/// Law: a failure message leaves the state exactly as it was: the
/// announcement stays absent when it was absent, the selected tab is kept,
/// and the loop does not terminate on its account.
pub proof fn lemma_failed_is_noop(s: AppState, msg: String)
    ensures
        message_step(s, FetchOutcome::Failed(msg)) == s,
{
}

} // verus!
