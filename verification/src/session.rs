//! The input router and its session state: the not-yet-submitted line,
//! the scroll offset of the answer pane, and the diagnostic tick buffer.
//! Each keyboard event transforms the state deterministically; pressing
//! Enter runs the submission protocol and hands back a plan for the
//! background task to carry out.

use crate::command::classify;
use crate::command::plan_for;
use crate::command::Plan;
use crate::store::begun;
use crate::store::SharedState;
use vstd::prelude::*;

verus! {

/// A keyboard event as the router understands it.
#[derive(Clone, Copy, Debug, PartialEq, Eq)]
pub enum KeyInput {
    /// A printable character.
    Char(char),
    Backspace,
    Up,
    Down,
    Enter,
    Escape,
    CtrlC,
    /// Any other key; produces no state change.
    Other,
}

/// What the render loop should do after an event was routed.
#[derive(Debug)]
pub enum Directive {
    /// Keep looping; nothing new to start.
    Continue,
    /// Start one background task that carries out this plan.
    Dispatch(Plan),
    /// Leave the loop; the session is over.
    Exit,
}

/// Mathematical model of the router's session state.
#[verifier::ext_equal]
pub struct AppModel {
    pub input: Seq<char>,
    pub scroll: nat,
    pub ticks: Seq<char>,
}

/// True of the keys that ask the session to end.
pub open spec fn wants_exit(k: KeyInput) -> bool {
    k == KeyInput::Escape || k == KeyInput::CtrlC
}

/// The session state after one keyboard event: a character appends to
/// the line, backspace removes its last character (nothing on an empty
/// line), Down and Up move the scroll offset with saturation at both
/// ends, Enter clears the line and resets the scroll, and every other
/// key leaves the state untouched.
pub open spec fn router_step(m: AppModel, k: KeyInput) -> AppModel {
    match k {
        KeyInput::Char(c) => AppModel { input: m.input.push(c), scroll: m.scroll, ticks: m.ticks },
        KeyInput::Backspace => AppModel {
            input: if m.input.len() == 0 {
                m.input
            } else {
                m.input.drop_last()
            },
            scroll: m.scroll,
            ticks: m.ticks,
        },
        KeyInput::Down => AppModel {
            input: m.input,
            scroll: if m.scroll < usize::MAX as nat {
                m.scroll + 1
            } else {
                m.scroll
            },
            ticks: m.ticks,
        },
        KeyInput::Up => AppModel {
            input: m.input,
            scroll: if m.scroll == 0 {
                0
            } else {
                (m.scroll - 1) as nat
            },
            ticks: m.ticks,
        },
        KeyInput::Enter => AppModel { input: Seq::empty(), scroll: 0, ticks: m.ticks },
        _ => m,
    }
}

/// One tick of the render loop: the fixed marker is appended to the
/// diagnostic buffer; nothing else changes.
pub open spec fn tick_step(m: AppModel) -> AppModel {
    AppModel { input: m.input, scroll: m.scroll, ticks: m.ticks.push('.') }
}

/// One render-loop iteration's effect on session state: an exit request
/// leaves the state untouched; any other key is routed and then the tick
/// runs; with no event only the tick runs.
pub open spec fn loop_step(m: AppModel, ev: Option<KeyInput>) -> AppModel {
    match ev {
        Option::None => tick_step(m),
        Option::Some(k) => if wants_exit(k) {
            m
        } else {
            tick_step(router_step(m, k))
        },
    }
}

/// The router's session state.
pub struct App {
    pub input: Vec<char>,
    pub scroll_offset: usize,
    pub tick_buffer: Vec<char>,
}

impl View for App {
    type V = AppModel;

    open spec fn view(&self) -> AppModel {
        AppModel {
            input: self.input@,
            scroll: self.scroll_offset as nat,
            ticks: self.tick_buffer@,
        }
    }
}

impl App {
    /// A fresh session: empty input line, zero scroll, empty tick buffer.
    pub fn new() -> (a: App)
        ensures
            a@.input == Seq::<char>::empty(),
            a@.scroll == 0,
            a@.ticks == Seq::<char>::empty(),
    {
        App { input: Vec::new(), scroll_offset: 0, tick_buffer: Vec::new() }
    }

    /// Performs one tick.
    pub fn on_tick(&mut self)
        ensures
            final(self)@ == tick_step(old(self)@),
    {
        self.tick_buffer.push('.');
    }

    /// Routes one keyboard event. The session state moves by
    /// [`router_step`]; on Enter the submission protocol runs: the line
    /// is captured and cleared, the scroll resets, the loading flag goes
    /// up, and the returned directive carries the plan for the captured
    /// line. Exit keys only ask to leave; they change nothing.
    pub fn on_key(&mut self, shared: &mut SharedState, key: KeyInput) -> (d: Directive)
        ensures
            final(self)@ == router_step(old(self)@, key),
            final(shared)@ == if key == KeyInput::Enter {
                begun(old(shared)@)
            } else {
                old(shared)@
            },
            (d is Exit) == wants_exit(key),
            (d is Dispatch) == (key == KeyInput::Enter),
            d matches Directive::Dispatch(p) ==> plan_for(p, old(self)@.input),
    {
        match key {
            KeyInput::Char(c) => {
                self.input.push(c);
                Directive::Continue
            },
            KeyInput::Backspace => {
                if self.input.len() > 0 {
                    self.input.pop();
                }
                Directive::Continue
            },
            KeyInput::Down => {
                if self.scroll_offset < usize::MAX {
                    self.scroll_offset = self.scroll_offset + 1;
                }
                Directive::Continue
            },
            KeyInput::Up => {
                if self.scroll_offset > 0 {
                    self.scroll_offset = self.scroll_offset - 1;
                }
                Directive::Continue
            },
            KeyInput::Enter => {
                let mut captured: Vec<char> = Vec::new();
                core::mem::swap(&mut self.input, &mut captured);
                self.scroll_offset = 0;
                shared.begin_request();
                let p = classify(&captured);
                Directive::Dispatch(p)
            },
            KeyInput::Escape => Directive::Exit,
            KeyInput::CtrlC => Directive::Exit,
            KeyInput::Other => Directive::Continue,
        }
    }

    /// Handles one render-loop iteration: routes the polled event, if
    /// any, then ticks — except that an exit request returns at once,
    /// changing nothing.
    pub fn on_event(&mut self, shared: &mut SharedState, ev: Option<KeyInput>) -> (d: Directive)
        ensures
            final(self)@ == loop_step(old(self)@, ev),
            final(shared)@ == if ev == Some(KeyInput::Enter) {
                begun(old(shared)@)
            } else {
                old(shared)@
            },
            (d is Exit) == (ev matches Some(k) && wants_exit(k)),
            (d is Dispatch) == (ev == Some(KeyInput::Enter)),
            d matches Directive::Dispatch(p) ==> plan_for(p, old(self)@.input),
    {
        match ev {
            Option::None => {
                self.on_tick();
                Directive::Continue
            },
            Option::Some(k) => {
                let d = self.on_key(shared, k);
                match d {
                    Directive::Exit => Directive::Exit,
                    other => {
                        self.on_tick();
                        other
                    },
                }
            },
        }
    }
}

/// The session state after a whole sequence of keyboard events.
pub open spec fn router_steps(m: AppModel, ks: Seq<KeyInput>) -> AppModel
    decreases ks.len(),
{
    if ks.len() == 0 {
        m
    } else {
        router_steps(router_step(m, ks[0]), ks.drop_first())
    }
}

/// True of a key that only edits the input line.
pub open spec fn is_edit_key(k: KeyInput) -> bool {
    k matches KeyInput::Char(_) || k == KeyInput::Backspace
}

/// The net effect of a sequence of edit keys on a line: append for a
/// character, remove-last for backspace, nothing for backspace on an
/// empty line.
pub open spec fn edit_effect(s: Seq<char>, ks: Seq<KeyInput>) -> Seq<char>
    decreases ks.len(),
{
    if ks.len() == 0 {
        s
    } else {
        let s1 = match ks[0] {
            KeyInput::Char(c) => s.push(c),
            KeyInput::Backspace => if s.len() == 0 {
                s
            } else {
                s.drop_last()
            },
            _ => s,
        };
        edit_effect(s1, ks.drop_first())
    }
}

/// For any sequence of character-append and backspace events, the final
/// input line equals the net effect of the sequence on the prior line,
/// and the rest of the session state is untouched.
pub proof fn lemma_edit_net_effect(m: AppModel, ks: Seq<KeyInput>)
    requires
        forall|i: int| 0 <= i < ks.len() ==> is_edit_key(#[trigger] ks[i]),
    ensures
        router_steps(m, ks).input == edit_effect(m.input, ks),
        router_steps(m, ks).scroll == m.scroll,
        router_steps(m, ks).ticks == m.ticks,
    decreases ks.len(),
{
    if ks.len() > 0 {
        let tail = ks.drop_first();
        assert(is_edit_key(ks[0]));
        assert forall|i: int| 0 <= i < tail.len() implies is_edit_key(#[trigger] tail[i]) by {
            assert(tail[i] == ks[i + 1]);
        }
        lemma_edit_net_effect(router_step(m, ks[0]), tail);
    }
}

/// Pressing a character and then backspace returns the session state to
/// exactly what it was.
pub proof fn lemma_push_then_pop(m: AppModel, c: char)
    ensures
        router_step(router_step(m, KeyInput::Char(c)), KeyInput::Backspace) == m,
{
    assert(m.input.push(c).drop_last() =~= m.input);
    assert(router_step(router_step(m, KeyInput::Char(c)), KeyInput::Backspace) =~= m);
}

/// True of a key that only moves the scroll offset.
pub open spec fn is_scroll_key(k: KeyInput) -> bool {
    k == KeyInput::Up || k == KeyInput::Down
}

/// The scroll offset never goes below zero under any sequence of Up and
/// Down events, and an Up at zero saturates: the offset stays at zero.
pub proof fn lemma_scroll_saturates(m: AppModel, ks: Seq<KeyInput>)
    requires
        forall|i: int| 0 <= i < ks.len() ==> is_scroll_key(#[trigger] ks[i]),
    ensures
        router_steps(m, ks).scroll >= 0,
        m.scroll == 0 ==> router_step(m, KeyInput::Up).scroll == 0,
{
}

} // verus!
