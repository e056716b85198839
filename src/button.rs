//! Menu buttons: what activating one does, and how it looks.
use crate::area::Area;
use crate::state::State;
use vstd::prelude::*;

verus! {

/// How long an activated button shows as pressed, in milliseconds.
pub const PRESS_COOLDOWN_MS: u64 = 250;

/// Width of every menu button, in pixels.
pub const BUTTON_WIDTH_PX: u32 = 160;

/// Height of every menu button, in pixels.
pub const BUTTON_HEIGHT_PX: u32 = 60;

/// Border width of every menu button, on all four sides, in pixels.
pub const BUTTON_BORDER_PX: u32 = 4;

/// What activating a button does.
#[derive(Clone, Copy, Debug, PartialEq, Eq, Structural)]
pub enum ButtonAction {
    /// Request a change to the given state.
    NavigateTo(State),
    /// Remember the area, then request `Playing`.
    SelectArea(Area),
    /// End the program successfully.
    Exit,
}

/// How a button is painted.
#[derive(Clone, Copy, Debug, PartialEq, Eq, Structural)]
pub enum Visual {
    Normal,
    Focused,
    Pressed,
}

/// A countdown started when a button is activated. It runs once: elapsed
/// time grows with each tick and stops at the duration.
#[derive(Clone, Copy, Debug, PartialEq, Eq, Structural)]
pub struct ResetTimer {
    duration_ms: u64,
    elapsed_ms: u64,
}

/// Elapsed time after one tick of `delta` on a countdown of `duration`.
pub open spec fn ticked(duration: nat, elapsed: nat, delta: nat) -> nat {
    if elapsed + delta >= duration {
        duration
    } else {
        elapsed + delta
    }
}

/// Elapsed time after ticks of `deltas`, in order, from `elapsed`.
pub open spec fn run_ticks(duration: nat, elapsed: nat, deltas: Seq<nat>) -> nat
    decreases deltas.len(),
{
    if deltas.len() == 0 {
        elapsed
    } else {
        run_ticks(duration, ticked(duration, elapsed, deltas[0]), deltas.drop_first())
    }
}

/// The sum of `deltas`.
pub open spec fn total(deltas: Seq<nat>) -> nat
    decreases deltas.len(),
{
    if deltas.len() == 0 {
        0
    } else {
        deltas[0] + total(deltas.drop_first())
    }
}

impl ResetTimer {
    pub closed spec fn duration_spec(&self) -> nat {
        self.duration_ms as nat
    }

    pub closed spec fn elapsed_spec(&self) -> nat {
        self.elapsed_ms as nat
    }

    /// Elapsed time never passes the duration.
    pub closed spec fn wf(&self) -> bool {
        self.elapsed_ms <= self.duration_ms
    }

    /// A countdown of `duration` that has not started running.
    pub closed spec fn new_spec(duration: nat) -> ResetTimer {
        ResetTimer { duration_ms: duration as u64, elapsed_ms: 0 }
    }

    /// A countdown of `duration_ms` that has not started running.
    pub fn new(duration_ms: u64) -> (r: ResetTimer)
        ensures
            r == ResetTimer::new_spec(duration_ms as nat),
            r.wf(),
            r.duration_spec() == duration_ms,
            r.elapsed_spec() == 0,
    {
        ResetTimer { duration_ms, elapsed_ms: 0 }
    }

    /// Whether the countdown has run out.
    pub fn finished(&self) -> (r: bool)
        requires
            self.wf(),
        ensures
            r == (self.elapsed_spec() >= self.duration_spec()),
    {
        self.elapsed_ms >= self.duration_ms
    }

    /// Advances the countdown by `delta_ms`; true exactly when this tick made it run out.
    pub fn tick(&mut self, delta_ms: u64) -> (r: bool)
        requires
            old(self).wf(),
        ensures
            final(self).wf(),
            final(self).duration_spec() == old(self).duration_spec(),
            final(self).elapsed_spec() == ticked(old(self).duration_spec(), old(self).elapsed_spec(), delta_ms as nat),
            r == (old(self).elapsed_spec() < old(self).duration_spec()
                && final(self).elapsed_spec() >= final(self).duration_spec()),
    {
        let was_finished = self.elapsed_ms >= self.duration_ms;
        if delta_ms >= self.duration_ms - self.elapsed_ms {
            self.elapsed_ms = self.duration_ms;
        } else {
            self.elapsed_ms = self.elapsed_ms + delta_ms;
        }
        !was_finished && self.elapsed_ms >= self.duration_ms
    }
}

/// Ticks of total length at least the duration run a countdown out, and
/// ticks of total length below it leave it running.
pub proof fn lemma_run_ticks(duration: nat, elapsed: nat, deltas: Seq<nat>)
    requires
        elapsed <= duration,
    ensures
        run_ticks(duration, elapsed, deltas) <= duration,
        run_ticks(duration, elapsed, deltas) >= duration <==> elapsed + total(deltas) >= duration,
        elapsed + total(deltas) < duration ==> run_ticks(duration, elapsed, deltas) == elapsed + total(deltas),
    decreases deltas.len(),
{
    if deltas.len() > 0 {
        lemma_run_ticks(duration, ticked(duration, elapsed, deltas[0]), deltas.drop_first());
        if elapsed + deltas[0] >= duration {
            lemma_run_ticks_finished(duration, deltas.drop_first());
        }
    }
}

/// A countdown that has run out stays run out.
proof fn lemma_run_ticks_finished(duration: nat, deltas: Seq<nat>)
    ensures
        run_ticks(duration, duration, deltas) == duration,
    decreases deltas.len(),
{
    if deltas.len() > 0 {
        lemma_run_ticks_finished(duration, deltas.drop_first());
    }
}

/// One button of a menu screen.
#[derive(Clone, Copy, Debug)]
pub struct MenuButton {
    /// The element's identity in the focus graph.
    pub id: u32,
    /// The text on the button; unique within its screen.
    pub label: &'static str,
    /// What activating the button does.
    pub action: ButtonAction,
    /// Width in pixels.
    pub width_px: u32,
    /// Height in pixels.
    pub height_px: u32,
    /// Border width in pixels, on all four sides.
    pub border_px: u32,
    /// Whether the border shows the focus highlight.
    pub highlighted: bool,
    /// The countdown of the pressed look, while it lasts.
    pub cooldown: Option<ResetTimer>,
}

impl MenuButton {
    /// Every countdown it carries is well formed.
    pub open spec fn wf(&self) -> bool {
        self.cooldown matches Some(t) ==> t.wf()
    }

    /// How the button is painted: pressed while its countdown runs, else
    /// focused while highlighted, else normal.
    pub open spec fn visual(&self) -> Visual {
        if self.cooldown is Some {
            Visual::Pressed
        } else if self.highlighted {
            Visual::Focused
        } else {
            Visual::Normal
        }
    }

    /// The button after `delta_ms` of cooldown time: its countdown advances,
    /// and is dropped once it has run out.
    pub open spec fn after_tick(self, delta_ms: nat) -> MenuButton {
        match self.cooldown {
            None => self,
            Some(t) => {
                if ticked(t.duration_spec(), t.elapsed_spec(), delta_ms) >= t.duration_spec() {
                    MenuButton { cooldown: None, ..self }
                } else {
                    self
                }
            },
        }
    }
}

/// A button in its normal look and fixed size, with nothing pressed and no highlight.
pub fn get_button_bundle(id: u32, label: &'static str, action: ButtonAction) -> (r: MenuButton)
    ensures
        r.id == id,
        r.label == label,
        r.action == action,
        r.width_px == BUTTON_WIDTH_PX,
        r.height_px == BUTTON_HEIGHT_PX,
        r.border_px == BUTTON_BORDER_PX,
        !r.highlighted,
        r.cooldown is None,
        r.visual() == Visual::Normal,
{
    MenuButton {
        id,
        label,
        action,
        width_px: BUTTON_WIDTH_PX,
        height_px: BUTTON_HEIGHT_PX,
        border_px: BUTTON_BORDER_PX,
        highlighted: false,
        cooldown: None,
    }
}

/// Paints the focus highlight on the button that holds focus, when focus is
/// to be shown, and takes it off every other button.
pub fn highlight_focused_element(buttons: &mut Vec<MenuButton>, focus: Option<u32>, focus_visible: bool)
    ensures
        final(buttons)@.len() == old(buttons)@.len(),
        forall|i: int| #![trigger final(buttons)@[i]]
            0 <= i < old(buttons)@.len() ==> final(buttons)@[i] == (MenuButton {
                highlighted: focus_visible && focus == Some(old(buttons)@[i].id),
                ..old(buttons)@[i]
            }),
{
    let mut i: usize = 0;
    while i < buttons.len()
        invariant
            buttons@.len() == old(buttons)@.len(),
            0 <= i <= buttons@.len(),
            forall|j: int| #![trigger buttons@[j]]
                0 <= j < i ==> buttons@[j] == (MenuButton {
                    highlighted: focus_visible && focus == Some(old(buttons)@[j].id),
                    ..old(buttons)@[j]
                }),
            forall|j: int| #![trigger buttons@[j]] i <= j < buttons@.len() ==> buttons@[j] == old(buttons)@[j],
        decreases buttons@.len() - i,
    {
        let mut b = buttons[i];
        b.highlighted = focus_visible && focus == Some(b.id);
        buttons.set(i, b);
        i = i + 1;
    }
}

/// Advances the countdown of every pressed button by `delta_ms`; a button
/// whose countdown runs out loses its pressed look.
pub fn reset_button_after_interaction(buttons: &mut Vec<MenuButton>, delta_ms: u64)
    requires
        forall|i: int| 0 <= i < old(buttons)@.len() ==> (#[trigger] old(buttons)@[i]).wf(),
    ensures
        final(buttons)@.len() == old(buttons)@.len(),
        forall|i: int| #![trigger final(buttons)@[i]]
            0 <= i < old(buttons)@.len() ==> {
                &&& final(buttons)@[i].wf()
                &&& final(buttons)@[i].id == old(buttons)@[i].id
                &&& final(buttons)@[i].label == old(buttons)@[i].label
                &&& final(buttons)@[i].action == old(buttons)@[i].action
                &&& final(buttons)@[i].highlighted == old(buttons)@[i].highlighted
                &&& (final(buttons)@[i].cooldown is None) == (old(buttons)@[i].after_tick(delta_ms as nat).cooldown is None)
                &&& final(buttons)@[i].cooldown matches Some(t) ==> (old(buttons)@[i].cooldown matches Some(t0)
                    && t.duration_spec() == t0.duration_spec()
                    && t.elapsed_spec() == ticked(t0.duration_spec(), t0.elapsed_spec(), delta_ms as nat))
            },
{
    let mut i: usize = 0;
    while i < buttons.len()
        invariant
            buttons@.len() == old(buttons)@.len(),
            0 <= i <= buttons@.len(),
            forall|j: int| #![trigger buttons@[j]]
                0 <= j < i ==> {
                    &&& buttons@[j].wf()
                    &&& buttons@[j].id == old(buttons)@[j].id
                    &&& buttons@[j].label == old(buttons)@[j].label
                    &&& buttons@[j].action == old(buttons)@[j].action
                    &&& buttons@[j].highlighted == old(buttons)@[j].highlighted
                    &&& (buttons@[j].cooldown is None) == (old(buttons)@[j].after_tick(delta_ms as nat).cooldown is None)
                    &&& buttons@[j].cooldown matches Some(t) ==> (old(buttons)@[j].cooldown matches Some(t0)
                        && t.duration_spec() == t0.duration_spec()
                        && t.elapsed_spec() == ticked(t0.duration_spec(), t0.elapsed_spec(), delta_ms as nat))
                },
            forall|j: int| #![trigger buttons@[j]] i <= j < buttons@.len() ==> buttons@[j] == old(buttons)@[j],
            forall|j: int| 0 <= j < old(buttons)@.len() ==> (#[trigger] old(buttons)@[j]).wf(),
        decreases buttons@.len() - i,
    {
        let mut b = buttons[i];
        match b.cooldown {
            Some(t) => {
                let mut t = t;
                t.tick(delta_ms);
                if t.finished() {
                    b.cooldown = None;
                } else {
                    b.cooldown = Some(t);
                }
            },
            None => {},
        }
        buttons.set(i, b);
        i = i + 1;
    }
}

} // verus!
