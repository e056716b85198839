//! The context that one frame loop drives: the state machine, the focus graph,
//! the active menu screen and the choices made on it.
use bevy::math::CompassOctant;
use crate::area::Area;
use crate::button::{ButtonAction, MenuButton, ResetTimer, Visual, PRESS_COOLDOWN_MS};
use crate::loading::{cleanup, setup, LoadingState};
use crate::menu::{despawn_screen, despawned, freshly_built, screen_of, Areas, MainMenu, MenuScreen, Options, ScreenKind};
use crate::nav::{lemma_step_stays_in_cycle, navigate, step, FocusGraph};
use crate::state::{State, StateMachine, Transition};
use vstd::prelude::*;

verus! {

/// The keys pressed this frame: each is the press itself, not a repeat.
#[derive(Clone, Copy, Debug, Default, PartialEq, Eq, Structural)]
pub struct FrameInput {
    pub up: bool,
    pub down: bool,
    pub activate: bool,
}

/// The state current after a commit point, from `current` with `pending` requested.
pub open spec fn committed_state(current: State, pending: Option<State>) -> State {
    match pending {
        Some(next) => next,
        None => current,
    }
}

/// The state that the next commit point makes current.
pub open spec fn state_after_commit(m: StateMachine) -> State {
    committed_state(m.current_spec(), m.pending_spec())
}

/// The transition that the next commit point makes, if any.
pub open spec fn transition_of(m: StateMachine) -> Option<Transition> {
    match m.pending_spec() {
        Some(next) => if next != m.current_spec() {
            Some(Transition { from: m.current_spec(), to: next })
        } else {
            None
        },
        None => None,
    }
}

/// The state requested once a button with `action` is activated, when `pending` was requested before.
pub open spec fn request_after(action: ButtonAction, pending: Option<State>) -> Option<State> {
    match action {
        ButtonAction::NavigateTo(s) => Some(s),
        ButtonAction::SelectArea(_) => Some(State::Playing),
        ButtonAction::Exit => pending,
    }
}

/// Everything the menu systems read and write, owned by the frame loop.
pub struct Game {
    machine: StateMachine,
    graph: FocusGraph,
    screen: Option<MenuScreen>,
    focus_visible: bool,
    selected_area: Area,
    exit_requested: bool,
    loading: LoadingState,
}

impl Game {
    pub closed spec fn machine_spec(&self) -> StateMachine {
        self.machine
    }

    pub closed spec fn graph_spec(&self) -> FocusGraph {
        self.graph
    }

    pub closed spec fn screen_spec(&self) -> Option<MenuScreen> {
        self.screen
    }

    pub closed spec fn focus_visible_spec(&self) -> bool {
        self.focus_visible
    }

    pub closed spec fn selected_area_spec(&self) -> Area {
        self.selected_area
    }

    pub closed spec fn exit_spec(&self) -> bool {
        self.exit_requested
    }

    /// A menu screen is active exactly in the states that have one, it is the
    /// screen of the current state, its buttons form a vertical cycle, and
    /// focus is on one of them.
    pub open spec fn wf(&self) -> bool {
        match self.screen_spec() {
            Some(s) => {
                &&& s.wf()
                &&& s.live_in(self.graph_spec())
                &&& screen_of(self.machine_spec().current_spec()) == Some(s.kind_spec())
            },
            None => screen_of(self.machine_spec().current_spec()) is None,
        }
    }

    /// The action of the button on element `f` of the active screen, if there is one.
    pub open spec fn action_at(&self, f: Option<u32>) -> Option<ButtonAction> {
        match (self.screen_spec(), f) {
            (Some(s), Some(id)) => match s.position_of(id) {
                Some(i) => Some(s.buttons_spec()[i].action),
                None => None,
            },
            _ => None,
        }
    }

    /// The action of the focused button, if there is one.
    pub open spec fn focused_action(&self) -> Option<ButtonAction> {
        self.action_at(self.graph_spec().focus_spec())
    }

    /// Where focus is once the keys `up` and `down` have been handled.
    pub open spec fn focus_after_keys(&self, up: bool, down: bool) -> Option<u32> {
        match self.graph_spec().focus_spec() {
            Some(f) => if self.screen_spec() is Some && (up || down) {
                Some(step(self.graph_spec().edges(), f, if up { CompassOctant::North } else { CompassOctant::South }))
            } else {
                Some(f)
            },
            None => None,
        }
    }

    /// A game in `Loading`, whose entry has run: the main menu is requested
    /// for the first commit point. Focus is shown and no area was chosen yet.
    pub fn new() -> (r: Game)
        ensures
            r.wf(),
            r.machine_spec().current_spec() == State::Loading,
            r.machine_spec().pending_spec() == Some(State::MainMenu),
            r.screen_spec() is None,
            r.focus_visible_spec(),
            r.selected_area_spec() == Area::Cave,
            !r.exit_spec(),
    {
        let mut game = Game {
            machine: StateMachine::new(),
            graph: FocusGraph::new(),
            screen: None,
            focus_visible: true,
            selected_area: Area::Cave,
            exit_requested: false,
            loading: LoadingState {},
        };
        LoadingPlugin.on_enter(&mut game);
        game
    }

    /// The current state.
    pub fn current(&self) -> (r: State)
        ensures
            r == self.machine_spec().current_spec(),
    {
        self.machine.current()
    }

    /// The state requested for the next commit point, if any.
    pub fn pending(&self) -> (r: Option<State>)
        ensures
            r == self.machine_spec().pending_spec(),
    {
        self.machine.pending()
    }

    /// The active menu screen, if any.
    pub fn screen(&self) -> (r: &Option<MenuScreen>)
        ensures
            *r == self.screen_spec(),
    {
        &self.screen
    }

    /// The element holding focus, if any.
    pub fn focused(&self) -> (r: Option<u32>)
        ensures
            r == self.graph_spec().focus_spec(),
    {
        self.graph.focused()
    }

    /// The focus graph.
    pub fn graph(&self) -> (r: &FocusGraph)
        ensures
            *r == self.graph_spec(),
    {
        &self.graph
    }

    /// The area chosen last.
    pub fn selected_area(&self) -> (r: Area)
        ensures
            r == self.selected_area_spec(),
    {
        self.selected_area
    }

    /// Whether an Exit button asked for the program to end.
    pub fn exit_requested(&self) -> (r: bool)
        ensures
            r == self.exit_spec(),
    {
        self.exit_requested
    }

    /// Turns the display of the focus highlight on or off.
    pub fn set_focus_visible(&mut self, visible: bool)
        requires
            old(self).wf(),
        ensures
            final(self).wf(),
            final(self).focus_visible_spec() == visible,
            final(self).machine_spec() == old(self).machine_spec(),
            final(self).graph_spec() == old(self).graph_spec(),
            final(self).screen_spec() == old(self).screen_spec(),
            final(self).selected_area_spec() == old(self).selected_area_spec(),
            final(self).exit_spec() == old(self).exit_spec(),
    {
        self.focus_visible = visible;
    }

    /// Despawns the active screen, if any.
    fn teardown(&mut self)
        ensures
            final(self).screen_spec() is None,
            final(self).machine_spec() == old(self).machine_spec(),
            final(self).focus_visible_spec() == old(self).focus_visible_spec(),
            final(self).selected_area_spec() == old(self).selected_area_spec(),
            final(self).exit_spec() == old(self).exit_spec(),
            screen_left(*final(self), *old(self)),
    {
        let screen = self.screen.take();
        match screen {
            Some(s) => despawn_screen(s, &mut self.graph),
            None => {},
        }
    }
}

/// The hooks of `Loading`.
pub struct LoadingPlugin;

/// The hooks of `MainMenu`.
pub struct MainMenuPlugin;

/// The hooks of `OptionsMenu`.
pub struct OptionsPlugin;

/// The hooks of `ChooseArea`.
pub struct AreasMenuPlugin;

/// `after` differs from `before` only in its request and in what the
/// active screen and the focus graph hold.
pub open spec fn same_choices(after: Game, before: Game) -> bool {
    &&& after.machine_spec().current_spec() == before.machine_spec().current_spec()
    &&& after.focus_visible_spec() == before.focus_visible_spec()
    &&& after.selected_area_spec() == before.selected_area_spec()
    &&& after.exit_spec() == before.exit_spec()
}

/// The focus graph of `after` is that of `before` with every element of the
/// screen of `before`, if any, despawned.
pub open spec fn screen_left(after: Game, before: Game) -> bool {
    match before.screen_spec() {
        Some(s) => despawned(after.graph_spec(), before.graph_spec(), s.entities_spec()),
        None => after.graph_spec() == before.graph_spec(),
    }
}

/// `after` holds a freshly built screen of `kind`, built on the graph of `before`.
pub open spec fn entered_screen(after: Game, before: Game, kind: ScreenKind) -> bool {
    &&& after.screen_spec() matches Some(s)
    &&& freshly_built(s, kind, kind.labels_spec(), kind.actions_spec(), before.graph_spec(), after.graph_spec())
    &&& same_choices(after, before)
    &&& after.machine_spec() == before.machine_spec()
}

impl LoadingPlugin {
    /// On entering `Loading`: the main menu is requested.
    pub fn on_enter(&self, game: &mut Game)
        ensures
            final(game).machine_spec().pending_spec() == Some(State::MainMenu),
            same_choices(*final(game), *old(game)),
            final(game).screen_spec() == old(game).screen_spec(),
            final(game).graph_spec() == old(game).graph_spec(),
    {
        setup(&mut game.machine);
    }

    /// On leaving `Loading`: nothing changes.
    pub fn on_exit(&self, game: &mut Game)
        ensures
            *final(game) == *old(game),
    {
        cleanup();
    }
}

impl MainMenuPlugin {
    /// On entering `MainMenu`: the main menu is built, focus on Play.
    pub fn on_enter(&self, game: &mut Game)
        requires
            old(game).screen_spec() is None,
        ensures
            entered_screen(*final(game), *old(game), ScreenKind::MainMenu),
    {
        game.screen = Some(MainMenu::setup_ui(&mut game.graph));
    }

    /// On leaving `MainMenu`: every element of the main menu is despawned.
    pub fn on_exit(&self, game: &mut Game)
        ensures
            final(game).screen_spec() is None,
            screen_left(*final(game), *old(game)),
            same_choices(*final(game), *old(game)),
            final(game).machine_spec() == old(game).machine_spec(),
    {
        game.teardown();
    }
}

impl OptionsPlugin {
    /// On entering `OptionsMenu`: the options menu is built, focus on Option 1.
    pub fn on_enter(&self, game: &mut Game)
        requires
            old(game).screen_spec() is None,
        ensures
            entered_screen(*final(game), *old(game), ScreenKind::Options),
    {
        game.screen = Some(Options::setup_ui(&mut game.graph));
    }

    /// On leaving `OptionsMenu`: every element of the options menu is despawned.
    pub fn on_exit(&self, game: &mut Game)
        ensures
            final(game).screen_spec() is None,
            screen_left(*final(game), *old(game)),
            same_choices(*final(game), *old(game)),
            final(game).machine_spec() == old(game).machine_spec(),
    {
        game.teardown();
    }
}

impl AreasMenuPlugin {
    /// On entering `ChooseArea`: the area menu is built, focus on the first area.
    pub fn on_enter(&self, game: &mut Game)
        requires
            old(game).screen_spec() is None,
        ensures
            entered_screen(*final(game), *old(game), ScreenKind::Areas),
    {
        game.screen = Some(Areas::setup_ui(&mut game.graph));
    }

    /// On leaving `ChooseArea`: every element of the area menu is despawned.
    pub fn on_exit(&self, game: &mut Game)
        ensures
            final(game).screen_spec() is None,
            screen_left(*final(game), *old(game)),
            same_choices(*final(game), *old(game)),
            final(game).machine_spec() == old(game).machine_spec(),
    {
        game.teardown();
    }
}

impl Game {
    /// Runs the exit hooks of `s`.
    fn run_exit_hooks(&mut self, s: State)
        requires
            screen_of(s) is None ==> old(self).screen_spec() is None,
        ensures
            final(self).screen_spec() is None,
            screen_left(*final(self), *old(self)),
            same_choices(*final(self), *old(self)),
            final(self).machine_spec() == old(self).machine_spec(),
    {
        match s {
            State::Loading => LoadingPlugin.on_exit(self),
            State::MainMenu => MainMenuPlugin.on_exit(self),
            State::OptionsMenu => OptionsPlugin.on_exit(self),
            State::ChooseArea => AreasMenuPlugin.on_exit(self),
            State::Paused | State::Playing => {},
        }
    }

    /// Runs the entry hooks of `s`.
    fn run_enter_hooks(&mut self, s: State)
        requires
            old(self).screen_spec() is None,
        ensures
            same_choices(*final(self), *old(self)),
            match screen_of(s) {
                Some(k) => entered_screen(*final(self), *old(self), k),
                None => final(self).screen_spec() is None && final(self).graph_spec() == old(self).graph_spec(),
            },
            final(self).machine_spec().pending_spec() == (if s == State::Loading {
                Some(State::MainMenu)
            } else {
                old(self).machine_spec().pending_spec()
            }),
            final(self).machine_spec().current_spec() == old(self).machine_spec().current_spec(),
    {
        match s {
            State::Loading => LoadingPlugin.on_enter(self),
            State::MainMenu => MainMenuPlugin.on_enter(self),
            State::OptionsMenu => OptionsPlugin.on_enter(self),
            State::ChooseArea => AreasMenuPlugin.on_enter(self),
            State::Paused | State::Playing => {},
        }
    }

    /// The commit point between frames. The requested state, if it differs
    /// from the current one, becomes current: the exit hooks of the old state
    /// run first, despawning its screen, then the entry hooks of the new
    /// state, building its screen. The transition made is returned.
    pub fn commit(&mut self) -> (r: Option<Transition>)
        requires
            old(self).wf(),
        ensures
            final(self).wf(),
            r == transition_of(old(self).machine_spec()),
            final(self).machine_spec().current_spec() == state_after_commit(old(self).machine_spec()),
            final(self).focus_visible_spec() == old(self).focus_visible_spec(),
            final(self).selected_area_spec() == old(self).selected_area_spec(),
            final(self).exit_spec() == old(self).exit_spec(),
            r is None ==> final(self).machine_spec().pending_spec() is None
                && final(self).screen_spec() == old(self).screen_spec()
                && final(self).graph_spec() == old(self).graph_spec(),
            r matches Some(t) ==> {
                &&& final(self).machine_spec().pending_spec() == (if t.to == State::Loading {
                    Some(State::MainMenu)
                } else {
                    None
                })
                &&& match screen_of(t.to) {
                    Some(k) => final(self).screen_spec() matches Some(s) && {
                        &&& s.kind_spec() == k
                        &&& s.labels() == k.labels_spec()
                        &&& s.actions() == k.actions_spec()
                        &&& final(self).graph_spec().focus_spec() == Some(s.button_ids()[0])
                        &&& exists|mid: Game| {
                            &&& #[trigger] screen_left(mid, *old(self))
                            &&& freshly_built(s, k, k.labels_spec(), k.actions_spec(), mid.graph_spec(), final(self).graph_spec())
                        }
                    },
                    None => final(self).screen_spec() is None && screen_left(*final(self), *old(self)),
                }
                &&& screen_of(t.to) is None ==> (old(self).screen_spec() matches Some(s0)
                    ==> (final(self).graph_spec().focus_spec() matches Some(f) ==> !s0.entities_spec().contains(f)))
            },
    {
        let ghost start = *self;
        let t = self.machine.commit();
        match t {
            Some(t) => {
                self.run_exit_hooks(t.from);
                let ghost mid = *self;
                self.run_enter_hooks(t.to);
                assert(screen_left(mid, start));
                proof {
                    if screen_of(t.to) is Some {
                        let k = screen_of(t.to)->Some_0;
                        let s = self.screen->Some_0;
                        assert(freshly_built(s, k, k.labels_spec(), k.actions_spec(), mid.graph_spec(), self.graph_spec()));
                    }
                }
                Some(t)
            },
            None => None,
        }
    }

    /// The position of the focused button on the active screen, if any.
    pub open spec fn focused_position(&self) -> Option<int> {
        match (self.screen_spec(), self.graph_spec().focus_spec()) {
            (Some(s), Some(f)) => s.position_of(f),
            _ => None,
        }
    }

    /// Activates the focused button: `NavigateTo(s)` requests `s`;
    /// `SelectArea(a)` remembers `a` and requests `Playing`; `Exit` asks for
    /// the program to end. The button shows as pressed. Without a focused
    /// button nothing happens.
    pub fn interact_with_focused_button(&mut self)
        requires
            old(self).wf(),
        ensures
            final(self).wf(),
            final(self).graph_spec() == old(self).graph_spec(),
            final(self).machine_spec().current_spec() == old(self).machine_spec().current_spec(),
            final(self).focus_visible_spec() == old(self).focus_visible_spec(),
            match old(self).focused_action() {
                Some(a) => {
                    &&& final(self).machine_spec().pending_spec() == request_after(a, old(self).machine_spec().pending_spec())
                    &&& final(self).selected_area_spec() == (match a {
                        ButtonAction::SelectArea(area) => area,
                        _ => old(self).selected_area_spec(),
                    })
                    &&& final(self).exit_spec() == (old(self).exit_spec() || a == ButtonAction::Exit)
                    &&& final(self).screen_spec() matches Some(s) && {
                        let s0 = old(self).screen_spec()->Some_0;
                        let i = old(self).focused_position()->Some_0;
                        &&& s.kind_spec() == s0.kind_spec()
                        &&& s.entities_spec() == s0.entities_spec()
                        &&& s.buttons_spec() == s0.buttons_spec().update(i, MenuButton {
                            cooldown: Some(ResetTimer::new_spec(PRESS_COOLDOWN_MS as nat)),
                            ..s0.buttons_spec()[i]
                        })
                        &&& s.buttons_spec()[i].visual() == Visual::Pressed
                        &&& s.labels() == s0.labels()
                        &&& s.actions() == s0.actions()
                    }
                },
                None => {
                    &&& final(self).machine_spec() == old(self).machine_spec()
                    &&& final(self).screen_spec() == old(self).screen_spec()
                    &&& final(self).selected_area_spec() == old(self).selected_area_spec()
                    &&& final(self).exit_spec() == old(self).exit_spec()
                },
            },
    {
        let f = self.graph.focused();
        match f {
            None => {},
            Some(f) => {
                let found: Option<(usize, ButtonAction)> = match &self.screen {
                    Some(s) => match s.find_button(f) {
                        Some(i) => Some((i, s.buttons()[i].action)),
                        None => None,
                    },
                    None => None,
                };
                match found {
                    None => {},
                    Some((i, action)) => {
                        match action {
                            ButtonAction::NavigateTo(s) => self.machine.request(s),
                            ButtonAction::SelectArea(a) => {
                                self.selected_area = a;
                                self.machine.request(State::Playing);
                            },
                            ButtonAction::Exit => {
                                self.exit_requested = true;
                            },
                        }
                        let ghost before = self.screen;
                        match &mut self.screen {
                            Some(s) => s.press(i),
                            None => {},
                        }
                        proof {
                            let s = self.screen->Some_0;
                            let s0 = before->Some_0;
                            assert(s.button_ids() =~= s0.button_ids());
                            assert(s.actions() =~= s0.actions());
                            assert(s.labels() =~= s0.labels());
                        }
                    },
                }
            },
        }
    }
}

impl Game {
    /// The input step: on an active screen, the up key moves focus north, else
    /// the down key moves it south. Without a screen nothing moves.
    pub fn navigate_keys(&mut self, up: bool, down: bool)
        requires
            old(self).wf(),
        ensures
            final(self).wf(),
            final(self).graph_spec().focus_spec() == old(self).focus_after_keys(up, down),
            final(self).graph_spec().edges() == old(self).graph_spec().edges(),
            final(self).screen_spec() == old(self).screen_spec(),
            final(self).machine_spec() == old(self).machine_spec(),
            same_choices(*final(self), *old(self)),
    {
        match &self.screen {
            Some(_) => {
                let ghost before = self.graph;
                let _ = navigate(&mut self.graph, up, down);
                proof {
                    let s = self.screen->Some_0;
                    let f = before.focus_spec()->Some_0;
                    if up || down {
                        lemma_step_stays_in_cycle(before.edges(), s.button_ids(), f,
                            if up { CompassOctant::North } else { CompassOctant::South });
                    }
                }
            },
            None => {},
        }
    }

    /// The highlight step: on an active screen, only the focused button is
    /// highlighted, and only while focus is shown.
    pub fn highlight_step(&mut self)
        requires
            old(self).wf(),
        ensures
            final(self).wf(),
            final(self).graph_spec() == old(self).graph_spec(),
            final(self).machine_spec() == old(self).machine_spec(),
            same_choices(*final(self), *old(self)),
            match old(self).screen_spec() {
                Some(s0) => final(self).screen_spec() matches Some(s) && {
                    &&& s.actions() == s0.actions()
                    &&& s.labels() == s0.labels()
                    &&& s.buttons_spec().len() == s0.buttons_spec().len()
                    &&& forall|i: int| #![trigger s.buttons_spec()[i]]
                        0 <= i < s.buttons_spec().len() ==> s.buttons_spec()[i] == (MenuButton {
                            highlighted: old(self).focus_visible_spec()
                                && old(self).graph_spec().focus_spec() == Some(s0.buttons_spec()[i].id),
                            ..s0.buttons_spec()[i]
                        })
                },
                None => final(self).screen_spec() is None,
            },
    {
        let focus = self.graph.focused();
        let visible = self.focus_visible;
        match &mut self.screen {
            Some(s) => s.highlight(focus, visible),
            None => {},
        }
    }

    /// The cooldown step: on an active screen, the countdown of every pressed
    /// button advances by `delta_ms`, and those that run out lose their pressed look.
    pub fn cooldown_step(&mut self, delta_ms: u64)
        requires
            old(self).wf(),
        ensures
            final(self).wf(),
            final(self).graph_spec() == old(self).graph_spec(),
            final(self).machine_spec() == old(self).machine_spec(),
            same_choices(*final(self), *old(self)),
            match old(self).screen_spec() {
                Some(s0) => final(self).screen_spec() matches Some(s) && {
                    &&& s.actions() == s0.actions()
                    &&& s.labels() == s0.labels()
                    &&& s.buttons_spec().len() == s0.buttons_spec().len()
                    &&& forall|i: int| #![trigger s.buttons_spec()[i]]
                        0 <= i < s.buttons_spec().len() ==> {
                            &&& s.buttons_spec()[i].id == s0.buttons_spec()[i].id
                            &&& s.buttons_spec()[i].highlighted == s0.buttons_spec()[i].highlighted
                            &&& (s.buttons_spec()[i].cooldown is None)
                                == (s0.buttons_spec()[i].after_tick(delta_ms as nat).cooldown is None)
                        }
                },
                None => final(self).screen_spec() is None,
            },
    {
        match &mut self.screen {
            Some(s) => s.tick_cooldowns(delta_ms),
            None => {},
        }
    }

    /// One frame: the arrow keys move focus, the activate key activates the
    /// button now focused, the highlight and cooldown steps run, and the
    /// frame ends at the commit point, whose transition is returned.
    pub fn update(&mut self, input: FrameInput, delta_ms: u64) -> (r: Option<Transition>)
        requires
            old(self).wf(),
        ensures
            final(self).wf(),
            ({
                let a = old(self).action_at(old(self).focus_after_keys(input.up, input.down));
                let acted = input.activate && a is Some;
                let pending = if acted {
                    request_after(a->Some_0, old(self).machine_spec().pending_spec())
                } else {
                    old(self).machine_spec().pending_spec()
                };
                &&& final(self).machine_spec().current_spec()
                    == committed_state(old(self).machine_spec().current_spec(), pending)
                &&& final(self).selected_area_spec() == (if acted && a->Some_0 is SelectArea {
                    a->Some_0->SelectArea_0
                } else {
                    old(self).selected_area_spec()
                })
                &&& final(self).exit_spec() == (old(self).exit_spec() || (acted && a->Some_0 == ButtonAction::Exit))
            }),
            final(self).focus_visible_spec() == old(self).focus_visible_spec(),
            r matches Some(t) ==> t.from == old(self).machine_spec().current_spec()
                && t.to == final(self).machine_spec().current_spec() && t.from != t.to,
            r is None ==> final(self).machine_spec().current_spec() == old(self).machine_spec().current_spec(),
            r is None ==> ({
                let f = old(self).focus_after_keys(input.up, input.down);
                &&& final(self).graph_spec().focus_spec() == f
                &&& match old(self).screen_spec() {
                    Some(s0) => final(self).screen_spec() matches Some(s) && {
                        let pos = if input.activate && f is Some { s0.position_of(f->Some_0) } else { None };
                        let pressed = pressed_at(s0.buttons_spec(), pos);
                        &&& s.labels() == s0.labels()
                        &&& s.actions() == s0.actions()
                        &&& s.buttons_spec().len() == s0.buttons_spec().len()
                        &&& forall|j: int| #![trigger s.buttons_spec()[j]]
                            0 <= j < s.buttons_spec().len() ==> {
                                &&& s.buttons_spec()[j].highlighted
                                    == (old(self).focus_visible_spec() && f == Some(s.buttons_spec()[j].id))
                                &&& (s.buttons_spec()[j].cooldown is None)
                                    == (pressed[j].after_tick(delta_ms as nat).cooldown is None)
                            }
                    },
                    None => final(self).screen_spec() is None,
                }
            }),
            r matches Some(t) ==> match screen_of(t.to) {
                Some(k) => final(self).screen_spec() matches Some(s) && {
                    &&& s.kind_spec() == k
                    &&& s.labels() == k.labels_spec()
                    &&& s.actions() == k.actions_spec()
                    &&& final(self).graph_spec().focus_spec() == Some(s.button_ids()[0])
                },
                None => final(self).screen_spec() is None,
            },
    {
        self.navigate_keys(input.up, input.down);
        if input.activate {
            self.interact_with_focused_button();
        }
        self.highlight_step();
        self.cooldown_step(delta_ms);
        self.commit()
    }
}

/// `buttons` once the button at `pos`, if any, has been pressed: it carries a
/// fresh press countdown.
pub open spec fn pressed_at(buttons: Seq<MenuButton>, pos: Option<int>) -> Seq<MenuButton> {
    match pos {
        Some(i) => buttons.update(i, MenuButton {
            cooldown: Some(ResetTimer::new_spec(PRESS_COOLDOWN_MS as nat)),
            ..buttons[i]
        }),
        None => buttons,
    }
}

/// Activating a button whose action is `NavigateTo(s)` makes `s` the current
/// state at the next commit point, whatever was current or requested before.
pub proof fn lemma_navigate_to_commits(current: State, pending: Option<State>, s: State)
    ensures
        committed_state(current, request_after(ButtonAction::NavigateTo(s), pending)) == s,
{
}

} // verus!
