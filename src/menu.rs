//! The three menu screens: their buttons, how they are built, and how they are torn down.
use bevy::math::CompassOctant;
use crate::area::{all_areas_spec, Area};
use crate::button::{
    BUTTON_BORDER_PX, BUTTON_HEIGHT_PX, BUTTON_WIDTH_PX,
    get_button_bundle, highlight_focused_element, reset_button_after_interaction, ButtonAction, MenuButton, ResetTimer,
    PRESS_COOLDOWN_MS,
};
use crate::nav::{cycle_over, same_outside, without_element, FocusGraph};
use crate::state::State;
use vstd::prelude::*;

verus! {

/// Elements of a screen that are not buttons: its camera, its root node and its grid.
pub const FIRST_BUTTON_ID: u32 = 3;

/// Which screen a set of elements belongs to.
#[derive(Clone, Copy, Debug, PartialEq, Eq, Structural)]
pub enum ScreenKind {
    MainMenu,
    Options,
    Areas,
}

impl ScreenKind {
    /// The labels of the screen's buttons, top to bottom.
    pub open spec fn labels_spec(self) -> Seq<Seq<char>> {
        match self {
            ScreenKind::MainMenu => main_menu_labels(),
            ScreenKind::Options => options_labels(),
            ScreenKind::Areas => areas_labels(),
        }
    }

    /// The actions of the screen's buttons, top to bottom.
    pub open spec fn actions_spec(self) -> Seq<ButtonAction> {
        match self {
            ScreenKind::MainMenu => main_menu_actions(),
            ScreenKind::Options => options_actions(),
            ScreenKind::Areas => areas_actions(),
        }
    }
}

/// The screen shown in `s`, if `s` has one.
pub open spec fn screen_of(s: State) -> Option<ScreenKind> {
    match s {
        State::MainMenu => Some(ScreenKind::MainMenu),
        State::OptionsMenu => Some(ScreenKind::Options),
        State::ChooseArea => Some(ScreenKind::Areas),
        _ => None,
    }
}

/// Play, Choose Area, Options, Exit.
pub open spec fn main_menu_actions() -> Seq<ButtonAction> {
    seq![
        ButtonAction::NavigateTo(State::Playing),
        ButtonAction::NavigateTo(State::ChooseArea),
        ButtonAction::NavigateTo(State::OptionsMenu),
        ButtonAction::Exit,
    ]
}

/// The labels of the main menu, top to bottom.
pub open spec fn main_menu_labels() -> Seq<Seq<char>> {
    seq!["Play"@, "Choose Area"@, "Options"@, "Exit"@]
}

/// The labels of the options menu, top to bottom.
pub open spec fn options_labels() -> Seq<Seq<char>> {
    seq!["Option 1"@, "Option 2"@, "Main Menu"@]
}

/// The labels of the area menu: each area's name, then Main Menu.
pub open spec fn areas_labels() -> Seq<Seq<char>> {
    all_areas_spec().map_values(|a: Area| a.label_spec()).push("Main Menu"@)
}

/// Option 1, Option 2, Main Menu.
pub open spec fn options_actions() -> Seq<ButtonAction> {
    seq![
        ButtonAction::NavigateTo(State::Playing),
        ButtonAction::NavigateTo(State::OptionsMenu),
        ButtonAction::NavigateTo(State::MainMenu),
    ]
}

/// One button per area, then Main Menu.
pub open spec fn areas_actions() -> Seq<ButtonAction> {
    all_areas_spec().map_values(|a: Area| ButtonAction::SelectArea(a)).push(ButtonAction::NavigateTo(State::MainMenu))
}

/// The elements of one active screen: all of them, for teardown, and its
/// buttons in their vertical order.
pub struct MenuScreen {
    kind: ScreenKind,
    entities: Vec<u32>,
    buttons: Vec<MenuButton>,
}

impl MenuScreen {
    pub closed spec fn kind_spec(&self) -> ScreenKind {
        self.kind
    }

    /// Every element the screen owns.
    pub closed spec fn entities_spec(&self) -> Seq<u32> {
        self.entities@
    }

    /// The buttons, top to bottom.
    pub closed spec fn buttons_spec(&self) -> Seq<MenuButton> {
        self.buttons@
    }

    /// The elements of the buttons, top to bottom.
    pub open spec fn button_ids(&self) -> Seq<u32> {
        self.buttons_spec().map_values(|b: MenuButton| b.id)
    }

    /// The labels of the buttons, top to bottom.
    pub open spec fn labels(&self) -> Seq<Seq<char>> {
        self.buttons_spec().map_values(|b: MenuButton| b.label@)
    }

    /// The actions of the buttons, top to bottom.
    pub open spec fn actions(&self) -> Seq<ButtonAction> {
        self.buttons_spec().map_values(|b: MenuButton| b.action)
    }

    /// At least one button, with distinct elements, all owned by the screen,
    /// and well-formed countdowns.
    pub open spec fn wf(&self) -> bool {
        &&& self.buttons_spec().len() >= 1
        &&& self.button_ids().no_duplicates()
        &&& forall|i: int| 0 <= i < self.buttons_spec().len() ==> self.entities_spec().contains(#[trigger] self.buttons_spec()[i].id)
        &&& forall|i: int| 0 <= i < self.buttons_spec().len() ==> (#[trigger] self.buttons_spec()[i]).wf()
    }

    /// The screen's buttons form a vertical cycle in `g`, and focus is on one of them.
    pub open spec fn live_in(&self, g: FocusGraph) -> bool {
        &&& cycle_over(g.edges(), self.button_ids(), CompassOctant::South)
        &&& g.focus_spec() matches Some(f) && self.button_ids().contains(f)
    }

    /// The position of the button on element `id`, if one is.
    pub open spec fn position_of(&self, id: u32) -> Option<int> {
        if exists|i: int| 0 <= i < self.buttons_spec().len() && self.buttons_spec()[i].id == id {
            Some(choose|i: int| 0 <= i < self.buttons_spec().len() && self.buttons_spec()[i].id == id)
        } else {
            None
        }
    }

    /// Finds the position of the button on element `id`.
    pub fn find_button(&self, id: u32) -> (r: Option<usize>)
        requires
            self.wf(),
        ensures
            r matches Some(i) ==> self.position_of(id) == Some(i as int) && i < self.buttons_spec().len(),
            r is None ==> self.position_of(id) is None,
    {
        let mut i: usize = 0;
        while i < self.buttons.len()
            invariant
                self.wf(),
                0 <= i <= self.buttons@.len(),
                forall|j: int| 0 <= j < i ==> (#[trigger] self.buttons@[j]).id != id,
            decreases self.buttons@.len() - i,
        {
            if self.buttons[i].id == id {
                proof {
                    assert(self.buttons_spec()[i as int].id == id);
                    let k = choose|k: int| 0 <= k < self.buttons_spec().len() && self.buttons_spec()[k].id == id;
                    assert(self.button_ids().len() == self.buttons_spec().len());
                    assert(self.button_ids()[k] == self.buttons_spec()[k].id);
                    assert(self.button_ids()[i as int] == self.buttons_spec()[i as int].id);
                    assert(k == i as int);
                }
                return Some(i);
            }
            i = i + 1;
        }
        None
    }

    /// Shows the button at position `i` as pressed, for the press cooldown.
    pub fn press(&mut self, i: usize)
        requires
            old(self).wf(),
            i < old(self).buttons_spec().len(),
        ensures
            final(self).wf(),
            final(self).kind_spec() == old(self).kind_spec(),
            final(self).entities_spec() == old(self).entities_spec(),
            final(self).buttons_spec() == old(self).buttons_spec().update(i as int, MenuButton {
                cooldown: Some(ResetTimer::new_spec(PRESS_COOLDOWN_MS as nat)),
                ..old(self).buttons_spec()[i as int]
            }),
    {
        let mut b = self.buttons[i];
        b.cooldown = Some(ResetTimer::new(PRESS_COOLDOWN_MS));
        self.buttons.set(i, b);
        proof {
            assert(self.button_ids() =~= old(self).button_ids());
            assert forall|j: int| 0 <= j < self.buttons_spec().len() implies self.entities_spec().contains(#[trigger] self.buttons_spec()[j].id) by {
                assert(self.buttons_spec()[j].id == old(self).buttons_spec()[j].id);
            };
        }
    }

    /// The highlight step: only the focused button is highlighted, and only
    /// while focus is shown.
    pub fn highlight(&mut self, focus: Option<u32>, focus_visible: bool)
        requires
            old(self).wf(),
        ensures
            final(self).wf(),
            final(self).kind_spec() == old(self).kind_spec(),
            final(self).entities_spec() == old(self).entities_spec(),
            final(self).button_ids() == old(self).button_ids(),
            final(self).actions() == old(self).actions(),
            final(self).labels() == old(self).labels(),
            final(self).buttons_spec().len() == old(self).buttons_spec().len(),
            forall|i: int| #![trigger final(self).buttons_spec()[i]]
                0 <= i < old(self).buttons_spec().len() ==> final(self).buttons_spec()[i] == (MenuButton {
                    highlighted: focus_visible && focus == Some(old(self).buttons_spec()[i].id),
                    ..old(self).buttons_spec()[i]
                }),
    {
        highlight_focused_element(&mut self.buttons, focus, focus_visible);
        proof {
            assert(self.button_ids() =~= old(self).button_ids());
            assert(self.actions() =~= old(self).actions());
            assert(self.labels() =~= old(self).labels());
            assert forall|j: int| 0 <= j < self.buttons_spec().len() implies self.entities_spec().contains(#[trigger] self.buttons_spec()[j].id) by {
                assert(self.buttons_spec()[j].id == old(self).buttons_spec()[j].id);
            };
            assert forall|j: int| 0 <= j < self.buttons_spec().len() implies (#[trigger] self.buttons_spec()[j]).wf() by {
                assert(old(self).buttons_spec()[j].wf());
            };
        }
    }

    /// The cooldown step: every pressed button's countdown advances by
    /// `delta_ms`, and those that run out lose their pressed look.
    pub fn tick_cooldowns(&mut self, delta_ms: u64)
        requires
            old(self).wf(),
        ensures
            final(self).wf(),
            final(self).kind_spec() == old(self).kind_spec(),
            final(self).entities_spec() == old(self).entities_spec(),
            final(self).button_ids() == old(self).button_ids(),
            final(self).actions() == old(self).actions(),
            final(self).labels() == old(self).labels(),
            final(self).buttons_spec().len() == old(self).buttons_spec().len(),
            forall|i: int| #![trigger final(self).buttons_spec()[i]]
                0 <= i < old(self).buttons_spec().len() ==> {
                    &&& final(self).buttons_spec()[i].id == old(self).buttons_spec()[i].id
                    &&& final(self).buttons_spec()[i].label == old(self).buttons_spec()[i].label
                    &&& final(self).buttons_spec()[i].highlighted == old(self).buttons_spec()[i].highlighted
                    &&& (final(self).buttons_spec()[i].cooldown is None)
                        == (old(self).buttons_spec()[i].after_tick(delta_ms as nat).cooldown is None)
                },
    {
        reset_button_after_interaction(&mut self.buttons, delta_ms);
        proof {
            assert(self.button_ids() =~= old(self).button_ids());
            assert(self.actions() =~= old(self).actions());
            assert(self.labels() =~= old(self).labels());
            assert forall|j: int| 0 <= j < self.buttons_spec().len() implies self.entities_spec().contains(#[trigger] self.buttons_spec()[j].id) by {
                assert(self.buttons_spec()[j].id == old(self).buttons_spec()[j].id);
            };
        }
    }

    /// The kind of screen.
    pub fn kind(&self) -> (r: ScreenKind)
        ensures
            r == self.kind_spec(),
    {
        self.kind
    }

    /// The buttons, top to bottom.
    pub fn buttons(&self) -> (r: &Vec<MenuButton>)
        ensures
            r@ == self.buttons_spec(),
    {
        &self.buttons
    }

    /// Every element the screen owns.
    pub fn entities(&self) -> (r: &Vec<u32>)
        ensures
            r@ == self.entities_spec(),
    {
        &self.entities
    }
}

/// `r` is a screen of `kind` just built with buttons labelled `labels` and
/// doing `actions`, top to bottom: its elements are the camera, root and grid, then the buttons; the
/// buttons are linked into a vertical cycle, focus is on the first of them,
/// and none is highlighted or pressed. No other edge of the graph changed,
/// except that a lone button is first taken out of the graph.
pub open spec fn freshly_built(
    r: MenuScreen,
    kind: ScreenKind,
    labels: Seq<Seq<char>>,
    actions: Seq<ButtonAction>,
    before: FocusGraph,
    after: FocusGraph,
) -> bool {
    &&& r.kind_spec() == kind
    &&& r.wf()
    &&& r.labels() == labels
    &&& r.actions() == actions
    &&& r.live_in(after)
    &&& after.focus_spec() == Some(r.button_ids()[0])
    &&& r.button_ids().len() >= 2 ==> same_outside(after.edges(), before.edges(), r.button_ids(), CompassOctant::South)
    &&& r.button_ids().len() == 1 ==> after.edges() == without_element(before.edges(), r.button_ids()[0])
    &&& r.entities_spec() == seq![0u32, 1u32, 2u32] + r.button_ids()
    &&& forall|i: int| #![trigger r.buttons_spec()[i]]
        0 <= i < r.buttons_spec().len() ==> {
            &&& r.buttons_spec()[i].id == FIRST_BUTTON_ID + i
            &&& r.buttons_spec()[i].width_px == BUTTON_WIDTH_PX
            &&& r.buttons_spec()[i].height_px == BUTTON_HEIGHT_PX
            &&& r.buttons_spec()[i].border_px == BUTTON_BORDER_PX
            &&& !r.buttons_spec()[i].highlighted
            &&& r.buttons_spec()[i].cooldown is None
        }
}

/// Builds a screen of `kind` whose buttons carry `entries` (label and action),
/// top to bottom, links them into a vertical cycle and focuses the first.
pub fn build_screen(kind: ScreenKind, entries: &Vec<(&'static str, ButtonAction)>, graph: &mut FocusGraph) -> (r: MenuScreen)
    requires
        1 <= entries@.len() <= 1000,
    ensures
        freshly_built(
            r,
            kind,
            entries@.map_values(|e: (&'static str, ButtonAction)| e.0@),
            entries@.map_values(|e: (&'static str, ButtonAction)| e.1),
            *old(graph),
            *final(graph),
        ),
{
    let mut entities: Vec<u32> = vec![0, 1, 2];
    let mut buttons: Vec<MenuButton> = Vec::new();
    let mut ids: Vec<u32> = Vec::new();
    let mut i: usize = 0;
    while i < entries.len()
        invariant
            0 <= i <= entries@.len() <= 1000,
            buttons@.len() == i,
            ids@.len() == i,
            entities@ == seq![0u32, 1u32, 2u32] + ids@,
            forall|j: int| #![trigger buttons@[j]]
                0 <= j < i ==> {
                    &&& buttons@[j].id == FIRST_BUTTON_ID + j
                    &&& ids@[j] == buttons@[j].id
                    &&& buttons@[j].label == entries@[j].0
                    &&& buttons@[j].action == entries@[j].1
                    &&& buttons@[j].width_px == BUTTON_WIDTH_PX
                    &&& buttons@[j].height_px == BUTTON_HEIGHT_PX
                    &&& buttons@[j].border_px == BUTTON_BORDER_PX
                    &&& !buttons@[j].highlighted
                    &&& buttons@[j].cooldown is None
                },
        decreases entries@.len() - i,
    {
        let id: u32 = FIRST_BUTTON_ID + i as u32;
        let (label, action) = entries[i];
        buttons.push(get_button_bundle(id, label, action));
        ids.push(id);
        entities.push(id);
        i = i + 1;
        proof {
            assert(entities@ =~= seq![0u32, 1u32, 2u32] + ids@);
        }
    }
    let r = MenuScreen { kind, entities, buttons };
    assert(ids@ =~= r.button_ids());
    assert(r.actions() =~= entries@.map_values(|e: (&'static str, ButtonAction)| e.1));
    assert(r.labels() =~= entries@.map_values(|e: (&'static str, ButtonAction)| e.0@));
    assert(ids@.no_duplicates());
    if ids.len() == 1 {
        graph.remove(ids[0]);
    }
    graph.add_looping_edges(&ids, CompassOctant::South);
    graph.set_focus(ids[0]);
    proof {
        assert forall|j: int| 0 <= j < r.buttons_spec().len() implies r.entities_spec().contains(#[trigger] r.buttons_spec()[j].id) by {
            assert(r.entities_spec()[j + 3] == ids@[j]);
        };
        assert(r.button_ids().contains(ids@[0]));
    }
    r
}

/// `after` is `before` with every element of `ents` taken out: the edges left
/// are those of `before` that neither leave nor reach such an element, and
/// focus is dropped if it was on one.
pub open spec fn despawned(after: FocusGraph, before: FocusGraph, ents: Seq<u32>) -> bool {
    &&& forall|k: (u32, u8)| #[trigger] after.edges().dom().contains(k) <==> {
        &&& before.edges().dom().contains(k)
        &&& !ents.contains(k.0)
        &&& !ents.contains(before.edges()[k])
    }
    &&& forall|k: (u32, u8)| #[trigger] after.edges().dom().contains(k) ==> after.edges()[k] == before.edges()[k]
    &&& after.focus_spec() == (match before.focus_spec() {
        Some(f) => if ents.contains(f) { None } else { Some(f) },
        None => None,
    })
}

/// Despawns every element of `screen`: each leaves the graph with all its
/// edges, and focus is dropped if one of them held it.
pub fn despawn_screen(screen: MenuScreen, graph: &mut FocusGraph)
    ensures
        despawned(*final(graph), *old(graph), screen.entities_spec()),
        forall|k: (u32, u8)| #[trigger] final(graph).edges().dom().contains(k) ==> {
            &&& !screen.entities_spec().contains(k.0)
            &&& !screen.entities_spec().contains(final(graph).edges()[k])
        },
        final(graph).focus_spec() matches Some(f) ==> !screen.entities_spec().contains(f),
{
    let ghost ents = screen.entities_spec();
    let mut i: usize = 0;
    while i < screen.entities.len()
        invariant
            0 <= i <= ents.len(),
            ents == screen.entities@,
            forall|k: (u32, u8)| #[trigger] graph.edges().dom().contains(k) <==> {
                &&& old(graph).edges().dom().contains(k)
                &&& !ents.take(i as int).contains(k.0)
                &&& !ents.take(i as int).contains(old(graph).edges()[k])
            },
            forall|k: (u32, u8)| #[trigger] graph.edges().dom().contains(k) ==> graph.edges()[k] == old(graph).edges()[k],
            graph.focus_spec() == (match old(graph).focus_spec() {
                Some(f) => if ents.take(i as int).contains(f) { None } else { Some(f) },
                None => None,
            }),
        decreases ents.len() - i,
    {
        let id = screen.entities[i];
        let ghost before = *graph;
        graph.remove(id);
        proof {
            let prev = ents.take(i as int);
            let next = ents.take(i + 1);
            assert(next =~= prev.push(id));
            assert forall|x: u32| #[trigger] next.contains(x) == (prev.contains(x) || x == id) by {
                if x == id {
                    assert(next[i as int] == id);
                }
                if prev.contains(x) {
                    let j = choose|j: int| 0 <= j < prev.len() && prev[j] == x;
                    assert(next[j] == x);
                }
                if next.contains(x) && x != id {
                    let j = choose|j: int| 0 <= j < next.len() && next[j] == x;
                    assert(j < i);
                    assert(prev[j] == x);
                }
            };
            assert forall|k: (u32, u8)| #[trigger] graph.edges().dom().contains(k) <==> {
                &&& old(graph).edges().dom().contains(k)
                &&& !next.contains(k.0)
                &&& !next.contains(old(graph).edges()[k])
            } by {
                if before.edges().dom().contains(k) {
                    assert(before.edges()[k] == old(graph).edges()[k]);
                }
            };
        }
        i = i + 1;
    }
    proof {
        assert(ents.take(ents.len() as int) =~= ents);
    }
}

/// Marks the main menu: Play, Choose Area, Options, Exit.
pub struct MainMenu;

/// Marks the options menu: Option 1, Option 2, Main Menu.
pub struct Options;

/// Marks the area menu: one button per area, then Main Menu.
pub struct Areas;

impl MainMenu {
    /// Builds the main menu and focuses Play.
    pub fn setup_ui(graph: &mut FocusGraph) -> (r: MenuScreen)
        ensures
            freshly_built(r, ScreenKind::MainMenu, main_menu_labels(), main_menu_actions(), *old(graph), *final(graph)),
    {
        let entries: Vec<(&'static str, ButtonAction)> = vec![
            ("Play", ButtonAction::NavigateTo(State::Playing)),
            ("Choose Area", ButtonAction::NavigateTo(State::ChooseArea)),
            ("Options", ButtonAction::NavigateTo(State::OptionsMenu)),
            ("Exit", ButtonAction::Exit),
        ];
        assert(entries@.map_values(|e: (&'static str, ButtonAction)| e.1) =~= main_menu_actions());
        assert(entries@.map_values(|e: (&'static str, ButtonAction)| e.0@) =~= main_menu_labels());
        build_screen(ScreenKind::MainMenu, &entries, graph)
    }
}

impl Options {
    /// Builds the options menu and focuses Option 1.
    pub fn setup_ui(graph: &mut FocusGraph) -> (r: MenuScreen)
        ensures
            freshly_built(r, ScreenKind::Options, options_labels(), options_actions(), *old(graph), *final(graph)),
    {
        let entries: Vec<(&'static str, ButtonAction)> = vec![
            ("Option 1", ButtonAction::NavigateTo(State::Playing)),
            ("Option 2", ButtonAction::NavigateTo(State::OptionsMenu)),
            ("Main Menu", ButtonAction::NavigateTo(State::MainMenu)),
        ];
        assert(entries@.map_values(|e: (&'static str, ButtonAction)| e.1) =~= options_actions());
        assert(entries@.map_values(|e: (&'static str, ButtonAction)| e.0@) =~= options_labels());
        build_screen(ScreenKind::Options, &entries, graph)
    }
}

impl Areas {
    /// Builds the area menu and focuses the first area.
    pub fn setup_ui(graph: &mut FocusGraph) -> (r: MenuScreen)
        ensures
            freshly_built(r, ScreenKind::Areas, areas_labels(), areas_actions(), *old(graph), *final(graph)),
    {
        let areas = Area::all();
        let mut entries: Vec<(&'static str, ButtonAction)> = Vec::new();
        let mut i: usize = 0;
        while i < areas.len()
            invariant
                areas@ == all_areas_spec(),
                0 <= i <= areas@.len(),
                entries@.len() == i,
                forall|j: int| 0 <= j < i ==> (#[trigger] entries@[j]).1 == ButtonAction::SelectArea(areas@[j]),
                forall|j: int| 0 <= j < i ==> (#[trigger] entries@[j]).0@ == areas@[j].label_spec(),
            decreases areas@.len() - i,
        {
            let a = areas[i];
            entries.push((a.label(), ButtonAction::SelectArea(a)));
            i = i + 1;
        }
        entries.push(("Main Menu", ButtonAction::NavigateTo(State::MainMenu)));
        assert(entries@.map_values(|e: (&'static str, ButtonAction)| e.1) =~= areas_actions());
        assert(entries@.map_values(|e: (&'static str, ButtonAction)| e.0@) =~= areas_labels());
        build_screen(ScreenKind::Areas, &entries, graph)
    }
}

/// Builds the screen of `kind`.
pub fn setup_screen(kind: ScreenKind, graph: &mut FocusGraph) -> (r: MenuScreen)
    ensures
        freshly_built(r, kind, kind.labels_spec(), kind.actions_spec(), *old(graph), *final(graph)),
{
    match kind {
        ScreenKind::MainMenu => MainMenu::setup_ui(graph),
        ScreenKind::Options => Options::setup_ui(graph),
        ScreenKind::Areas => Areas::setup_ui(graph),
    }
}

} // verus!
