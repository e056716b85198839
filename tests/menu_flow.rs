use cat_game::area::Area;
use cat_game::button::{
    BUTTON_BORDER_PX, BUTTON_HEIGHT_PX, BUTTON_WIDTH_PX,
    get_button_bundle, highlight_focused_element, reset_button_after_interaction, ButtonAction, ResetTimer,
    PRESS_COOLDOWN_MS,
};
use cat_game::game::{FrameInput, Game};
use cat_game::loading::LoadingState;
use cat_game::menu::{build_screen, despawn_screen, Areas, MainMenu, Options, ScreenKind};
use bevy::math::CompassOctant;
use cat_game::nav::{navigate, FocusGraph, NoFocusError};
use cat_game::state::{State, StateMachine, Transition};

const NONE: FrameInput = FrameInput { up: false, down: false, activate: false };
const UP: FrameInput = FrameInput { up: true, down: false, activate: false };
const DOWN: FrameInput = FrameInput { up: false, down: true, activate: false };
const SPACE: FrameInput = FrameInput { up: false, down: false, activate: true };

fn focused_label(game: &Game) -> &'static str {
    let screen = game.screen().as_ref().expect("a menu screen is active");
    let focus = game.focused().expect("a button holds focus");
    screen.buttons().iter().find(|b| b.id == focus).expect("focus is on a button").label
}

fn labels(game: &Game) -> Vec<&'static str> {
    game.screen().as_ref().unwrap().buttons().iter().map(|b| b.label).collect()
}

fn game_in_main_menu() -> Game {
    let mut game = Game::new();
    assert_eq!(game.commit(), Some(Transition { from: State::Loading, to: State::MainMenu }));
    game
}

fn game_in_options_menu() -> Game {
    let mut game = game_in_main_menu();
    game.update(DOWN, 16);
    game.update(DOWN, 16);
    assert_eq!(focused_label(&game), "Options");
    game.update(SPACE, 16);
    assert_eq!(game.current(), State::OptionsMenu);
    game
}

#[test]
fn starts_loading_and_hands_over_to_main_menu() {
    let mut game = Game::new();
    assert_eq!(game.current(), State::Loading);
    assert_eq!(game.pending(), Some(State::MainMenu));
    assert!(game.screen().is_none());
    assert_eq!(game.commit(), Some(Transition { from: State::Loading, to: State::MainMenu }));
    assert_eq!(game.current(), State::MainMenu);
    assert_eq!(game.pending(), None);
    assert_eq!(labels(&game), vec!["Play", "Choose Area", "Options", "Exit"]);
}

#[test]
fn space_on_play_enters_playing() {
    let mut game = game_in_main_menu();
    assert_eq!(focused_label(&game), "Play");
    let t = game.update(SPACE, 16);
    assert_eq!(t, Some(Transition { from: State::MainMenu, to: State::Playing }));
    assert_eq!(game.current(), State::Playing);
    assert!(game.screen().is_none());
    assert_eq!(game.focused(), None);
}

#[test]
fn down_then_space_chooses_area_then_cave_plays() {
    let mut game = game_in_main_menu();
    game.update(DOWN, 16);
    assert_eq!(focused_label(&game), "Choose Area");
    game.update(SPACE, 16);
    assert_eq!(game.current(), State::ChooseArea);
    assert_eq!(labels(&game), vec!["Cave", "Main Menu"]);
    assert_eq!(focused_label(&game), "Cave");
    game.update(SPACE, 16);
    assert_eq!(game.selected_area(), Area::Cave);
    assert_eq!(game.current(), State::Playing);
}

#[test]
fn options_main_menu_button_returns_and_despawns_options() {
    let mut game = game_in_options_menu();
    assert_eq!(labels(&game), vec!["Option 1", "Option 2", "Main Menu"]);
    assert_eq!(focused_label(&game), "Option 1");
    game.update(UP, 16);
    assert_eq!(focused_label(&game), "Main Menu");
    game.update(SPACE, 16);
    assert_eq!(game.current(), State::MainMenu);
    let screen = game.screen().as_ref().unwrap();
    assert_eq!(screen.kind(), ScreenKind::MainMenu);
    assert_eq!(focused_label(&game), "Play");
}

#[test]
fn option_two_requests_its_own_state_without_a_transition() {
    let mut game = game_in_options_menu();
    game.update(DOWN, 16);
    assert_eq!(focused_label(&game), "Option 2");
    let t = game.update(SPACE, 16);
    assert_eq!(t, None);
    assert_eq!(game.current(), State::OptionsMenu);
    assert_eq!(focused_label(&game), "Option 2");
}

#[test]
fn exit_button_requests_exit_and_keeps_state() {
    let mut game = game_in_main_menu();
    game.update(UP, 16);
    assert_eq!(focused_label(&game), "Exit");
    assert!(!game.exit_requested());
    let t = game.update(SPACE, 16);
    assert_eq!(t, None);
    assert!(game.exit_requested());
    assert_eq!(game.current(), State::MainMenu);
}

#[test]
fn focus_cycles_back_after_one_round_south() {
    let mut game = game_in_main_menu();
    let start = game.focused();
    let mut seen = Vec::new();
    for _ in 0..4 {
        game.update(DOWN, 16);
        seen.push(focused_label(&game));
    }
    assert_eq!(seen, vec!["Choose Area", "Options", "Exit", "Play"]);
    assert_eq!(game.focused(), start);
}

#[test]
fn focus_cycles_back_after_one_round_north() {
    let mut game = game_in_options_menu();
    let start = game.focused();
    for _ in 0..3 {
        game.update(UP, 16);
    }
    assert_eq!(game.focused(), start);
}

#[test]
fn exactly_the_first_button_is_focused_and_highlighted_at_construction() {
    let mut game = game_in_main_menu();
    game.update(NONE, 16);
    let screen = game.screen().as_ref().unwrap();
    let highlighted: Vec<&str> = screen.buttons().iter().filter(|b| b.highlighted).map(|b| b.label).collect();
    assert_eq!(highlighted, vec!["Play"]);
    assert_eq!(game.focused(), Some(screen.buttons()[0].id));
}

#[test]
fn hidden_focus_highlights_nothing() {
    let mut game = game_in_main_menu();
    game.set_focus_visible(false);
    game.update(NONE, 16);
    let screen = game.screen().as_ref().unwrap();
    assert!(screen.buttons().iter().all(|b| !b.highlighted));
}

#[test]
fn every_screen_starts_on_its_first_button() {
    for build in [MainMenu::setup_ui, Options::setup_ui, Areas::setup_ui] {
        let mut graph = FocusGraph::new();
        let screen = build(&mut graph);
        assert_eq!(graph.focused(), Some(screen.buttons()[0].id));
        assert_eq!(screen.entities().len(), screen.buttons().len() + 3);
    }
}

#[test]
fn screen_actions_follow_the_table() {
    let mut graph = FocusGraph::new();
    let main: Vec<ButtonAction> = MainMenu::setup_ui(&mut graph).buttons().iter().map(|b| b.action).collect();
    assert_eq!(main, vec![
        ButtonAction::NavigateTo(State::Playing),
        ButtonAction::NavigateTo(State::ChooseArea),
        ButtonAction::NavigateTo(State::OptionsMenu),
        ButtonAction::Exit,
    ]);
    let mut graph = FocusGraph::new();
    let areas: Vec<ButtonAction> = Areas::setup_ui(&mut graph).buttons().iter().map(|b| b.action).collect();
    assert_eq!(areas, vec![ButtonAction::SelectArea(Area::Cave), ButtonAction::NavigateTo(State::MainMenu)]);
}

#[test]
fn teardown_removes_every_element_of_the_screen() {
    let mut graph = FocusGraph::new();
    let screen = Options::setup_ui(&mut graph);
    let ids: Vec<u32> = screen.buttons().iter().map(|b| b.id).collect();
    assert_eq!(graph.neighbor(ids[0], CompassOctant::South), Some(ids[1]));
    let entities = screen.entities().clone();
    despawn_screen(screen, &mut graph);
    assert_eq!(graph.focused(), None);
    for e in entities {
        for d in [CompassOctant::North, CompassOctant::South, CompassOctant::East, CompassOctant::West] {
            assert_eq!(graph.neighbor(e, d), None);
        }
    }
}

#[test]
fn looping_edges_link_both_ways() {
    let mut graph = FocusGraph::new();
    graph.add_looping_edges(&vec![10, 20, 30], CompassOctant::South);
    assert_eq!(graph.neighbor(10, CompassOctant::South), Some(20));
    assert_eq!(graph.neighbor(30, CompassOctant::South), Some(10));
    assert_eq!(graph.neighbor(10, CompassOctant::North), Some(30));
    assert_eq!(graph.neighbor(20, CompassOctant::North), Some(10));
    assert_eq!(graph.neighbor(20, CompassOctant::East), None);
}

#[test]
fn looping_edges_need_two_elements() {
    let mut graph = FocusGraph::new();
    graph.add_looping_edges(&vec![7], CompassOctant::South);
    assert_eq!(graph.neighbor(7, CompassOctant::South), None);
    graph.set_focus(7);
    assert_eq!(graph.navigate(CompassOctant::South), Ok(()));
    assert_eq!(graph.focused(), Some(7));
}

#[test]
fn removing_an_element_cuts_edges_to_it() {
    let mut graph = FocusGraph::new();
    graph.add_looping_edges(&vec![1, 2, 3], CompassOctant::South);
    graph.set_focus(2);
    graph.remove(2);
    assert_eq!(graph.focused(), None);
    assert_eq!(graph.neighbor(1, CompassOctant::South), None);
    assert_eq!(graph.neighbor(3, CompassOctant::North), None);
    assert_eq!(graph.neighbor(3, CompassOctant::South), Some(1));
}

#[test]
fn navigate_without_focus_fails() {
    let mut graph = FocusGraph::new();
    graph.add_looping_edges(&vec![1, 2], CompassOctant::South);
    assert_eq!(graph.navigate(CompassOctant::South), Err(NoFocusError));
    assert_eq!(navigate(&mut graph, false, true), Err(NoFocusError));
    assert_eq!(navigate(&mut graph, false, false), Ok(()));
}

#[test]
fn dead_end_keeps_focus() {
    let mut graph = FocusGraph::new();
    graph.add_looping_edges(&vec![1, 2], CompassOctant::South);
    graph.set_focus(1);
    assert_eq!(graph.navigate(CompassOctant::East), Ok(()));
    assert_eq!(graph.focused(), Some(1));
}

#[test]
fn arrow_keys_move_north_and_south() {
    let mut graph = FocusGraph::new();
    graph.add_looping_edges(&vec![1, 2, 3], CompassOctant::South);
    graph.set_focus(1);
    assert_eq!(navigate(&mut graph, false, true), Ok(()));
    assert_eq!(graph.focused(), Some(2));
    assert_eq!(navigate(&mut graph, true, true), Ok(()));
    assert_eq!(graph.focused(), Some(1));
    assert_eq!(navigate(&mut graph, true, false), Ok(()));
    assert_eq!(graph.focused(), Some(3));
}

#[test]
fn pressed_button_returns_to_normal_after_the_cooldown_and_not_before() {
    let mut game = game_in_options_menu();
    game.update(DOWN, 0);
    game.update(SPACE, 0);
    let pressed = |g: &Game| g.screen().as_ref().unwrap().buttons()[1].cooldown.is_some();
    assert!(pressed(&game));
    game.update(NONE, PRESS_COOLDOWN_MS - 1);
    assert!(pressed(&game));
    game.update(NONE, 1);
    assert!(!pressed(&game));
}

#[test]
fn timer_runs_once_and_saturates() {
    let mut t = ResetTimer::new(100);
    assert!(!t.finished());
    assert!(!t.tick(60));
    assert!(!t.finished());
    assert!(t.tick(60));
    assert!(t.finished());
    assert!(!t.tick(60));
    assert!(t.finished());
}

#[test]
fn timer_of_zero_length_finishes_on_first_tick() {
    let mut t = ResetTimer::new(0);
    assert!(t.finished());
    assert!(!t.tick(0));
}

#[test]
fn reset_step_clears_finished_countdowns_only() {
    let mut a = get_button_bundle(3, "A", ButtonAction::Exit);
    let mut b = get_button_bundle(4, "B", ButtonAction::Exit);
    a.cooldown = Some(ResetTimer::new(10));
    b.cooldown = Some(ResetTimer::new(50));
    let mut buttons = vec![a, b];
    reset_button_after_interaction(&mut buttons, 20);
    assert!(buttons[0].cooldown.is_none());
    assert!(buttons[1].cooldown.is_some());
}

#[test]
fn highlight_step_marks_the_focused_button() {
    let mut buttons = vec![
        get_button_bundle(3, "A", ButtonAction::Exit),
        get_button_bundle(4, "B", ButtonAction::Exit),
    ];
    highlight_focused_element(&mut buttons, Some(4), true);
    assert!(!buttons[0].highlighted);
    assert!(buttons[1].highlighted);
    highlight_focused_element(&mut buttons, Some(4), false);
    assert!(!buttons[1].highlighted);
}

#[test]
fn state_machine_commits_only_at_the_commit_point() {
    let mut m = StateMachine::new();
    m.request(State::OptionsMenu);
    m.request(State::Playing);
    assert_eq!(m.current(), State::Loading);
    assert_eq!(m.commit(), Some(Transition { from: State::Loading, to: State::Playing }));
    assert_eq!(m.current(), State::Playing);
    assert_eq!(m.commit(), None);
}

#[test]
fn request_for_the_current_state_is_a_no_op() {
    let mut m = StateMachine::starting_in(State::Paused);
    m.request(State::Paused);
    assert_eq!(m.commit(), None);
    assert_eq!(m.current(), State::Paused);
    assert_eq!(m.pending(), None);
}

#[test]
fn states_without_screens_ignore_keys() {
    let mut game = game_in_main_menu();
    game.update(SPACE, 16);
    assert_eq!(game.current(), State::Playing);
    assert_eq!(game.update(DOWN, 16), None);
    assert_eq!(game.update(SPACE, 16), None);
    assert_eq!(game.current(), State::Playing);
}

#[test]
fn area_list_and_labels() {
    assert_eq!(Area::all(), vec![Area::Cave]);
    assert_eq!(Area::Cave.label(), "Cave");
    assert_eq!(Area::default(), Area::Cave);
    assert_eq!(LoadingState::default(), LoadingState {});
}


#[test]
fn looping_edges_on_no_elements_add_nothing() {
    let mut graph = FocusGraph::new();
    graph.add_looping_edges(&vec![], CompassOctant::South);
    graph.add_looping_edges(&vec![4, 5], CompassOctant::East);
    assert_eq!(graph.neighbor(4, CompassOctant::East), Some(5));
    assert_eq!(graph.neighbor(5, CompassOctant::East), Some(4));
    assert_eq!(graph.neighbor(4, CompassOctant::West), Some(5));
    assert_eq!(graph.neighbor(4, CompassOctant::South), None);
}

#[test]
fn timer_takes_the_largest_tick() {
    let mut t = ResetTimer::new(u64::MAX);
    assert!(!t.tick(1));
    assert!(t.tick(u64::MAX));
    assert!(t.finished());
}

#[test]
fn update_without_keys_commits_pending_requests() {
    let mut game = Game::new();
    let t = game.update(NONE, 16);
    assert_eq!(t, Some(Transition { from: State::Loading, to: State::MainMenu }));
    assert_eq!(focused_label(&game), "Play");
}

#[test]
fn one_button_screen_is_a_dead_end() {
    let mut graph = FocusGraph::new();
    graph.add_looping_edges(&vec![3, 9], CompassOctant::South);
    let screen = build_screen(ScreenKind::Options, &vec![("Only", ButtonAction::Exit)], &mut graph);
    let id = screen.buttons()[0].id;
    assert_eq!(id, 3);
    assert_eq!(graph.focused(), Some(id));
    assert_eq!(graph.neighbor(id, CompassOctant::South), None);
    assert_eq!(graph.neighbor(9, CompassOctant::South), None);
    assert_eq!(navigate(&mut graph, false, true), Ok(()));
    assert_eq!(graph.focused(), Some(id));
}

#[test]
fn buttons_have_the_fixed_layout() {
    let b = get_button_bundle(3, "Play", ButtonAction::Exit);
    assert_eq!((b.width_px, b.height_px, b.border_px), (160, 60, 4));
    assert_eq!((BUTTON_WIDTH_PX, BUTTON_HEIGHT_PX, BUTTON_BORDER_PX), (160, 60, 4));
    let mut graph = FocusGraph::new();
    let screen = Areas::setup_ui(&mut graph);
    assert!(screen.buttons().iter().all(|b| b.width_px == 160 && b.height_px == 60 && b.border_px == 4));
}

#[test]
fn activation_starts_a_fresh_press_countdown() {
    let mut game = game_in_options_menu();
    game.update(DOWN, 0);
    game.update(SPACE, 0);
    let buttons = game.screen().as_ref().unwrap().buttons();
    assert_eq!(buttons[1].cooldown, Some(ResetTimer::new(PRESS_COOLDOWN_MS)));
    assert!(buttons[0].cooldown.is_none());
    assert!(buttons[2].cooldown.is_none());
    assert!(PRESS_COOLDOWN_MS > 0 && PRESS_COOLDOWN_MS < 1000);
}

#[test]
fn leaving_a_menu_for_the_scene_clears_focus_and_edges() {
    let mut game = game_in_main_menu();
    let ids: Vec<u32> = game.screen().as_ref().unwrap().buttons().iter().map(|b| b.id).collect();
    game.update(SPACE, 16);
    assert_eq!(game.current(), State::Playing);
    assert_eq!(game.focused(), None);
    for id in ids {
        assert_eq!(game.graph().neighbor(id, CompassOctant::South), None);
        assert_eq!(game.graph().neighbor(id, CompassOctant::North), None);
    }
}
