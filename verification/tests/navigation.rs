use dsh_frontend::input::InputAction;
use dsh_frontend::navigation::{navigation_step, SceneChange};
use dsh_frontend::pixel_ui::{CurrentScene, NavigationState, Scene};

fn run(actions: &[InputAction]) -> (CurrentScene, NavigationState) {
    let mut scene = CurrentScene::default();
    let mut nav = NavigationState::default();
    for action in actions {
        navigation_step(&mut scene, &mut nav, *action);
    }
    (scene, nav)
}

#[test]
fn title_enter_opens_main_menu() {
    let mut scene = CurrentScene::default();
    let mut nav = NavigationState::default();
    let change = navigation_step(&mut scene, &mut nav, InputAction::Select);
    assert_eq!(change, SceneChange::Switch(Scene::MainMenu));
    assert_eq!(scene.scene, Scene::MainMenu);
    assert_eq!(nav.selected, 0);
}

#[test]
fn main_menu_numbers_follow_scene_graph() {
    let cases = [
        (1, Scene::CharacterCreation),
        (2, Scene::GameBoard),
        (3, Scene::GameBoard),
        (4, Scene::Settings),
        (5, Scene::Credits),
        (6, Scene::Exit),
    ];
    for (number, target) in cases {
        let (scene, nav) = run(&[InputAction::Select, InputAction::Number(number)]);
        assert_eq!(scene.scene, target);
        assert_eq!(nav.selected, 0);
    }
    let (scene, _) = run(&[InputAction::Select, InputAction::Number(7)]);
    assert_eq!(scene.scene, Scene::MainMenu);
}

#[test]
fn game_board_hotkeys_open_secondary_scenes() {
    let board = [InputAction::Select, InputAction::Number(2)];
    let cases = [
        (InputAction::Inventory, Scene::StatsInventory),
        (InputAction::WorldMap, Scene::WorldMap),
        (InputAction::Combat, Scene::Combat),
        (InputAction::Dialog, Scene::Dialog),
    ];
    for (action, target) in cases {
        let (scene, _) = run(&[board[0], board[1], action]);
        assert_eq!(scene.scene, target);
    }
}

#[test]
fn escape_follows_back_edges() {
    let (scene, _) = run(&[InputAction::Select, InputAction::Number(2), InputAction::Combat, InputAction::Back]);
    assert_eq!(scene.scene, Scene::GameBoard);
    let (scene, _) = run(&[InputAction::Select, InputAction::Number(5), InputAction::Back]);
    assert_eq!(scene.scene, Scene::MainMenu);
    let (scene, _) = run(&[InputAction::Select, InputAction::Back]);
    assert_eq!(scene.scene, Scene::Title);
    let mut scene = CurrentScene::default();
    let mut nav = NavigationState::default();
    assert_eq!(navigation_step(&mut scene, &mut nav, InputAction::Back), SceneChange::Unchanged);
    assert_eq!(scene.scene, Scene::Title);
}

#[test]
fn three_escapes_reach_title_from_inventory() {
    let (scene, _) = run(&[
        InputAction::Select,
        InputAction::Number(2),
        InputAction::Combat,
        InputAction::Number(4),
        InputAction::Back,
        InputAction::Back,
        InputAction::Back,
    ]);
    assert_eq!(scene.scene, Scene::Title);
}

#[test]
fn end_session_enter_returns_to_title() {
    let (scene, _) = run(&[InputAction::Select, InputAction::Number(6), InputAction::Select]);
    assert_eq!(scene.scene, Scene::Title);
}

#[test]
fn menu_movement_wraps_and_redraws() {
    let mut scene = CurrentScene { scene: Scene::MainMenu };
    let mut nav = NavigationState::default();
    assert_eq!(navigation_step(&mut scene, &mut nav, InputAction::Up), SceneChange::Redraw);
    assert_eq!(nav.selected, 5);
    assert_eq!(navigation_step(&mut scene, &mut nav, InputAction::Next), SceneChange::Redraw);
    assert_eq!(nav.selected, 0);
    assert_eq!(navigation_step(&mut scene, &mut nav, InputAction::Down), SceneChange::Redraw);
    assert_eq!(nav.selected, 1);
    assert_eq!(navigation_step(&mut scene, &mut nav, InputAction::Previous), SceneChange::Redraw);
    assert_eq!(nav.selected, 0);
    assert_eq!(scene.scene, Scene::MainMenu);
}

#[test]
fn movement_without_menu_changes_nothing() {
    let mut scene = CurrentScene { scene: Scene::Credits };
    let mut nav = NavigationState::default();
    assert_eq!(navigation_step(&mut scene, &mut nav, InputAction::Down), SceneChange::Unchanged);
    assert_eq!(nav.selected, 0);
}

#[test]
fn select_activates_highlighted_entry() {
    let mut scene = CurrentScene { scene: Scene::MainMenu };
    let mut nav = NavigationState { selected: 3 };
    assert_eq!(navigation_step(&mut scene, &mut nav, InputAction::Select), SceneChange::Switch(Scene::Settings));
    assert_eq!(nav.selected, 0);
    let mut scene = CurrentScene { scene: Scene::CharacterCreation };
    let mut nav = NavigationState { selected: 6 };
    navigation_step(&mut scene, &mut nav, InputAction::Select);
    assert_eq!(scene.scene, Scene::GameBoard);
}

#[test]
fn scene_hotkeys_only_work_in_their_scenes() {
    let mut scene = CurrentScene { scene: Scene::MainMenu };
    let mut nav = NavigationState::default();
    for action in [InputAction::Inventory, InputAction::WorldMap, InputAction::Combat, InputAction::Dialog] {
        assert_eq!(navigation_step(&mut scene, &mut nav, action), SceneChange::Unchanged);
    }
    let mut scene = CurrentScene { scene: Scene::Combat };
    navigation_step(&mut scene, &mut nav, InputAction::Inventory);
    assert_eq!(scene.scene, Scene::StatsInventory);
    let mut scene = CurrentScene { scene: Scene::Inventory };
    navigation_step(&mut scene, &mut nav, InputAction::WorldMap);
    assert_eq!(scene.scene, Scene::WorldMap);
    let mut scene = CurrentScene { scene: Scene::Combat };
    assert_eq!(navigation_step(&mut scene, &mut nav, InputAction::Dialog), SceneChange::Unchanged);
}

#[test]
fn ignored_actions_change_nothing() {
    for action in [InputAction::Left, InputAction::Right, InputAction::QuitApp, InputAction::Nothing] {
        let mut scene = CurrentScene { scene: Scene::GameBoard };
        let mut nav = NavigationState { selected: 2 };
        assert_eq!(navigation_step(&mut scene, &mut nav, action), SceneChange::Unchanged);
        assert_eq!(scene.scene, Scene::GameBoard);
        assert_eq!(nav.selected, 2);
    }
}
