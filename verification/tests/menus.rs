use dsh_frontend::pixel_ui::{self, NavigationState, Scene};
use dsh_frontend::text::boxed_row;
use dsh_frontend::ui;

#[test]
fn menu_sizes_and_hotkeys() {
    let sizes = [
        (Scene::Title, 0),
        (Scene::MainMenu, 6),
        (Scene::CharacterCreation, 7),
        (Scene::GameBoard, 4),
        (Scene::Settings, 4),
        (Scene::Combat, 5),
        (Scene::Dialog, 3),
        (Scene::Credits, 0),
    ];
    for (scene, n) in sizes {
        assert_eq!(scene.menu_items().len(), n);
    }
    let main = Scene::MainMenu.menu_items();
    assert_eq!(main[0].label, "New Adventure");
    assert_eq!(main[0].hotkey, "1");
    assert_eq!(main[5].target, Scene::Exit);
    assert_eq!(Scene::Settings.menu_items()[3].hotkey, "0");
}

#[test]
fn titles_and_back_edges() {
    assert_eq!(Scene::Title.title(), "D&D RPG ENGINE");
    assert_eq!(Scene::WorldMap.title(), "MAP / WORLD VIEW");
    assert_eq!(Scene::Title.back(), None);
    assert_eq!(Scene::Inventory.back(), Some(Scene::GameBoard));
    assert_eq!(Scene::Exit.back(), Some(Scene::MainMenu));
    assert_eq!(Scene::CharacterCreation.back(), Some(Scene::MainMenu));
}

#[test]
fn number_target_finds_hotkeys() {
    let nav = NavigationState::default();
    assert_eq!(nav.number_target(Scene::Settings, 0), Some(Scene::MainMenu));
    assert_eq!(nav.number_target(Scene::Settings, 2), Some(Scene::Settings));
    assert_eq!(nav.number_target(Scene::Combat, 4), Some(Scene::Inventory));
    assert_eq!(nav.number_target(Scene::Combat, 6), None);
    assert_eq!(nav.number_target(Scene::Combat, 14), None);
    assert_eq!(nav.number_target(Scene::Title, 1), None);
}

#[test]
fn selected_target_falls_back_per_scene() {
    let far = NavigationState { selected: 40 };
    assert_eq!(far.selected_target(Scene::Title), Some(Scene::MainMenu));
    assert_eq!(far.selected_target(Scene::GameBoard), Some(Scene::GameBoard));
    assert_eq!(far.selected_target(Scene::MainMenu), None);
    assert_eq!(far.selected_target(Scene::Exit), Some(Scene::Title));
    let ui_far = ui::NavigationState { selected: 40 };
    assert_eq!(ui_far.selected_target(ui::Scene::GameBoard), Some(ui::Scene::Combat));
    assert_eq!(ui_far.selected_target(ui::Scene::Inventory), Some(ui::Scene::GameBoard));
}

#[test]
fn move_up_and_down_wrap() {
    let mut nav = NavigationState::default();
    assert!(nav.move_up(Scene::Dialog));
    assert_eq!(nav.selected, 2);
    assert!(nav.move_down(Scene::Dialog));
    assert_eq!(nav.selected, 0);
    assert!(!nav.move_down(Scene::Title));
    assert_eq!(nav.selected, 0);
    nav.selected = 3;
    nav.reset(Scene::GameBoard);
    assert_eq!(nav.selected, 0);
}

#[test]
fn ui_navigation_matches() {
    let mut nav = ui::NavigationState::default();
    assert!(nav.move_up(ui::Scene::MainMenu));
    assert_eq!(nav.selected, 5);
    assert_eq!(nav.selected_target(ui::Scene::MainMenu), Some(ui::Scene::Exit));
    assert_eq!(nav.number_target(ui::Scene::Settings, 0), Some(ui::Scene::MainMenu));
    assert_eq!(ui::Scene::Dialog.back(), Some(ui::Scene::GameBoard));
    nav.reset(ui::Scene::Credits);
    assert_eq!(nav.selected, 0);
}

#[test]
fn pixel_menu_line_text() {
    assert_eq!(pixel_ui::selected_line_text(true, "1", "New Adventure"), "▶ [1] New Adventure");
    assert_eq!(pixel_ui::selected_line_text(false, "7", "NEXT → ENTER"), "  [7] NEXT → ENTER");
}

#[test]
fn pixel_bar_text() {
    assert_eq!(pixel_ui::bar_text("HP", 18, 28, 28), "HP  ██████████████████  28/28");
    assert_eq!(pixel_ui::bar_text("XP", 6, 34, 100), "XP  ██████░░░░░░░░░░░░  34/100");
}

#[test]
fn ui_text_lines() {
    assert_eq!(ui::selected_line_text(true, "[1]", "New Adventure"), "▶ [1]  New Adventure");
    assert_eq!(ui::selected_line_text(false, "[I]", "Inventory / Stats"), "  [I]  Inventory / Stats");
    assert_eq!(ui::selected_line_text(false, "1.", "Leave."), "  1.   Leave.");
    let (top, middle, bottom) = ui::header_text("MAIN MENU");
    assert_eq!(top.chars().count(), 110);
    assert!(top.starts_with('╔') && top.ends_with('╗'));
    assert!(bottom.starts_with('╚') && bottom.ends_with('╝'));
    assert_eq!(middle, format!("║{:^108}║", "MAIN MENU"));
    assert_eq!(ui::footer_text(ui::Scene::Exit), "ENTER Select   ESC Back   I Inventory   M Map   C Combat   D Dialogue");
}

#[test]
fn boxed_rows_and_legend_lines() {
    assert_eq!(boxed_row("Elf", 6), "│ Elf    │");
    assert_eq!(boxed_row("Dragonborn", 4), "│ Dragonborn │");
    assert_eq!(boxed_row("Human", 28), format!("│ {:<28} │", "Human"));
    assert_eq!(boxed_row("Half-Orc", 48), format!("│ {:<48} │", "Half-Orc"));
    assert_eq!(pixel_ui::legend_line("≈", "Water"), "  ≈   Water");
    assert_eq!(pixel_ui::legend_line("✦", "Point of Interest"), format!("{:>3}   {}", "✦", "Point of Interest"));
    assert_eq!(pixel_ui::legend_line("ABCD", "x"), "ABCD   x");
}
