//! The navigation decision: how one input action changes the scene on screen and
//! the highlighted menu entry. Drawing the result is left to the caller.
use vstd::prelude::*;

use crate::input::InputAction;
use crate::pixel_ui::{
    lemma_menu_entries, lemma_move_down_wraps, lemma_move_up_wraps, lemma_number_keys,
    lemma_quick_select, back_spec, first_with_hotkey, hotkey_number, menu_size, menu_spec,
    move_down_spec, move_up_spec, quick_destination, selected_target_spec, CurrentScene,
    NavigationState, Scene,
};
use crate::text::decimal;

verus! {

/// What the screen has to do after an action.
#[derive(Debug, Clone, Copy, PartialEq, Eq, Structural)]
pub enum SceneChange {
    /// Nothing changed.
    Unchanged,
    /// Same scene, another highlighted entry: draw it again.
    Redraw,
    /// Another scene, highlight reset to the first entry: draw that scene.
    Switch(Scene),
}

pub open spec fn switch_to(target: Scene) -> (Scene, int, SceneChange) {
    (target, 0, SceneChange::Switch(target))
}

pub open spec fn switch_if(scene: Scene, selected: int, target: Option<Scene>) -> (Scene, int, SceneChange) {
    match target {
        Some(t) => switch_to(t),
        None => (scene, selected, SceneChange::Unchanged),
    }
}

/// Scene, highlighted entry and screen change after `action` in `scene` with entry
/// `selected` highlighted.
pub open spec fn step_spec(scene: Scene, selected: int, action: InputAction) -> (Scene, int, SceneChange) {
    let len = menu_spec(scene).len();
    match action {
        InputAction::Up | InputAction::Previous => if len > 0 {
            (scene, move_up_spec(len, selected), SceneChange::Redraw)
        } else {
            (scene, selected, SceneChange::Unchanged)
        },
        InputAction::Down | InputAction::Next => if len > 0 {
            (scene, move_down_spec(len, selected), SceneChange::Redraw)
        } else {
            (scene, selected, SceneChange::Unchanged)
        },
        InputAction::Back => switch_if(scene, selected, back_spec(scene)),
        InputAction::Number(n) => switch_if(
            scene,
            selected,
            first_with_hotkey(menu_spec(scene), decimal(n as nat)),
        ),
        InputAction::Inventory => if scene == Scene::GameBoard || scene == Scene::Combat {
            switch_to(Scene::StatsInventory)
        } else {
            (scene, selected, SceneChange::Unchanged)
        },
        InputAction::WorldMap => if scene == Scene::GameBoard || scene == Scene::StatsInventory
            || scene == Scene::Inventory {
            switch_to(Scene::WorldMap)
        } else {
            (scene, selected, SceneChange::Unchanged)
        },
        InputAction::Combat => if scene == Scene::GameBoard || scene == Scene::StatsInventory
            || scene == Scene::Inventory {
            switch_to(Scene::Combat)
        } else {
            (scene, selected, SceneChange::Unchanged)
        },
        InputAction::Dialog => if scene == Scene::GameBoard {
            switch_to(Scene::Dialog)
        } else {
            (scene, selected, SceneChange::Unchanged)
        },
        InputAction::Select => switch_if(scene, selected, selected_target_spec(scene, selected)),
        InputAction::Left | InputAction::Right | InputAction::QuitApp | InputAction::Nothing => (
            scene,
            selected,
            SceneChange::Unchanged,
        ),
    }
}

fn switch_scene(current: &mut CurrentScene, nav: &mut NavigationState, next: Scene) -> (change: SceneChange)
    ensures
        final(current).scene == next,
        final(nav).selected == 0,
        change == SceneChange::Switch(next),
{
    current.scene = next;
    nav.reset(next);
    SceneChange::Switch(next)
}

/// Applies one navigation action to the scene on screen and the highlighted entry.
pub fn navigation_step(current: &mut CurrentScene, nav: &mut NavigationState, action: InputAction) -> (change: SceneChange)
    requires
        (action == InputAction::Down || action == InputAction::Next) && menu_spec(old(current).scene).len() > 0
            ==> old(nav).selected < usize::MAX,
    ensures
        (final(current).scene, final(nav).selected as int, change)
            == step_spec(old(current).scene, old(nav).selected as int, action),
{
    let scene = current.scene;
    match action {
        InputAction::Up | InputAction::Previous => {
            if nav.move_up(scene) {
                SceneChange::Redraw
            } else {
                SceneChange::Unchanged
            }
        },
        InputAction::Down | InputAction::Next => {
            if nav.move_down(scene) {
                SceneChange::Redraw
            } else {
                SceneChange::Unchanged
            }
        },
        InputAction::Back => {
            if let Some(previous) = scene.back() {
                switch_scene(current, nav, previous)
            } else {
                SceneChange::Unchanged
            }
        },
        InputAction::Number(number) => {
            if let Some(target) = nav.number_target(scene, number) {
                switch_scene(current, nav, target)
            } else {
                SceneChange::Unchanged
            }
        },
        InputAction::Inventory => {
            if scene == Scene::GameBoard || scene == Scene::Combat {
                switch_scene(current, nav, Scene::StatsInventory)
            } else {
                SceneChange::Unchanged
            }
        },
        InputAction::WorldMap => {
            if scene == Scene::GameBoard || scene == Scene::StatsInventory || scene == Scene::Inventory {
                switch_scene(current, nav, Scene::WorldMap)
            } else {
                SceneChange::Unchanged
            }
        },
        InputAction::Combat => {
            if scene == Scene::GameBoard || scene == Scene::StatsInventory || scene == Scene::Inventory {
                switch_scene(current, nav, Scene::Combat)
            } else {
                SceneChange::Unchanged
            }
        },
        InputAction::Dialog => {
            if scene == Scene::GameBoard {
                switch_scene(current, nav, Scene::Dialog)
            } else {
                SceneChange::Unchanged
            }
        },
        InputAction::Left | InputAction::Right => SceneChange::Unchanged,
        InputAction::Select => {
            if let Some(target) = nav.selected_target(scene) {
                switch_scene(current, nav, target)
            } else {
                SceneChange::Unchanged
            }
        },
        InputAction::QuitApp | InputAction::Nothing => SceneChange::Unchanged,
    }
}

/// The highlighted entry is an entry of the menu, or the first position when the
/// scene has no menu.
pub open spec fn selection_valid(scene: Scene, selected: int) -> bool {
    if menu_spec(scene).len() > 0 {
        0 <= selected < menu_spec(scene).len()
    } else {
        selected == 0
    }
}

/// Every action keeps the highlighted entry inside the menu of the scene on screen.
pub proof fn lemma_step_keeps_selection_valid(scene: Scene, selected: int, action: InputAction)
    requires
        selection_valid(scene, selected),
    ensures
        selection_valid(step_spec(scene, selected, action).0, step_spec(scene, selected, action).1),
{
    let len = menu_spec(scene).len();
    if len > 0 {
        lemma_move_up_wraps(len, selected);
        lemma_move_down_wraps(len, selected);
    }
}

/// A switch lands on its target with the first entry highlighted; a redraw keeps the
/// scene; an unchanged screen keeps both scene and highlight.
pub proof fn lemma_step_change_matches_state(scene: Scene, selected: int, action: InputAction)
    ensures
        ({
            let (next, sel, change) = step_spec(scene, selected, action);
            &&& change is Switch ==> next == change->Switch_0 && sel == 0
            &&& change == SceneChange::Redraw ==> next == scene
            &&& change == SceneChange::Unchanged ==> next == scene && sel == selected
        }),
{
}

/// Scene and highlighted entry after a sequence of actions.
pub open spec fn run_spec(scene: Scene, selected: int, actions: Seq<InputAction>) -> (Scene, int)
    decreases actions.len(),
{
    if actions.len() == 0 {
        (scene, selected)
    } else {
        let (next, sel, _) = step_spec(scene, selected, actions[0]);
        run_spec(next, sel, actions.drop_first())
    }
}

/// Actions that lead from the title screen to `target`.
pub open spec fn route_from_title(target: Scene) -> Seq<InputAction> {
    match target {
        Scene::Title => seq![],
        Scene::MainMenu => seq![InputAction::Select],
        Scene::CharacterCreation => seq![InputAction::Select, InputAction::Number(1)],
        Scene::GameBoard => seq![InputAction::Select, InputAction::Number(2)],
        Scene::Settings => seq![InputAction::Select, InputAction::Number(4)],
        Scene::Credits => seq![InputAction::Select, InputAction::Number(5)],
        Scene::Exit => seq![InputAction::Select, InputAction::Number(6)],
        Scene::StatsInventory => seq![InputAction::Select, InputAction::Number(2), InputAction::Inventory],
        Scene::WorldMap => seq![InputAction::Select, InputAction::Number(2), InputAction::WorldMap],
        Scene::Combat => seq![InputAction::Select, InputAction::Number(2), InputAction::Combat],
        Scene::Dialog => seq![InputAction::Select, InputAction::Number(2), InputAction::Dialog],
        Scene::Inventory => seq![
            InputAction::Select,
            InputAction::Number(2),
            InputAction::Combat,
            InputAction::Number(4),
        ],
    }
}

/// Every scene can be reached from the title screen.
pub proof fn lemma_every_scene_reachable(target: Scene)
    ensures
        run_spec(Scene::Title, 0, route_from_title(target)).0 == target,
{
    lemma_quick_select(Scene::MainMenu, 0);
    lemma_quick_select(Scene::MainMenu, 1);
    lemma_quick_select(Scene::MainMenu, 3);
    lemma_quick_select(Scene::MainMenu, 4);
    lemma_quick_select(Scene::MainMenu, 5);
    lemma_quick_select(Scene::Combat, 3);
    let r = route_from_title(target);
    reveal_with_fuel(run_spec, 5);
    if r.len() >= 1 {
        assert(r.drop_first().len() == r.len() - 1);
    }
    if r.len() >= 2 {
        assert(r.drop_first()[0] == r[1]);
        assert(r.drop_first().drop_first().len() == r.len() - 2);
    }
    if r.len() >= 3 {
        assert(r.drop_first().drop_first()[0] == r[2]);
        assert(r.drop_first().drop_first().drop_first().len() == r.len() - 3);
    }
    if r.len() >= 4 {
        assert(r.drop_first().drop_first().drop_first()[0] == r[3]);
        assert(r.drop_first().drop_first().drop_first().drop_first().len() == 0);
    }
}

/// The scene hotkeys, over every scene and highlight: `I` opens stats & inventory
/// from the game board or combat; `M` opens the map and `C` opens combat from the
/// game board, stats & inventory or the inventory; `D` opens the dialog from the
/// game board. Each lands with the first entry highlighted; in any other scene the
/// key changes nothing.
pub proof fn lemma_scene_hotkeys(scene: Scene, selected: int)
    ensures
        step_spec(scene, selected, InputAction::Inventory) == (if scene == Scene::GameBoard
            || scene == Scene::Combat {
            (Scene::StatsInventory, 0int, SceneChange::Switch(Scene::StatsInventory))
        } else {
            (scene, selected, SceneChange::Unchanged)
        }),
        step_spec(scene, selected, InputAction::WorldMap) == (if scene == Scene::GameBoard
            || scene == Scene::StatsInventory || scene == Scene::Inventory {
            (Scene::WorldMap, 0int, SceneChange::Switch(Scene::WorldMap))
        } else {
            (scene, selected, SceneChange::Unchanged)
        }),
        step_spec(scene, selected, InputAction::Combat) == (if scene == Scene::GameBoard
            || scene == Scene::StatsInventory || scene == Scene::Inventory {
            (Scene::Combat, 0int, SceneChange::Switch(Scene::Combat))
        } else {
            (scene, selected, SceneChange::Unchanged)
        }),
        step_spec(scene, selected, InputAction::Dialog) == (if scene == Scene::GameBoard {
            (Scene::Dialog, 0int, SceneChange::Switch(Scene::Dialog))
        } else {
            (scene, selected, SceneChange::Unchanged)
        }),
{
}

/// Escape as a step, over every scene and highlight: the secondary scenes switch to
/// the game board; character creation, the game board, settings, credits and the
/// end screen switch to the main menu; the main menu switches to the title; on the
/// title nothing changes.
pub proof fn lemma_escape_step(scene: Scene, selected: int)
    ensures
        (scene == Scene::StatsInventory || scene == Scene::WorldMap || scene == Scene::Inventory
            || scene == Scene::Combat || scene == Scene::Dialog) ==> step_spec(scene, selected, InputAction::Back)
            == (Scene::GameBoard, 0int, SceneChange::Switch(Scene::GameBoard)),
        (scene == Scene::CharacterCreation || scene == Scene::GameBoard || scene == Scene::Settings
            || scene == Scene::Credits || scene == Scene::Exit) ==> step_spec(scene, selected, InputAction::Back)
            == (Scene::MainMenu, 0int, SceneChange::Switch(Scene::MainMenu)),
        scene == Scene::MainMenu ==> step_spec(scene, selected, InputAction::Back) == (
            Scene::Title,
            0int,
            SceneChange::Switch(Scene::Title),
        ),
        scene == Scene::Title ==> step_spec(scene, selected, InputAction::Back) == (
            scene,
            selected,
            SceneChange::Unchanged,
        ),
{
}

/// Number keys and Enter as steps: a number key switches to the scene that the
/// entry with that number leads to, and changes nothing when no entry carries it;
/// Enter on a highlighted entry switches to that entry's scene.
pub proof fn lemma_menu_steps(scene: Scene, selected: int, n: usize)
    ensures
        step_spec(scene, selected, InputAction::Number(n)) == (match quick_destination(scene, n as nat) {
            Some(t) => (t, 0int, SceneChange::Switch(t)),
            None => (scene, selected, SceneChange::Unchanged),
        }),
        0 <= selected < menu_size(scene) ==> step_spec(scene, selected, InputAction::Select) == (match quick_destination(
            scene,
            hotkey_number(scene, selected),
        ) {
            Some(t) => (t, 0int, SceneChange::Switch(t)),
            None => (scene, selected, SceneChange::Unchanged),
        }),
{
    lemma_number_keys(scene, n as nat);
    lemma_menu_entries(scene, selected);
}

/// A scene opened from the game board by a hotkey or a number key leads back to the
/// game board with Escape.
pub proof fn lemma_escape_returns_to_board(selected: int, action: InputAction)
    requires
        action is Inventory || action is WorldMap || action is Combat || action is Dialog
            || action is Number,
    ensures
        step_spec(Scene::GameBoard, selected, action).2 is Switch ==> back_spec(
            step_spec(Scene::GameBoard, selected, action).0,
        ) == Some(Scene::GameBoard),
{
    if let InputAction::Number(n) = action {
        lemma_number_keys(Scene::GameBoard, n as nat);
    }
}

} // verus!
