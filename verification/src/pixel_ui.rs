//! Scenes, menus and menu selection of the fixed-canvas frontend.
use vstd::prelude::*;

use crate::text::{
    chars_equal, chars_of, decimal, decimal_chars, pad_left, push_char, push_chars, push_padded_left,
    push_repeat, spaces,
};

verus! {

/// Marker for the root of a drawn scene.
pub struct UiRoot;

/// The scene that is on screen.
pub struct CurrentScene {
    pub scene: Scene,
}

impl Default for CurrentScene {
    fn default() -> (s: Self)
        ensures
            s.scene == Scene::Title,
    {
        CurrentScene { scene: Scene::Title }
    }
}

/// Which entry of the current menu is highlighted.
pub struct NavigationState {
    pub selected: usize,
}

impl Default for NavigationState {
    fn default() -> (s: Self)
        ensures
            s.selected == 0,
    {
        NavigationState { selected: 0 }
    }
}

#[derive(Clone, Copy, PartialEq, Eq, Debug, Structural)]
pub enum Scene {
    Title,
    MainMenu,
    CharacterCreation,
    GameBoard,
    StatsInventory,
    WorldMap,
    Inventory,
    Combat,
    Dialog,
    Settings,
    Credits,
    Exit,
}

/// One numbered menu entry: its label, the scene it leads to, and its hotkey.
#[derive(Clone, Copy)]
pub struct NavItem {
    pub label: &'static str,
    pub target: Scene,
    pub hotkey: &'static str,
}

/// A menu entry as characters.
#[verifier::ext_equal]
pub struct NavItemView {
    pub label: Seq<char>,
    pub target: Scene,
    pub hotkey: Seq<char>,
}

impl View for NavItem {
    type V = NavItemView;

    open spec fn view(&self) -> NavItemView {
        NavItemView { label: self.label@, target: self.target, hotkey: self.hotkey@ }
    }
}

pub open spec fn entry(label: Seq<char>, target: Scene, hotkey: char) -> NavItemView {
    NavItemView { label, target, hotkey: seq![hotkey] }
}

/// The menu of each scene; scenes without a menu have none.
pub open spec fn menu_spec(scene: Scene) -> Seq<NavItemView> {
    match scene {
        Scene::MainMenu => seq![
            entry("New Adventure"@, Scene::CharacterCreation, '1'),
            entry("Continue"@, Scene::GameBoard, '2'),
            entry("Load Game"@, Scene::GameBoard, '3'),
            entry("Settings"@, Scene::Settings, '4'),
            entry("Credits"@, Scene::Credits, '5'),
            entry("Quit"@, Scene::Exit, '6'),
        ],
        Scene::CharacterCreation => seq![
            entry("Race"@, Scene::CharacterCreation, '1'),
            entry("Class"@, Scene::CharacterCreation, '2'),
            entry("Background"@, Scene::CharacterCreation, '3'),
            entry("Abilities"@, Scene::CharacterCreation, '4'),
            entry("Appearance"@, Scene::CharacterCreation, '5'),
            entry("Name"@, Scene::CharacterCreation, '6'),
            entry("Next"@, Scene::GameBoard, '7'),
        ],
        Scene::GameBoard => seq![
            entry("Inventory / Stats"@, Scene::StatsInventory, '1'),
            entry("World Map"@, Scene::WorldMap, '2'),
            entry("Combat"@, Scene::Combat, '3'),
            entry("Dialogue"@, Scene::Dialog, '4'),
        ],
        Scene::Settings => seq![
            entry("Audio"@, Scene::Settings, '1'),
            entry("Display"@, Scene::Settings, '2'),
            entry("Controls"@, Scene::Settings, '3'),
            entry("Back"@, Scene::MainMenu, '0'),
        ],
        Scene::Combat => seq![
            entry("Attack"@, Scene::GameBoard, '1'),
            entry("Defend"@, Scene::GameBoard, '2'),
            entry("Skills"@, Scene::GameBoard, '3'),
            entry("Items"@, Scene::Inventory, '4'),
            entry("Flee"@, Scene::GameBoard, '5'),
        ],
        Scene::Dialog => seq![
            entry("I am ready."@, Scene::GameBoard, '1'),
            entry("Tell me more."@, Scene::GameBoard, '2'),
            entry("Leave."@, Scene::GameBoard, '3'),
        ],
        _ => seq![],
    }
}

/// The heading shown for each scene.
pub open spec fn title_spec(scene: Scene) -> Seq<char> {
    match scene {
        Scene::Title => "D&D RPG ENGINE"@,
        Scene::MainMenu => "MAIN MENU"@,
        Scene::CharacterCreation => "CREATE YOUR HERO"@,
        Scene::GameBoard => "MAIN GAME BOARD"@,
        Scene::StatsInventory => "STATS & INVENTORY"@,
        Scene::WorldMap => "MAP / WORLD VIEW"@,
        Scene::Inventory => "INVENTORY"@,
        Scene::Combat => "COMBAT / BATTLE"@,
        Scene::Dialog => "DIALOG / NPC INTERACTION"@,
        Scene::Settings => "SETTINGS"@,
        Scene::Credits => "CREDITS"@,
        Scene::Exit => "END SESSION"@,
    }
}

/// The scene that Escape returns to: the title has none; the main menu returns to
/// the title; character creation, the game board, settings, credits and the end
/// session screen return to the main menu; every other scene returns to the game board.
pub open spec fn back_spec(scene: Scene) -> Option<Scene> {
    match scene {
        Scene::Title => None,
        Scene::MainMenu => Some(Scene::Title),
        Scene::CharacterCreation => Some(Scene::MainMenu),
        Scene::GameBoard => Some(Scene::MainMenu),
        Scene::StatsInventory | Scene::WorldMap | Scene::Inventory | Scene::Combat
        | Scene::Dialog => Some(Scene::GameBoard),
        Scene::Settings | Scene::Credits | Scene::Exit => Some(Scene::MainMenu),
    }
}

/// Where Enter leads when no menu entry is highlighted.
pub open spec fn default_target(scene: Scene) -> Option<Scene> {
    match scene {
        Scene::Title => Some(Scene::MainMenu),
        Scene::GameBoard | Scene::StatsInventory | Scene::Inventory | Scene::WorldMap
        | Scene::Combat | Scene::Dialog => Some(Scene::GameBoard),
        Scene::CharacterCreation => Some(Scene::GameBoard),
        Scene::Settings | Scene::Credits => Some(Scene::MainMenu),
        Scene::Exit => Some(Scene::Title),
        Scene::MainMenu => None,
    }
}

/// Where Enter leads with entry `selected` highlighted: that entry's target when it
/// exists, the scene's default otherwise.
pub open spec fn selected_target_spec(scene: Scene, selected: int) -> Option<Scene> {
    if 0 <= selected < menu_spec(scene).len() {
        Some(menu_spec(scene)[selected].target)
    } else {
        default_target(scene)
    }
}

/// The target of the first entry of `items` whose hotkey is `key`.
pub open spec fn first_with_hotkey(items: Seq<NavItemView>, key: Seq<char>) -> Option<Scene>
    decreases items.len(),
{
    if items.len() == 0 {
        None
    } else if items[0].hotkey == key {
        Some(items[0].target)
    } else {
        first_with_hotkey(items.drop_first(), key)
    }
}

/// Selection after moving up in a menu of `len` entries: one entry up, wrapping
/// from the first entry to the last.
pub open spec fn move_up_spec(len: nat, selected: int) -> int {
    if len == 0 {
        selected
    } else if selected == 0 {
        len - 1
    } else {
        selected - 1
    }
}

/// Selection after moving down in a menu of `len` entries: one entry down, wrapping
/// from the last entry to the first.
pub open spec fn move_down_spec(len: nat, selected: int) -> int {
    if len == 0 {
        selected
    } else {
        (selected + 1) % (len as int)
    }
}

impl NavigationState {
    /// Highlights the first entry again, as on entering a scene.
    pub fn reset(&mut self, _scene: Scene)
        ensures
            final(self).selected == 0,
    {
        self.selected = 0;
    }

    /// Moves the highlight up, wrapping around; returns whether the scene has a menu.
    pub fn move_up(&mut self, scene: Scene) -> (moved: bool)
        ensures
            moved == (menu_spec(scene).len() > 0),
            final(self).selected == move_up_spec(menu_spec(scene).len(), old(self).selected as int),
    {
        let len = scene.menu_items().len();
        if len == 0 {
            return false;
        }
        self.selected = if self.selected == 0 { len - 1 } else { self.selected - 1 };
        true
    }

    /// Moves the highlight down, wrapping around; returns whether the scene has a menu.
    pub fn move_down(&mut self, scene: Scene) -> (moved: bool)
        requires
            menu_spec(scene).len() > 0 ==> old(self).selected < usize::MAX,
        ensures
            moved == (menu_spec(scene).len() > 0),
            final(self).selected == move_down_spec(menu_spec(scene).len(), old(self).selected as int),
    {
        let len = scene.menu_items().len();
        if len == 0 {
            return false;
        }
        self.selected = (self.selected + 1) % len;
        true
    }

    /// The scene that Enter leads to.
    pub fn selected_target(&self, scene: Scene) -> (target: Option<Scene>)
        ensures
            target == selected_target_spec(scene, self.selected as int),
    {
        let items = scene.menu_items();
        if self.selected < items.len() {
            assert(items@[self.selected as int]@ == menu_spec(scene)[self.selected as int]);
            return Some(items[self.selected].target);
        }
        match scene {
            Scene::Title => Some(Scene::MainMenu),
            Scene::GameBoard | Scene::StatsInventory | Scene::Inventory | Scene::WorldMap
            | Scene::Combat | Scene::Dialog => Some(Scene::GameBoard),
            Scene::CharacterCreation => Some(Scene::GameBoard),
            Scene::Settings | Scene::Credits => Some(Scene::MainMenu),
            Scene::Exit => Some(Scene::Title),
            Scene::MainMenu => None,
        }
    }

    /// The target of the first menu entry whose hotkey is the decimal rendering of `number`.
    pub fn number_target(&self, scene: Scene, number: usize) -> (target: Option<Scene>)
        ensures
            target == first_with_hotkey(menu_spec(scene), decimal(number as nat)),
    {
        let key = decimal_chars(number);
        let items = scene.menu_items();
        let n = items.len();
        let ghost menu = menu_spec(scene);
        let mut i: usize = 0;
        assert(menu.skip(0) =~= menu);
        while i < n
            invariant
                n == items@.len(),
                n == menu.len(),
                menu == menu_spec(scene),
                forall|j: int| 0 <= j < n ==> #[trigger] items@[j]@ == menu[j],
                key@ == decimal(number as nat),
                i <= n,
                first_with_hotkey(menu, key@) == first_with_hotkey(menu.skip(i as int), key@),
            decreases n - i,
        {
            let item = items[i];
            let hotkey = chars_of(item.hotkey);
            assert(menu.skip(i as int)[0] == menu[i as int]);
            assert(menu.skip(i as int).drop_first() =~= menu.skip(i + 1));
            assert(items@[i as int]@ == menu[i as int]);
            if chars_equal(&hotkey, &key) {
                return Some(item.target);
            }
            i = i + 1;
        }
        assert(menu.skip(n as int).len() == 0);
        None
    }
}

impl Scene {
    /// The heading of the scene.
    pub fn title(self) -> (t: &'static str)
        ensures
            t@ == title_spec(self),
    {
        match self {
            Scene::Title => "D&D RPG ENGINE",
            Scene::MainMenu => "MAIN MENU",
            Scene::CharacterCreation => "CREATE YOUR HERO",
            Scene::GameBoard => "MAIN GAME BOARD",
            Scene::StatsInventory => "STATS & INVENTORY",
            Scene::WorldMap => "MAP / WORLD VIEW",
            Scene::Inventory => "INVENTORY",
            Scene::Combat => "COMBAT / BATTLE",
            Scene::Dialog => "DIALOG / NPC INTERACTION",
            Scene::Settings => "SETTINGS",
            Scene::Credits => "CREDITS",
            Scene::Exit => "END SESSION",
        }
    }

    /// The scene that Escape returns to, if any.
    pub fn back(self) -> (prev: Option<Self>)
        ensures
            prev == back_spec(self),
    {
        match self {
            Scene::Title => None,
            Scene::MainMenu => Some(Scene::Title),
            Scene::CharacterCreation => Some(Scene::MainMenu),
            Scene::GameBoard => Some(Scene::MainMenu),
            Scene::StatsInventory | Scene::WorldMap | Scene::Inventory | Scene::Combat
            | Scene::Dialog => Some(Scene::GameBoard),
            Scene::Settings | Scene::Credits | Scene::Exit => Some(Scene::MainMenu),
        }
    }

    /// The numbered entries of the scene's menu, in order.
    pub fn menu_items(self) -> (items: &'static [NavItem])
        ensures
            items@.len() == menu_spec(self).len(),
            forall|i: int| 0 <= i < items@.len() ==> #[trigger] items@[i]@ == menu_spec(self)[i],
    {
        proof {
            reveal_strlit("0");
            reveal_strlit("1");
            reveal_strlit("2");
            reveal_strlit("3");
            reveal_strlit("4");
            reveal_strlit("5");
            reveal_strlit("6");
            reveal_strlit("7");
        }
        match self {
            Scene::MainMenu => &[
                NavItem { label: "New Adventure", target: Scene::CharacterCreation, hotkey: "1" },
                NavItem { label: "Continue", target: Scene::GameBoard, hotkey: "2" },
                NavItem { label: "Load Game", target: Scene::GameBoard, hotkey: "3" },
                NavItem { label: "Settings", target: Scene::Settings, hotkey: "4" },
                NavItem { label: "Credits", target: Scene::Credits, hotkey: "5" },
                NavItem { label: "Quit", target: Scene::Exit, hotkey: "6" },
            ],
            Scene::CharacterCreation => &[
                NavItem { label: "Race", target: Scene::CharacterCreation, hotkey: "1" },
                NavItem { label: "Class", target: Scene::CharacterCreation, hotkey: "2" },
                NavItem { label: "Background", target: Scene::CharacterCreation, hotkey: "3" },
                NavItem { label: "Abilities", target: Scene::CharacterCreation, hotkey: "4" },
                NavItem { label: "Appearance", target: Scene::CharacterCreation, hotkey: "5" },
                NavItem { label: "Name", target: Scene::CharacterCreation, hotkey: "6" },
                NavItem { label: "Next", target: Scene::GameBoard, hotkey: "7" },
            ],
            Scene::GameBoard => &[
                NavItem { label: "Inventory / Stats", target: Scene::StatsInventory, hotkey: "1" },
                NavItem { label: "World Map", target: Scene::WorldMap, hotkey: "2" },
                NavItem { label: "Combat", target: Scene::Combat, hotkey: "3" },
                NavItem { label: "Dialogue", target: Scene::Dialog, hotkey: "4" },
            ],
            Scene::Settings => &[
                NavItem { label: "Audio", target: Scene::Settings, hotkey: "1" },
                NavItem { label: "Display", target: Scene::Settings, hotkey: "2" },
                NavItem { label: "Controls", target: Scene::Settings, hotkey: "3" },
                NavItem { label: "Back", target: Scene::MainMenu, hotkey: "0" },
            ],
            Scene::Combat => &[
                NavItem { label: "Attack", target: Scene::GameBoard, hotkey: "1" },
                NavItem { label: "Defend", target: Scene::GameBoard, hotkey: "2" },
                NavItem { label: "Skills", target: Scene::GameBoard, hotkey: "3" },
                NavItem { label: "Items", target: Scene::Inventory, hotkey: "4" },
                NavItem { label: "Flee", target: Scene::GameBoard, hotkey: "5" },
            ],
            Scene::Dialog => &[
                NavItem { label: "I am ready.", target: Scene::GameBoard, hotkey: "1" },
                NavItem { label: "Tell me more.", target: Scene::GameBoard, hotkey: "2" },
                NavItem { label: "Leave.", target: Scene::GameBoard, hotkey: "3" },
            ],
            _ => &[],
        }
    }
}

/// The number key that quick-selects entry `i` of the menu of `scene`.
pub open spec fn hotkey_number(scene: Scene, i: int) -> nat {
    if scene == Scene::Settings && i == 3 {
        0
    } else {
        (i + 1) as nat
    }
}

proof fn lemma_first_with_hotkey_at(items: Seq<NavItemView>, i: int)
    requires
        0 <= i < items.len(),
        forall|j: int| 0 <= j < i ==> #[trigger] items[j].hotkey != items[i].hotkey,
    ensures
        first_with_hotkey(items, items[i].hotkey) == Some(items[i].target),
    decreases i,
{
    if i > 0 {
        let rest = items.drop_first();
        assert(rest[i - 1] == items[i]);
        assert forall|j: int| 0 <= j < i - 1 implies #[trigger] rest[j].hotkey != rest[i - 1].hotkey by {
            assert(rest[j] == items[j + 1]);
        }
        lemma_first_with_hotkey_at(rest, i - 1);
        assert(items[0].hotkey != items[i].hotkey);
    }
}

/// Quick selection: every menu entry has a number key, and that key leads to the
/// entry's destination (no earlier entry of the same menu shares the key).
pub proof fn lemma_quick_select(scene: Scene, i: int)
    requires
        0 <= i < menu_spec(scene).len(),
    ensures
        hotkey_number(scene, i) < 10,
        decimal(hotkey_number(scene, i)) == menu_spec(scene)[i].hotkey,
        first_with_hotkey(menu_spec(scene), decimal(hotkey_number(scene, i)))
            == Some(menu_spec(scene)[i].target),
{
    let menu = menu_spec(scene);
    let n = hotkey_number(scene, i);
    assert(decimal(n) == seq![crate::text::digit_char(n)]);
    assert(decimal(n) =~= menu[i].hotkey);
    assert forall|j: int| 0 <= j < i implies #[trigger] menu[j].hotkey != menu[i].hotkey by {
        assert(menu[j].hotkey[0] != menu[i].hotkey[0]);
    }
    lemma_first_with_hotkey_at(menu, i);
}

/// Moving down from the last entry wraps to the first; from any other entry it
/// goes one entry down. The result is again an entry of the menu.
pub proof fn lemma_move_down_wraps(len: nat, selected: int)
    requires
        0 <= selected < len,
    ensures
        move_down_spec(len, selected) == (if selected + 1 < len { selected + 1 } else { 0 }),
        0 <= move_down_spec(len, selected) < len,
{
    if selected + 1 < len {
        vstd::arithmetic::div_mod::lemma_small_mod((selected + 1) as nat, len);
    } else {
        vstd::arithmetic::div_mod::lemma_mod_self_0(len as int);
    }
}

/// Moving up from the first entry wraps to the last; from any other entry it goes
/// one entry up. The result is again an entry of the menu.
pub proof fn lemma_move_up_wraps(len: nat, selected: int)
    requires
        0 <= selected < len,
    ensures
        move_up_spec(len, selected) == (if selected == 0 { len - 1 } else { selected - 1 }),
        0 <= move_up_spec(len, selected) < len,
{
}

/// Moving down undoes moving up, and moving up undoes moving down.
pub proof fn lemma_move_up_down_inverse(len: nat, selected: int)
    requires
        0 <= selected < len,
    ensures
        move_down_spec(len, move_up_spec(len, selected)) == selected,
        move_up_spec(len, move_down_spec(len, selected)) == selected,
{
    lemma_move_up_wraps(len, selected);
    lemma_move_down_wraps(len, selected);
    lemma_move_down_wraps(len, move_up_spec(len, selected));
    lemma_move_up_wraps(len, move_down_spec(len, selected));
}

/// The scene after Escape; the title, which has no back edge, stays.
pub open spec fn after_escape(scene: Scene) -> Scene {
    match back_spec(scene) {
        Some(previous) => previous,
        None => scene,
    }
}

/// Three presses of Escape lead from any scene to the title.
pub proof fn lemma_escape_reaches_title(scene: Scene)
    ensures
        after_escape(after_escape(after_escape(scene))) == Scene::Title,
        back_spec(scene) is None <==> scene == Scene::Title,
{
}

/// The text of a menu line: the pointer (`▶` when selected), the hotkey in brackets
/// and the label.
pub open spec fn menu_line(selected: bool, hotkey: Seq<char>, label: Seq<char>) -> Seq<char> {
    seq![if selected { '▶' } else { ' ' }, ' ', '['] + hotkey + seq![']', ' '] + label
}

/// The text of a menu line, `"▶ [1] New Adventure"` when selected.
pub fn selected_line_text(selected: bool, hotkey: &str, label: &str) -> (line: String)
    ensures
        line@ == menu_line(selected, hotkey@, label@),
{
    let mut line = String::new();
    push_char(&mut line, if selected { '▶' } else { ' ' });
    push_char(&mut line, ' ');
    push_char(&mut line, '[');
    push_chars(&mut line, &chars_of(hotkey));
    push_char(&mut line, ']');
    push_char(&mut line, ' ');
    push_chars(&mut line, &chars_of(label));
    proof {
        assert(line@ =~= menu_line(selected, hotkey@, label@));
    }
    line
}

/// Number of segments of a status bar.
pub const BAR_SEGMENTS: usize = 18;

/// The segments of a status bar with `filled` full segments.
pub open spec fn bar_segments(filled: int) -> Seq<char> {
    Seq::new(BAR_SEGMENTS as nat, |i: int| if i < filled { '█' } else { '░' })
}

/// The text of a status bar line: label, segments, and `current/max`.
pub open spec fn bar_line(label: Seq<char>, filled: int, current: nat, max: nat) -> Seq<char> {
    label + seq![' ', ' '] + bar_segments(filled) + seq![' ', ' '] + decimal(current) + seq!['/'] + decimal(max)
}

/// The text of a status bar line with `filled` of its 18 segments full, for example
/// `"HP  ██████████████████  28/28"`.
pub fn bar_text(label: &str, filled: usize, current: u32, max: u32) -> (line: String)
    ensures
        line@ == bar_line(label@, filled as int, current as nat, max as nat),
{
    let mut line = String::new();
    push_chars(&mut line, &chars_of(label));
    push_repeat(&mut line, ' ', 2);
    let ghost start = line@;
    let mut i: usize = 0;
    while i < BAR_SEGMENTS
        invariant
            i <= BAR_SEGMENTS,
            line@ == start + bar_segments(filled as int).take(i as int),
        decreases BAR_SEGMENTS - i,
    {
        push_char(&mut line, if i < filled { '█' } else { '░' });
        proof {
            assert(bar_segments(filled as int).take(i + 1) =~= bar_segments(filled as int).take(i as int).push(
                if i < filled { '█' } else { '░' },
            ));
        }
        i = i + 1;
    }
    push_repeat(&mut line, ' ', 2);
    push_chars(&mut line, &decimal_chars(current as usize));
    push_char(&mut line, '/');
    push_chars(&mut line, &decimal_chars(max as usize));
    proof {
        assert(bar_segments(filled as int).take(BAR_SEGMENTS as int) =~= bar_segments(filled as int));
        assert(Seq::new(2, |k: int| ' ') =~= seq![' ', ' ']);
        assert(line@ =~= bar_line(label@, filled as int, current as nat, max as nat));
    }
    line
}

/// A map legend line: the symbol right-aligned in three characters, three spaces,
/// and its meaning.
pub open spec fn legend_spec(symbol: Seq<char>, meaning: Seq<char>) -> Seq<char> {
    pad_left(symbol, 3) + spaces(3) + meaning
}

/// The text of a map legend line, for example `"  ≈   Water"`.
pub fn legend_line(symbol: &str, meaning: &str) -> (line: String)
    ensures
        line@ == legend_spec(symbol@, meaning@),
{
    let mut line = String::new();
    push_padded_left(&mut line, &chars_of(symbol), 3);
    push_repeat(&mut line, ' ', 3);
    push_chars(&mut line, &chars_of(meaning));
    proof {
        assert(Seq::new(3, |k: int| ' ') =~= spaces(3));
        assert(line@ =~= legend_spec(symbol@, meaning@));
    }
    line
}

/// The numbered entries of each menu, by number key: the label shown and the scene
/// it leads to. Number keys that no entry carries lead nowhere.
pub open spec fn quick_entry(scene: Scene, n: nat) -> Option<(Seq<char>, Scene)> {
    match scene {
        Scene::MainMenu => if n == 1 {
            Some(("New Adventure"@, Scene::CharacterCreation))
        } else if n == 2 {
            Some(("Continue"@, Scene::GameBoard))
        } else if n == 3 {
            Some(("Load Game"@, Scene::GameBoard))
        } else if n == 4 {
            Some(("Settings"@, Scene::Settings))
        } else if n == 5 {
            Some(("Credits"@, Scene::Credits))
        } else if n == 6 {
            Some(("Quit"@, Scene::Exit))
        } else {
            None
        },
        Scene::CharacterCreation => if n == 1 {
            Some(("Race"@, Scene::CharacterCreation))
        } else if n == 2 {
            Some(("Class"@, Scene::CharacterCreation))
        } else if n == 3 {
            Some(("Background"@, Scene::CharacterCreation))
        } else if n == 4 {
            Some(("Abilities"@, Scene::CharacterCreation))
        } else if n == 5 {
            Some(("Appearance"@, Scene::CharacterCreation))
        } else if n == 6 {
            Some(("Name"@, Scene::CharacterCreation))
        } else if n == 7 {
            Some(("Next"@, Scene::GameBoard))
        } else {
            None
        },
        Scene::GameBoard => if n == 1 {
            Some(("Inventory / Stats"@, Scene::StatsInventory))
        } else if n == 2 {
            Some(("World Map"@, Scene::WorldMap))
        } else if n == 3 {
            Some(("Combat"@, Scene::Combat))
        } else if n == 4 {
            Some(("Dialogue"@, Scene::Dialog))
        } else {
            None
        },
        Scene::Settings => if n == 1 {
            Some(("Audio"@, Scene::Settings))
        } else if n == 2 {
            Some(("Display"@, Scene::Settings))
        } else if n == 3 {
            Some(("Controls"@, Scene::Settings))
        } else if n == 0 {
            Some(("Back"@, Scene::MainMenu))
        } else {
            None
        },
        Scene::Combat => if n == 1 {
            Some(("Attack"@, Scene::GameBoard))
        } else if n == 2 {
            Some(("Defend"@, Scene::GameBoard))
        } else if n == 3 {
            Some(("Skills"@, Scene::GameBoard))
        } else if n == 4 {
            Some(("Items"@, Scene::Inventory))
        } else if n == 5 {
            Some(("Flee"@, Scene::GameBoard))
        } else {
            None
        },
        Scene::Dialog => if n == 1 {
            Some(("I am ready."@, Scene::GameBoard))
        } else if n == 2 {
            Some(("Tell me more."@, Scene::GameBoard))
        } else if n == 3 {
            Some(("Leave."@, Scene::GameBoard))
        } else {
            None
        },
        _ => None,
    }
}

/// Where number key `n` leads on `scene`, by the table above.
pub open spec fn quick_destination(scene: Scene, n: nat) -> Option<Scene> {
    match quick_entry(scene, n) {
        Some(e) => Some(e.1),
        None => None,
    }
}

/// The number of entries of each menu.
pub open spec fn menu_size(scene: Scene) -> nat {
    match scene {
        Scene::MainMenu => 6,
        Scene::CharacterCreation => 7,
        Scene::GameBoard => 4,
        Scene::Settings => 4,
        Scene::Combat => 5,
        Scene::Dialog => 3,
        _ => 0,
    }
}

proof fn lemma_no_entry_with_hotkey(items: Seq<NavItemView>, key: Seq<char>)
    requires
        forall|j: int| 0 <= j < items.len() ==> #[trigger] items[j].hotkey != key,
    ensures
        first_with_hotkey(items, key) is None,
    decreases items.len(),
{
    if items.len() > 0 {
        let rest = items.drop_first();
        assert forall|j: int| 0 <= j < rest.len() implies #[trigger] rest[j].hotkey != key by {
            assert(rest[j] == items[j + 1]);
        }
        lemma_no_entry_with_hotkey(rest, key);
    }
}

/// Number keys: on every scene, number `n` leads exactly where the entry numbered
/// `n` says, and nowhere when no entry carries that number (a number of two or
/// more digits never matches).
pub proof fn lemma_number_keys(scene: Scene, n: nat)
    ensures
        first_with_hotkey(menu_spec(scene), decimal(n)) == quick_destination(scene, n),
{
    let menu = menu_spec(scene);
    if n >= 10 {
        crate::text::lemma_decimal_len(n);
        assert forall|j: int| 0 <= j < menu.len() implies #[trigger] menu[j].hotkey != decimal(n) by {
            assert(menu[j].hotkey.len() == 1);
        }
        lemma_no_entry_with_hotkey(menu, decimal(n));
    } else {
        assert(decimal(n) == seq![crate::text::digit_char(n)]);
        match scene {
            Scene::MainMenu => lemma_digit_key(Scene::MainMenu, n),
            Scene::CharacterCreation => lemma_digit_key(Scene::CharacterCreation, n),
            Scene::GameBoard => lemma_digit_key(Scene::GameBoard, n),
            Scene::Settings => lemma_digit_key(Scene::Settings, n),
            Scene::Combat => lemma_digit_key(Scene::Combat, n),
            Scene::Dialog => lemma_digit_key(Scene::Dialog, n),
            _ => {},
        }
    }
}

proof fn lemma_digit_key(scene: Scene, n: nat)
    requires
        n < 10,
    ensures
        first_with_hotkey(menu_spec(scene), seq![crate::text::digit_char(n)]) == quick_destination(scene, n),
{
    let c = crate::text::digit_char(n);
    assert forall|d: char| #[trigger] seq![d] == seq![c] <==> d == c by {
        if seq![d] == seq![c] {
            assert(seq![d][0] == seq![c][0]);
        }
    }
    reveal_with_fuel(first_with_hotkey, 8);
    assert(n == 0 || n == 1 || n == 2 || n == 3 || n == 4 || n == 5 || n == 6 || n == 7 || n == 8
        || n == 9);
}

/// Every menu entry, looked up by its number, shows the label and leads to the scene
/// of the entry with that number, and Enter on it goes there too.
pub proof fn lemma_menu_entries(scene: Scene, i: int)
    ensures
        menu_spec(scene).len() == menu_size(scene),
        0 <= i < menu_size(scene) ==> quick_entry(scene, hotkey_number(scene, i)) == Some(
            (menu_spec(scene)[i].label, menu_spec(scene)[i].target),
        ),
        0 <= i < menu_size(scene) ==> selected_target_spec(scene, i) == quick_destination(
            scene,
            hotkey_number(scene, i),
        ),
{
}

/// Escape, over every scene: the secondary scenes (stats & inventory, map,
/// inventory, combat, dialog) return to the game board; character creation, the
/// game board, settings, credits and the end screen return to the main menu; the
/// main menu returns to the title; the title has nowhere to go.
pub proof fn lemma_escape_targets(scene: Scene)
    ensures
        (scene == Scene::StatsInventory || scene == Scene::WorldMap || scene == Scene::Inventory
            || scene == Scene::Combat || scene == Scene::Dialog) ==> back_spec(scene) == Some(
            Scene::GameBoard,
        ),
        (scene == Scene::CharacterCreation || scene == Scene::GameBoard || scene == Scene::Settings
            || scene == Scene::Credits || scene == Scene::Exit) ==> back_spec(scene) == Some(
            Scene::MainMenu,
        ),
        scene == Scene::MainMenu ==> back_spec(scene) == Some(Scene::Title),
        scene == Scene::Title ==> back_spec(scene) is None,
{
}

/// Escape undoes a step away from the game board: whatever scene a number key of
/// the game board's menu opens, Escape from there leads back to the game board.
pub proof fn lemma_escape_undoes_board_menu(n: nat)
    ensures
        match first_with_hotkey(menu_spec(Scene::GameBoard), decimal(n)) {
            Some(target) => back_spec(target) == Some(Scene::GameBoard),
            None => true,
        },
{
    lemma_number_keys(Scene::GameBoard, n);
}

/// Enter with no menu entry highlighted: the title opens the main menu; the game
/// board and its secondary scenes and character creation go to the game board;
/// settings and credits return to the main menu; the end screen returns to the
/// title; the main menu goes nowhere.
pub proof fn lemma_enter_without_entry(scene: Scene, selected: int)
    requires
        !(0 <= selected < menu_size(scene)),
    ensures
        scene == Scene::Title ==> selected_target_spec(scene, selected) == Some(Scene::MainMenu),
        (scene == Scene::GameBoard || scene == Scene::StatsInventory || scene == Scene::Inventory
            || scene == Scene::WorldMap || scene == Scene::Combat || scene == Scene::Dialog
            || scene == Scene::CharacterCreation) ==> selected_target_spec(scene, selected) == Some(
            Scene::GameBoard,
        ),
        (scene == Scene::Settings || scene == Scene::Credits) ==> selected_target_spec(scene, selected)
            == Some(Scene::MainMenu),
        scene == Scene::Exit ==> selected_target_spec(scene, selected) == Some(Scene::Title),
        scene == Scene::MainMenu ==> selected_target_spec(scene, selected) is None,
{
}

} // verus!
