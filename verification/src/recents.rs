//! The carousel of recently played games: which game is shown, what the
//! buttons do, and the menu of actions on the shown game.
//!
//! The carousel holds the games and the state of its screen as plain values.
//! Whatever touches the database, the console table, the display or the
//! command channel is described by a [`CarouselAction`] that the caller
//! carries out, in order.
use vstd::prelude::*;

use crate::geom::{Point, Rect};
use crate::platform::{Key, KeyEvent};
use crate::{fits_i32, min_int, sat_sub, tdiv};

verus! {

/// What the carousel saves between runs.
#[derive(Debug, Clone, Copy, PartialEq, Eq, Structural)]
pub struct RecentsCarouselState {
    pub selected: usize,
}

impl Default for RecentsCarouselState {
    /// The first game is selected.
    fn default() -> (s: RecentsCarouselState)
        ensures
            s.selected == 0,
    {
        RecentsCarouselState { selected: 0 }
    }
}

/// A recently played game, as far as the carousel needs it.
#[derive(Debug, Clone)]
pub struct RecentGame {
    /// Name shown under the screenshot.
    pub name: String,
    /// Path of the game file; it identifies the game to the database.
    pub path: String,
    /// Whether the game is a favourite.
    pub favorite: bool,
    /// The emulator core chosen for the game, if any.
    pub core: Option<String>,
    /// A screenshot of the game, if one was taken.
    pub screenshot_path: Option<String>,
    /// The game's box art, if it has one.
    pub image_path: Option<String>,
}

/// An entry of the menu on the shown game.
#[derive(Debug, Clone, PartialEq, Eq)]
pub enum MenuEntry {
    /// Toggle the favourite mark; holds whether the game is a favourite.
    Favorite(bool),
    /// Launch the game; holds the display name of the core it will be
    /// launched with, if the console has cores to choose from.
    Launch(Option<String>),
    /// Launch the game without its saved state.
    Reset,
    /// Forget that the game was played.
    RemoveFromRecents,
    /// Scan the games directory again.
    RepopulateDatabase,
}

/// The cores the shown game can run on, and which of them is chosen.
#[derive(Debug, Clone)]
pub struct CoreSelection {
    pub core: usize,
    pub cores: Vec<String>,
    /// The display names of the cores, in the same order.
    pub names: Vec<String>,
}

/// The measures of the stylesheet that the carousel's layout uses.
#[derive(Debug, Clone, Copy, PartialEq, Eq, Structural)]
pub struct StyleMetrics {
    pub margin_x: i32,
    pub margin_y: i32,
    pub ui_font_size: u32,
    pub list_margin: i32,
    pub padding_y: i32,
}

/// Work for the caller, produced by a key press.
#[derive(Debug, Clone, PartialEq, Eq)]
pub enum CarouselAction {
    /// Launch the game at `index`; `reset` starts it without its saved state.
    LaunchGame { index: usize, reset: bool },
    /// Record in the database whether the game at `path` is a favourite.
    SetFavorite { path: String, favorite: bool },
    /// Record in the database the core chosen for the game at `path`.
    SetCore { path: String, core: String },
    /// Forget the game at `path`: reset its entry when the file exists,
    /// delete it otherwise.
    RemoveGame { path: String },
    /// Load the recent games again and hand them to [`RecentsCarousel::set_games`].
    ReloadGames,
    /// Look up the cores of the shown game and call [`RecentsCarousel::open_menu`].
    OpenMenu,
    /// The menu entry at `index` changed: show its new text.
    RefreshMenuItem { index: usize },
    /// Ask for the whole screen to be redrawn.
    Redraw,
    /// Start a search.
    StartSearch,
    /// Show the toast that tells the database is being populated.
    ShowPopulatingToast,
    /// Populate the database.
    PopulateDb,
    /// Hide the toast.
    ClearToast,
}

/// What a key press came to.
#[derive(Debug, Clone)]
pub struct KeyResponse {
    /// Whether the carousel used the key.
    pub handled: bool,
    /// The key goes to the open menu, whose answer is the answer.
    pub forward_to_menu: bool,
    /// Work for the caller, in order.
    pub actions: Vec<CarouselAction>,
}

/// Where the screenshot and the game's name go.
#[derive(Debug, Clone, Copy, PartialEq, Eq, Structural)]
pub struct CarouselLayout {
    pub screenshot: Rect,
    pub name_point: Point,
    pub name_width: u32,
}

/// Where the menu goes, and the height of one of its items.
#[derive(Debug, Clone, Copy, PartialEq, Eq, Structural)]
pub struct MenuLayout {
    pub rect: Rect,
    pub item_height: u32,
}

/// A rounded rectangle painted behind the menu.
#[derive(Debug, Clone, Copy, PartialEq, Eq, Structural)]
pub struct MenuBackground {
    pub rect: Rect,
    pub radius: u32,
}

/// What to paint.
#[derive(Debug, Clone, Copy, PartialEq, Eq, Structural)]
pub struct CarouselDrawPlan {
    /// The rounded rectangle behind the menu, when the menu is painted.
    pub menu_background: Option<MenuBackground>,
    /// Whether to paint the background over the carousel's rectangle.
    pub load_background: bool,
    /// Where to centre the "no recent games" text, when there are none.
    pub empty_label_at: Option<Point>,
}

/// Which kind of menu entry is being confirmed.
enum Choice {
    Favorite,
    Launch,
    Reset,
    Remove,
    Repopulate,
}

/// The carousel.
#[derive(Debug)]
pub struct RecentsCarousel {
    rect: Rect,
    games: Vec<RecentGame>,
    selected: usize,
    screenshot: Option<String>,
    game_name: String,
    menu_open: bool,
    menu_entries: Vec<MenuEntry>,
    core: Option<CoreSelection>,
    dirty: bool,
    refresh_widgets: bool,
    show_toasts: bool,
}

/// The abstract state of a [`RecentsCarousel`].
pub struct CarouselView {
    /// The rectangle the carousel covers.
    pub rect: Rect,
    /// The recent games, most recent first.
    pub games: Seq<RecentGame>,
    /// Index of the shown game.
    pub selected: usize,
    /// Path of the image shown.
    pub screenshot: Option<String>,
    /// Text of the name label.
    pub game_name: Seq<char>,
    /// Whether the menu is open.
    pub menu_open: bool,
    /// The entries of the menu last opened.
    pub menu_entries: Seq<MenuEntry>,
    /// The chosen core, the cores to choose from and their display names,
    /// while choosing is possible.
    pub core: Option<(usize, Seq<String>, Seq<String>)>,
    /// Whether the background needs repainting.
    pub dirty: bool,
    /// Whether the screenshot, the button hints and, after
    /// [`RecentsCarousel::set_should_draw`], the name label and the open
    /// menu were asked to repaint since the caller last took the request.
    pub refresh_widgets: bool,
    /// Whether toasts tell that the database is being populated.
    pub show_toasts: bool,
}

impl View for RecentsCarousel {
    type V = CarouselView;

    closed spec fn view(&self) -> CarouselView {
        CarouselView {
            rect: self.rect,
            games: self.games@,
            selected: self.selected,
            screenshot: self.screenshot,
            game_name: self.game_name@,
            menu_open: self.menu_open,
            menu_entries: self.menu_entries@,
            core: match self.core {
                Some(c) => Some((c.core, c.cores@, c.names@)),
                None => None,
            },
            dirty: self.dirty,
            refresh_widgets: self.refresh_widgets,
            show_toasts: self.show_toasts,
        }
    }
}

/// The carousel's invariant: a game is selected whenever there are games, and
/// the chosen core is one of the cores, each of which has a display name.
pub open spec fn wf(v: CarouselView) -> bool {
    &&& v.games.len() <= usize::MAX
    &&& v.games.len() == 0 ==> v.selected == 0
    &&& v.games.len() > 0 ==> v.selected < v.games.len()
    &&& v.core matches Some((c, cores, names)) ==> c < cores.len() <= usize::MAX && names.len()
        == cores.len()
}

/// `selected`, moved onto the last of `len` games if it is past it.
pub open spec fn clamp_selected(selected: int, len: int) -> int {
    min_int(selected, sat_sub(len, 1))
}

/// The text of the name label for a game: favourites carry a heart.
pub open spec fn name_label(g: RecentGame) -> Seq<char> {
    if g.favorite {
        "♥ "@ + g.name@
    } else {
        g.name@
    }
}

/// The image shown for a game: its screenshot, else its box art.
pub open spec fn screenshot_of(g: RecentGame) -> Option<String> {
    match g.screenshot_path {
        Some(p) => Some(p),
        None => g.image_path,
    }
}

/// The carousel after showing the selected game: its image and name, a
/// repaint, and a repaint of the screenshot and the button hints. With no
/// games, the image and the name are cleared.
pub open spec fn show_current(v: CarouselView) -> CarouselView {
    if v.games.len() == 0 {
        CarouselView { screenshot: None, game_name: Seq::empty(), ..v }
    } else {
        let g = v.games[v.selected as int];
        CarouselView {
            screenshot: screenshot_of(g),
            game_name: name_label(g),
            dirty: true,
            refresh_widgets: true,
            ..v
        }
    }
}

/// A carousel over `games` with `selected` (clamped) shown.
pub open spec fn initial_view(
    rect: Rect,
    games: Seq<RecentGame>,
    selected: usize,
    show_toasts: bool,
) -> CarouselView {
    show_current(
        CarouselView {
            rect,
            games,
            selected: clamp_selected(selected as int, games.len() as int) as usize,
            screenshot: None,
            game_name: Seq::empty(),
            menu_open: false,
            menu_entries: Seq::empty(),
            core: None,
            dirty: true,
            refresh_widgets: false,
            show_toasts,
        },
    )
}

/// The carousel after moving up one game, when there is one above.
pub open spec fn step_up(v: CarouselView) -> CarouselView {
    if v.selected > 0 {
        show_current(CarouselView { selected: (v.selected - 1) as usize, ..v })
    } else {
        v
    }
}

/// The carousel after moving down one game, when there is one below.
pub open spec fn step_down(v: CarouselView) -> CarouselView {
    if v.selected < sat_sub(v.games.len() as int, 1) {
        show_current(CarouselView { selected: (v.selected + 1) as usize, ..v })
    } else {
        v
    }
}

/// The carousel after its games were loaded again.
pub open spec fn with_games(v: CarouselView, games: Seq<RecentGame>) -> CarouselView {
    show_current(
        CarouselView {
            games,
            selected: clamp_selected(v.selected as int, games.len() as int) as usize,
            ..v
        },
    )
}

/// The launch of the shown game, if there is one.
pub open spec fn launch_actions(v: CarouselView, reset: bool) -> Seq<CarouselAction> {
    if v.selected < v.games.len() {
        seq![CarouselAction::LaunchGame { index: v.selected, reset }]
    } else {
        seq![]
    }
}

/// The next state, the answer and the work that a key press comes to.
pub struct KeyStep {
    pub next: CarouselView,
    pub handled: bool,
    pub forward: bool,
    pub actions: Seq<CarouselAction>,
}

/// A key press that the carousel used.
pub open spec fn used(next: CarouselView, actions: Seq<CarouselAction>) -> KeyStep {
    KeyStep { next, handled: true, forward: false, actions }
}

/// A key press while browsing the games.
pub open spec fn browse_key_step(v: CarouselView, event: KeyEvent) -> KeyStep {
    match event {
        KeyEvent::Pressed(Key::Up) => used(step_up(v), seq![]),
        KeyEvent::Autorepeat(Key::Up) => used(step_up(v), seq![]),
        KeyEvent::Pressed(Key::Down) => used(step_down(v), seq![]),
        KeyEvent::Autorepeat(Key::Down) => used(step_down(v), seq![]),
        KeyEvent::Pressed(Key::A) => used(v, launch_actions(v, false)),
        KeyEvent::Pressed(Key::X) => used(v, seq![CarouselAction::StartSearch]),
        KeyEvent::Pressed(Key::Select) => used(v, seq![CarouselAction::OpenMenu]),
        _ => KeyStep { next: v, handled: false, forward: false, actions: seq![] },
    }
}

/// The carousel with the menu closed.
pub open spec fn closed_menu(v: CarouselView) -> CarouselView {
    CarouselView { menu_open: false, ..v }
}

/// Choosing core `new_core` of `cores` (named `names`) while the menu entry
/// at `at` is highlighted: only the launch entry changes the choice, and it
/// then shows the new core's name.
pub open spec fn choose_core_step(
    v: CarouselView,
    at: int,
    new_core: int,
    cores: Seq<String>,
    names: Seq<String>,
) -> KeyStep {
    if v.menu_entries[at] is Launch {
        used(
            CarouselView {
                core: Some((new_core as usize, cores, names)),
                menu_entries: v.menu_entries.update(at, MenuEntry::Launch(Some(names[new_core]))),
                ..v
            },
            seq![CarouselAction::RefreshMenuItem { index: at as usize }],
        )
    } else {
        used(v, seq![])
    }
}

/// Confirming the menu entry at `at`; the menu closes.
pub open spec fn confirm_step(v: CarouselView, at: int) -> KeyStep {
    let has_game = v.selected < v.games.len();
    let g = v.games[v.selected as int];
    match v.menu_entries[at] {
        MenuEntry::Favorite(_) => if has_game {
            let toggled = RecentGame { favorite: !g.favorite, ..g };
            used(
                closed_menu(
                    show_current(
                        CarouselView { games: v.games.update(v.selected as int, toggled), ..v },
                    ),
                ),
                seq![
                    CarouselAction::SetFavorite { path: g.path, favorite: !g.favorite },
                    CarouselAction::Redraw,
                ],
            )
        } else {
            used(closed_menu(v), seq![CarouselAction::Redraw])
        },
        MenuEntry::Launch(_) => {
            let (games, record) = match v.core {
                Some((c, cores, _)) => if has_game {
                    (
                        v.games.update(
                            v.selected as int,
                            RecentGame { core: Some(cores[c as int]), ..g },
                        ),
                        seq![CarouselAction::SetCore { path: g.path, core: cores[c as int] }],
                    )
                } else {
                    (v.games, seq![])
                },
                None => (v.games, seq![]),
            };
            let after = CarouselView { games, core: None, ..v };
            used(closed_menu(after), record + launch_actions(after, false))
        },
        MenuEntry::Reset => used(closed_menu(v), launch_actions(v, true).push(CarouselAction::Redraw)),
        MenuEntry::RemoveFromRecents => if has_game {
            used(
                closed_menu(v),
                seq![
                    CarouselAction::RemoveGame { path: g.path },
                    CarouselAction::ReloadGames,
                    CarouselAction::Redraw,
                ],
            )
        } else {
            used(closed_menu(v), seq![])
        },
        MenuEntry::RepopulateDatabase => used(
            closed_menu(v),
            if v.show_toasts {
                seq![
                    CarouselAction::Redraw,
                    CarouselAction::ShowPopulatingToast,
                    CarouselAction::PopulateDb,
                    CarouselAction::ClearToast,
                    CarouselAction::Redraw,
                ]
            } else {
                seq![CarouselAction::Redraw, CarouselAction::PopulateDb, CarouselAction::Redraw]
            },
        ),
    }
}

/// A key press while the menu is open; `at` is the highlighted entry.
pub open spec fn menu_key_step(v: CarouselView, event: KeyEvent, at: int) -> KeyStep {
    match event {
        KeyEvent::Pressed(Key::Left) => match v.core {
            Some((c, cores, names)) => choose_core_step(v, at, sat_sub(c as int, 1), cores, names),
            None => used(v, seq![]),
        },
        KeyEvent::Pressed(Key::Right) => match v.core {
            Some((c, cores, names)) => choose_core_step(
                v,
                at,
                min_int(c + 1, cores.len() - 1),
                cores,
                names,
            ),
            None => used(v, seq![]),
        },
        KeyEvent::Pressed(Key::Select) => used(closed_menu(v), seq![CarouselAction::Redraw]),
        KeyEvent::Pressed(Key::B) => used(closed_menu(v), seq![CarouselAction::Redraw]),
        KeyEvent::Pressed(Key::A) => confirm_step(v, at),
        _ => KeyStep { next: v, handled: false, forward: true, actions: seq![] },
    }
}

/// A key press.
pub open spec fn key_step(v: CarouselView, event: KeyEvent, at: int) -> KeyStep {
    if v.menu_open {
        menu_key_step(v, event, at)
    } else {
        browse_key_step(v, event)
    }
}

/// Whether handling `event` reads the highlighted menu entry.
pub open spec fn reads_menu_entry(v: CarouselView, event: KeyEvent) -> bool {
    v.menu_open && (event == KeyEvent::Pressed(Key::A) || ((event == KeyEvent::Pressed(Key::Left)
        || event == KeyEvent::Pressed(Key::Right)) && v.core is Some))
}

/// Height of the label under the screenshot.
pub open spec fn label_height(m: StyleMetrics) -> int {
    m.margin_y * 2 + (m.ui_font_size as i32)
}

/// Height of the screenshot: what is left above the button hints once the
/// label is placed.
pub open spec fn screenshot_height(rect: Rect, hints_top: i32, m: StyleMetrics) -> int {
    sat_sub(((hints_top - rect.y) as u32) as int, (label_height(m) as u32) as int)
}

/// The layout arithmetic stays within its integer types.
pub open spec fn layout_fits(rect: Rect, hints_top: i32, m: StyleMetrics) -> bool {
    let sh = screenshot_height(rect, hints_top, m);
    &&& fits_i32(m.margin_y * 2)
    &&& fits_i32(label_height(m))
    &&& fits_i32(hints_top - rect.y)
    &&& fits_i32(rect.x + tdiv((rect.w as i32) as int, 2))
    &&& fits_i32(rect.y + ((sh as u32) as i32))
    &&& fits_i32(rect.y + ((sh as u32) as i32) + m.margin_y)
    &&& fits_i32(m.margin_x * 2)
    &&& rect.w >= ((m.margin_x * 2) as i32) as u32
}

/// Height of one menu item.
pub open spec fn item_height(m: StyleMetrics) -> int {
    m.ui_font_size + (m.padding_y as u32)
}

/// Height of one menu row, margin included.
pub open spec fn row_height(m: StyleMetrics) -> int {
    m.ui_font_size + (m.list_margin as u32) + (m.padding_y as u32)
}

/// The menu arithmetic stays within its integer types.
pub open spec fn menu_fits(rect: Rect, count: u32, m: StyleMetrics) -> bool {
    let height = count * row_height(m);
    &&& m.ui_font_size + (m.list_margin as u32) <= u32::MAX
    &&& row_height(m) <= u32::MAX
    &&& height <= u32::MAX
    &&& fits_i32(m.margin_x * 2)
    &&& fits_i32(rect.x + m.margin_x)
    &&& fits_i32((rect.w as i32) - m.margin_x * 2)
    &&& fits_i32(rect.x + m.margin_x + tdiv((rect.w as i32) - m.margin_x * 2, 6))
    &&& fits_i32(rect.y + (rect.h as i32))
    &&& fits_i32(rect.y + (rect.h as i32) - ((height as u32) as i32))
    &&& (m.margin_x as u32) * 2 <= u32::MAX
    &&& rect.w >= (m.margin_x as u32) * 2
    &&& (rect.w - (m.margin_x as u32) * 2) * 2 <= u32::MAX
    &&& item_height(m) <= u32::MAX
}

/// The menu's place: centred on the carousel, two thirds of its inner width.
pub open spec fn menu_rect(rect: Rect, count: u32, m: StyleMetrics) -> Rect {
    let height = (count * row_height(m)) as u32;
    Rect {
        x: (rect.x + m.margin_x + tdiv((rect.w as i32) - m.margin_x * 2, 6)) as i32,
        y: tdiv(rect.y + (rect.h as i32) - (height as i32), 2) as i32,
        w: ((rect.w - (m.margin_x as u32) * 2) * 2 / 3) as u32,
        h: height,
    }
}

/// The rectangle behind the menu: the menu's box grown by the horizontal
/// margin (twice as much sideways).
pub open spec fn menu_background(b: Rect, m: StyleMetrics) -> Rect {
    Rect {
        x: (b.x - m.margin_x * 2) as i32,
        y: (b.y - m.margin_x) as i32,
        w: (b.w + (m.margin_x as u32) * 4) as u32,
        h: (b.h + (m.margin_x as u32) * 2) as u32,
    }
}

/// The menu background arithmetic stays within its integer types.
pub open spec fn background_fits(b: Rect, m: StyleMetrics) -> bool {
    &&& fits_i32(m.margin_x * 2)
    &&& fits_i32(b.x - m.margin_x * 2)
    &&& fits_i32(b.y - m.margin_x)
    &&& (m.margin_x as u32) * 4 <= u32::MAX
    &&& b.w + (m.margin_x as u32) * 4 <= u32::MAX
    &&& (m.margin_x as u32) * 2 <= u32::MAX
    &&& b.h + (m.margin_x as u32) * 2 <= u32::MAX
    &&& m.ui_font_size + (m.margin_y as u32) <= u32::MAX
}

/// The centre of a rectangle.
pub open spec fn center_of(r: Rect) -> Point {
    Point {
        x: (r.x + tdiv((r.w as i32) as int, 2)) as i32,
        y: (r.y + tdiv((r.h as i32) as int, 2)) as i32,
    }
}

/// The centre of a rectangle lies within `i32`.
pub open spec fn center_fits(r: Rect) -> bool {
    &&& fits_i32(r.x + tdiv((r.w as i32) as int, 2))
    &&& fits_i32(r.y + tdiv((r.h as i32) as int, 2))
}

/// The core offered first for a game: its own, else the console's first.
pub open spec fn chosen_core(g: RecentGame, cores: Seq<String>) -> String {
    match g.core {
        Some(c) => c,
        None => cores[0],
    }
}

/// The display name of the core offered first for a game: that of its own
/// core (`own_name`), else that of the console's first core.
pub open spec fn chosen_core_name(g: RecentGame, names: Seq<String>, own_name: Option<String>) -> String {
    match g.core {
        Some(_) => own_name.unwrap(),
        None => names[0],
    }
}

/// The entries of the menu on game `g` whose console has `cores`, named
/// `names`; `own_name` names the game's own core.
pub open spec fn menu_entries_for(
    g: RecentGame,
    cores: Seq<String>,
    names: Seq<String>,
    own_name: Option<String>,
) -> Seq<MenuEntry> {
    seq![
        MenuEntry::Favorite(g.favorite),
        MenuEntry::Launch(
            if cores.len() > 0 {
                Some(chosen_core_name(g, names, own_name))
            } else {
                None
            },
        ),
        MenuEntry::Reset,
        MenuEntry::RemoveFromRecents,
        MenuEntry::RepopulateDatabase,
    ]
}

/// `i` is the position of the first core named `c`, or 0 when none is.
pub open spec fn is_core_position(cores: Seq<String>, c: String, i: int) -> bool {
    if exists|j: int| 0 <= j < cores.len() && (#[trigger] cores[j])@ == c@ {
        &&& 0 <= i < cores.len()
        &&& cores[i]@ == c@
        &&& forall|j: int| 0 <= j < i ==> (#[trigger] cores[j])@ != c@
    } else {
        i == 0
    }
}

/// The number of entries of the menu.
pub const MENU_ENTRY_COUNT: u32 = 5;

/// Position of the first core named like `core`, or 0 when none is.
fn position_of(cores: &Vec<String>, core: &String) -> (i: usize)
    ensures
        is_core_position(cores@, *core, i as int),
{
    let mut i: usize = 0;
    while i < cores.len()
        invariant
            i <= cores@.len(),
            forall|j: int| 0 <= j < i ==> (#[trigger] cores@[j])@ != core@,
        decreases cores.len() - i,
    {
        if cores[i] == *core {
            return i;
        }
        i = i + 1;
    }
    0
}

/// Moving up then down comes back to the same game, shown again.
pub proof fn lemma_up_then_down(v: CarouselView)
    requires
        wf(v),
        v.selected > 0,
    ensures
        step_down(step_up(v)) == show_current(v),
{
}

/// Moving down then up comes back to the same game, shown again.
pub proof fn lemma_down_then_up(v: CarouselView)
    requires
        wf(v),
        v.selected + 1 < v.games.len(),
    ensures
        step_up(step_down(v)) == show_current(v),
{
}

/// Moving down goes to the next game when there is one, and otherwise stays;
/// it never passes the last game and leaves the games as they are.
pub proof fn lemma_step_down_bounds(v: CarouselView)
    requires
        wf(v),
    ensures
        step_down(v).selected == if v.selected + 1 < v.games.len() {
            v.selected + 1
        } else {
            v.selected as int
        },
        wf(step_down(v)),
        step_down(v).games == v.games,
{
}

/// Moving up goes to the previous game when there is one, and otherwise
/// stays; it leaves the games as they are.
pub proof fn lemma_step_up_bounds(v: CarouselView)
    requires
        wf(v),
    ensures
        step_up(v).selected == if v.selected > 0 {
            v.selected - 1
        } else {
            v.selected as int
        },
        wf(step_up(v)),
        step_up(v).games == v.games,
{
}

/// On the launch entry, choosing the previous core then the next one comes
/// back to the core chosen before, unless the first core was chosen.
pub proof fn lemma_core_left_then_right(v: CarouselView, at: int)
    requires
        wf(v),
        v.menu_open,
        0 <= at < v.menu_entries.len(),
        v.menu_entries[at] is Launch,
        v.core matches Some((c, _, _)) && c > 0,
    ensures
        menu_key_step(menu_key_step(v, KeyEvent::Pressed(Key::Left), at).next, KeyEvent::Pressed(Key::Right), at).next.core
            == v.core,
{
}

/// On the launch entry, choosing the next core then the previous one comes
/// back to the core chosen before, unless the last core was chosen.
pub proof fn lemma_core_right_then_left(v: CarouselView, at: int)
    requires
        wf(v),
        v.menu_open,
        0 <= at < v.menu_entries.len(),
        v.menu_entries[at] is Launch,
        v.core matches Some((c, cores, _)) && c + 1 < cores.len(),
    ensures
        menu_key_step(menu_key_step(v, KeyEvent::Pressed(Key::Right), at).next, KeyEvent::Pressed(Key::Left), at).next.core
            == v.core,
{
}

/// Every launch that a key press asks for names one of the games.
pub proof fn lemma_launches_name_a_game(v: CarouselView, event: KeyEvent, at: int)
    requires
        wf(v),
        reads_menu_entry(v, event) ==> 0 <= at < v.menu_entries.len(),
    ensures
        forall|i: int|
            0 <= i < key_step(v, event, at).actions.len() ==> (#[trigger] key_step(v, event, at).actions[i] matches CarouselAction::LaunchGame { index, .. } ==> index < v.games.len()),
        key_step(v, event, at).next.games.len() == v.games.len(),
{
}

/// Confirming an entry, or pressing Select or B, closes the menu.
pub proof fn lemma_menu_closes(v: CarouselView, event: KeyEvent, at: int)
    requires
        wf(v),
        v.menu_open,
        event == KeyEvent::Pressed(Key::A) || event == KeyEvent::Pressed(Key::B) || event
            == KeyEvent::Pressed(Key::Select),
        event == KeyEvent::Pressed(Key::A) ==> 0 <= at < v.menu_entries.len(),
    ensures
        !key_step(v, event, at).next.menu_open,
        key_step(v, event, at).handled,
{
}

/// Confirming the favourite entry while a game is shown flips that game's
/// favourite mark and nothing else about the games, records the new mark for
/// the game's path, and shows the name with or without the heart to match.
pub proof fn lemma_favorite_toggles(v: CarouselView, at: int)
    requires
        wf(v),
        v.menu_open,
        0 <= at < v.menu_entries.len(),
        v.menu_entries[at] is Favorite,
        v.selected < v.games.len(),
    ensures
        ({
            let s = key_step(v, KeyEvent::Pressed(Key::A), at);
            let old_game = v.games[v.selected as int];
            let new_game = s.next.games[v.selected as int];
            &&& s.handled
            &&& !s.next.menu_open
            &&& s.next.selected == v.selected
            &&& s.next.games.len() == v.games.len()
            &&& new_game.favorite == !old_game.favorite
            &&& new_game.name == old_game.name
            &&& new_game.path == old_game.path
            &&& new_game.core == old_game.core
            &&& new_game.screenshot_path == old_game.screenshot_path
            &&& new_game.image_path == old_game.image_path
            &&& forall|j: int|
                0 <= j < v.games.len() && j != v.selected ==> s.next.games[j] == v.games[j]
            &&& s.actions.len() == 2
            &&& s.actions[0] == CarouselAction::SetFavorite {
                path: old_game.path,
                favorite: !old_game.favorite,
            }
            &&& s.actions[1] == CarouselAction::Redraw
            &&& s.next.game_name == if old_game.favorite {
                old_game.name@
            } else {
                "♥ "@ + old_game.name@
            }
        }),
{
}

/// While browsing, holding Up or Down acts exactly as pressing it: the key is
/// used, and the selection moves to the previous (next) game when there is one
/// and stays otherwise, without touching the games.
pub proof fn lemma_held_keys_act_as_pressed(v: CarouselView, at: int)
    requires
        wf(v),
        !v.menu_open,
    ensures
        key_step(v, KeyEvent::Autorepeat(Key::Up), at) == key_step(v, KeyEvent::Pressed(Key::Up), at),
        key_step(v, KeyEvent::Autorepeat(Key::Down), at) == key_step(
            v,
            KeyEvent::Pressed(Key::Down),
            at,
        ),
        key_step(v, KeyEvent::Autorepeat(Key::Up), at).handled,
        key_step(v, KeyEvent::Autorepeat(Key::Down), at).handled,
        key_step(v, KeyEvent::Autorepeat(Key::Up), at).actions.len() == 0,
        key_step(v, KeyEvent::Autorepeat(Key::Down), at).actions.len() == 0,
        key_step(v, KeyEvent::Autorepeat(Key::Up), at).next.games == v.games,
        key_step(v, KeyEvent::Autorepeat(Key::Down), at).next.games == v.games,
        key_step(v, KeyEvent::Autorepeat(Key::Up), at).next.selected == if v.selected > 0 {
            v.selected - 1
        } else {
            v.selected as int
        },
        key_step(v, KeyEvent::Autorepeat(Key::Down), at).next.selected == if v.selected + 1
            < v.games.len() {
            v.selected + 1
        } else {
            v.selected as int
        },
{
}

/// Reloading the games keeps the selection where it is when it still names a
/// game, and otherwise moves it onto the last game (or to 0 when there are
/// none); the new games are held as given, and the selected one is shown.
pub proof fn lemma_reload_keeps_selection(v: CarouselView, games: Seq<RecentGame>)
    requires
        wf(v),
        games.len() <= usize::MAX,
    ensures
        with_games(v, games).games == games,
        with_games(v, games).selected == if v.selected < games.len() {
            v.selected as int
        } else if games.len() > 0 {
            games.len() - 1
        } else {
            0
        },
        wf(with_games(v, games)),
        games.len() > 0 ==> with_games(v, games).game_name == if games[with_games(
            v,
            games,
        ).selected as int].favorite {
            "♥ "@ + games[with_games(v, games).selected as int].name@
        } else {
            games[with_games(v, games).selected as int].name@
        },
{
}

/// The menu opened on a game starts with the favourite entry carrying that
/// game's own mark, and offers launching with the name of the game's own core
/// (or of the console's first core) exactly when the console has cores.
pub proof fn lemma_menu_entries_follow_the_game(
    g: RecentGame,
    cores: Seq<String>,
    names: Seq<String>,
    own_name: Option<String>,
)
    requires
        names.len() == cores.len(),
        cores.len() > 0 && g.core is Some ==> own_name is Some,
    ensures
        menu_entries_for(g, cores, names, own_name).len() == 5,
        menu_entries_for(g, cores, names, own_name)[0] == MenuEntry::Favorite(g.favorite),
        cores.len() == 0 ==> menu_entries_for(g, cores, names, own_name)[1] == MenuEntry::Launch(
            None,
        ),
        cores.len() > 0 && g.core is None ==> menu_entries_for(g, cores, names, own_name)[1]
            == MenuEntry::Launch(Some(names[0])),
        cores.len() > 0 && g.core is Some ==> menu_entries_for(g, cores, names, own_name)[1]
            == MenuEntry::Launch(own_name),
        menu_entries_for(g, cores, names, own_name)[2] == MenuEntry::Reset,
        menu_entries_for(g, cores, names, own_name)[3] == MenuEntry::RemoveFromRecents,
        menu_entries_for(g, cores, names, own_name)[4] == MenuEntry::RepopulateDatabase,
{
}

/// While browsing, A launches the shown game (when there is one) without
/// resetting it, X starts a search, Select asks for the menu, and none of
/// them changes the carousel; a key not listed is left unused.
pub proof fn lemma_browse_answers(v: CarouselView, at: int)
    requires
        wf(v),
        !v.menu_open,
    ensures
        key_step(v, KeyEvent::Pressed(Key::A), at).next == v,
        key_step(v, KeyEvent::Pressed(Key::A), at).handled,
        v.games.len() > 0 ==> key_step(v, KeyEvent::Pressed(Key::A), at).actions == seq![
            CarouselAction::LaunchGame { index: v.selected, reset: false },
        ],
        v.games.len() == 0 ==> key_step(v, KeyEvent::Pressed(Key::A), at).actions.len() == 0,
        key_step(v, KeyEvent::Pressed(Key::X), at).actions == seq![CarouselAction::StartSearch],
        key_step(v, KeyEvent::Pressed(Key::X), at).next == v,
        key_step(v, KeyEvent::Pressed(Key::Select), at).actions == seq![CarouselAction::OpenMenu],
        key_step(v, KeyEvent::Pressed(Key::Select), at).next == v,
        !key_step(v, KeyEvent::Pressed(Key::B), at).handled,
        key_step(v, KeyEvent::Pressed(Key::B), at).next == v,
        !key_step(v, KeyEvent::Autorepeat(Key::A), at).handled,
{
}

/// Confirming the launch entry records the chosen core for the shown game
/// (when a core is being chosen) and launches it without resetting; reset
/// launches it with a reset; removing it asks to forget its path and to load
/// the games again.
pub proof fn lemma_confirm_answers(v: CarouselView, at: int)
    requires
        wf(v),
        v.menu_open,
        0 <= at < v.menu_entries.len(),
        v.selected < v.games.len(),
    ensures
        ({
            let s = key_step(v, KeyEvent::Pressed(Key::A), at);
            let g = v.games[v.selected as int];
            &&& v.menu_entries[at] is Launch && v.core is Some ==> {
                let chosen = v.core.unwrap().1[v.core.unwrap().0 as int];
                &&& s.actions == seq![
                    CarouselAction::SetCore { path: g.path, core: chosen },
                    CarouselAction::LaunchGame { index: v.selected, reset: false },
                ]
                &&& s.next.games[v.selected as int].core == Some(chosen)
                &&& s.next.games[v.selected as int].favorite == g.favorite
                &&& s.next.core is None
            }
            &&& v.menu_entries[at] is Launch && v.core is None ==> s.actions == seq![
                CarouselAction::LaunchGame { index: v.selected, reset: false },
            ] && s.next.games == v.games
            &&& v.menu_entries[at] is Reset ==> s.actions == seq![
                CarouselAction::LaunchGame { index: v.selected, reset: true },
                CarouselAction::Redraw,
            ] && s.next.games == v.games
            &&& v.menu_entries[at] is RemoveFromRecents ==> s.actions == seq![
                CarouselAction::RemoveGame { path: g.path },
                CarouselAction::ReloadGames,
                CarouselAction::Redraw,
            ] && s.next.games == v.games
            &&& v.menu_entries[at] is RepopulateDatabase ==> s.actions.contains(
                CarouselAction::PopulateDb,
            ) && s.next.games == v.games
        }),
{
    let s = key_step(v, KeyEvent::Pressed(Key::A), at);
    if v.menu_entries[at] is RepopulateDatabase {
        if v.show_toasts {
            assert(s.actions[2] == CarouselAction::PopulateDb);
        } else {
            assert(s.actions[1] == CarouselAction::PopulateDb);
        }
    }
}

/// The shown game's image is its screenshot when it has one and its box art
/// otherwise, and its name carries a heart exactly when it is a favourite.
pub proof fn lemma_shown_game(v: CarouselView)
    requires
        wf(v),
        v.games.len() > 0,
    ensures
        ({
            let g = v.games[v.selected as int];
            let shown = show_current(v);
            &&& g.screenshot_path is Some ==> shown.screenshot == g.screenshot_path
            &&& g.screenshot_path is None ==> shown.screenshot == g.image_path
            &&& g.favorite ==> shown.game_name == "♥ "@ + g.name@
            &&& !g.favorite ==> shown.game_name == g.name@
            &&& shown.dirty
            &&& shown.selected == v.selected
            &&& shown.games == v.games
        }),
{
}

/// Where the screenshot and the name label go, for a carousel over `rect`
/// whose button hints start at height `hints_top`.
pub fn layout(rect: Rect, hints_top: i32, m: &StyleMetrics) -> (l: CarouselLayout)
    requires
        layout_fits(rect, hints_top, *m),
    ensures
        l.screenshot == (Rect {
            x: rect.x,
            y: rect.y,
            w: rect.w,
            h: screenshot_height(rect, hints_top, *m) as u32,
        }),
        l.name_point.x == rect.x + tdiv((rect.w as i32) as int, 2),
        l.name_point.y == rect.y + ((screenshot_height(rect, hints_top, *m) as u32) as i32) + m.margin_y,
        l.name_width == rect.w - ((m.margin_x * 2) as i32) as u32,
{
    let label_height = m.margin_y * 2 + m.ui_font_size as i32;
    let available_height = (hints_top - rect.y) as u32;
    let label_height_u32 = label_height as u32;
    let screenshot_height = if available_height >= label_height_u32 {
        available_height - label_height_u32
    } else {
        0
    };
    let screenshot = Rect::new(rect.x, rect.y, rect.w, screenshot_height);
    let name_point = Point::new(
        rect.x + rect.w as i32 / 2,
        rect.y + screenshot_height as i32 + m.margin_y,
    );
    let name_width = rect.w - (m.margin_x * 2) as u32;
    CarouselLayout { screenshot, name_point, name_width }
}

/// Where a menu of `count` entries goes over the carousel's rectangle `rect`.
pub fn menu_layout(rect: Rect, count: u32, m: &StyleMetrics) -> (l: MenuLayout)
    requires
        menu_fits(rect, count, *m),
    ensures
        l.rect == menu_rect(rect, count, *m),
        l.item_height == item_height(*m),
{
    let row = m.ui_font_size + m.list_margin as u32 + m.padding_y as u32;
    assert(count * row <= u32::MAX);
    let height = count * row;
    let x = rect.x + m.margin_x + (rect.w as i32 - m.margin_x * 2) / 6;
    let y = (rect.y + rect.h as i32 - height as i32) / 2;
    let w = (rect.w - m.margin_x as u32 * 2) * 2 / 3;
    MenuLayout { rect: Rect::new(x, y, w, height), item_height: m.ui_font_size + m.padding_y as u32 }
}

impl RecentsCarousel {
    /// A carousel over `rect` showing `games`, with the saved selection moved
    /// onto the last game if it is past it. `show_toasts` tells whether toasts
    /// accompany populating the database (they do not on the device itself).
    pub fn new(
        rect: Rect,
        games: Vec<RecentGame>,
        state: RecentsCarouselState,
        show_toasts: bool,
    ) -> (c: RecentsCarousel)
        ensures
            wf(c@),
            c@ == initial_view(rect, games@, state.selected, show_toasts),
    {
        let len = games.len();
        let last = if len >= 1 { len - 1 } else { 0 };
        let selected = if state.selected <= last { state.selected } else { last };
        let mut carousel = RecentsCarousel {
            rect,
            games,
            selected,
            screenshot: None,
            game_name: String::new(),
            menu_open: false,
            menu_entries: Vec::new(),
            core: None,
            dirty: true,
            refresh_widgets: false,
            show_toasts,
        };
        carousel.update_current_game();
        carousel
    }

    /// A carousel from the saved state, or from the start when there is none.
    pub fn load_or_new(
        rect: Rect,
        games: Vec<RecentGame>,
        state: Option<RecentsCarouselState>,
        show_toasts: bool,
    ) -> (c: RecentsCarousel)
        ensures
            wf(c@),
            c@ == initial_view(
                rect,
                games@,
                match state {
                    Some(s) => s.selected,
                    None => 0,
                },
                show_toasts,
            ),
    {
        let state = match state {
            Some(s) => s,
            None => RecentsCarouselState::default(),
        };
        RecentsCarousel::new(rect, games, state, show_toasts)
    }

    /// Shows the selected game's image and name.
    fn update_current_game(&mut self)
        requires
            wf(old(self)@),
        ensures
            final(self)@ == show_current(old(self)@),
    {
        if self.games.len() == 0 {
            self.screenshot = None;
            self.game_name = String::new();
            return;
        }
        let game = &self.games[self.selected];
        let screenshot = match &game.screenshot_path {
            Some(p) => Some(p.clone()),
            None => match &game.image_path {
                Some(p) => Some(p.clone()),
                None => None,
            },
        };
        let name = if game.favorite {
            let mut label = String::from_str("♥ ");
            label.append(game.name.as_str());
            label
        } else {
            game.name.clone()
        };
        self.screenshot = screenshot;
        self.game_name = name;
        self.dirty = true;
        self.refresh_widgets = true;
    }

    /// The state to save: the carousel always starts again at the most
    /// recent game.
    pub fn save(&self) -> (s: RecentsCarouselState)
        ensures
            s.selected == 0,
    {
        RecentsCarouselState { selected: 0 }
    }

    /// Shows the game above, if there is one.
    fn navigate_up(&mut self)
        requires
            wf(old(self)@),
        ensures
            final(self)@ == step_up(old(self)@),
    {
        if self.selected > 0 {
            self.selected = self.selected - 1;
            self.update_current_game();
        }
    }

    /// Shows the game below, if there is one.
    fn navigate_down(&mut self)
        requires
            wf(old(self)@),
        ensures
            final(self)@ == step_down(old(self)@),
    {
        let len = self.games.len();
        let last = if len >= 1 { len - 1 } else { 0 };
        if self.selected < last {
            self.selected = self.selected + 1;
            self.update_current_game();
        }
    }

    /// The launch of the shown game.
    fn launch_game(&self, reset: bool) -> (actions: Vec<CarouselAction>)
        ensures
            actions@ == launch_actions(self@, reset),
    {
        let mut actions: Vec<CarouselAction> = Vec::new();
        if self.selected < self.games.len() {
            actions.push(CarouselAction::LaunchGame { index: self.selected, reset });
        }
        actions
    }

    /// Replaces the games with freshly loaded ones, keeping the selection
    /// where it can.
    pub fn set_games(&mut self, games: Vec<RecentGame>)
        requires
            wf(old(self)@),
        ensures
            wf(final(self)@),
            final(self)@ == with_games(old(self)@, games@),
    {
        let len = games.len();
        let last = if len >= 1 { len - 1 } else { 0 };
        if self.selected > last {
            self.selected = last;
        }
        self.games = games;
        self.update_current_game();
    }

    /// Opens the menu on the shown game, whose console runs on `cores`, and
    /// gives where the menu goes. `names` are the display names of `cores`,
    /// in the same order, and `own_core_name` that of the game's own core,
    /// when it has one. With no game shown nothing happens.
    pub fn open_menu(
        &mut self,
        cores: Vec<String>,
        names: Vec<String>,
        own_core_name: Option<String>,
        m: &StyleMetrics,
    ) -> (layout: Option<MenuLayout>)
        requires
            wf(old(self)@),
            names@.len() == cores@.len(),
            old(self)@.selected < old(self)@.games.len() ==> menu_fits(
                old(self)@.rect,
                MENU_ENTRY_COUNT,
                *m,
            ),
            old(self)@.selected < old(self)@.games.len() && cores@.len() > 0 && old(
                self,
            )@.games[old(self)@.selected as int].core is Some ==> own_core_name is Some,
        ensures
            wf(final(self)@),
            old(self)@.selected >= old(self)@.games.len() ==> final(self)@ == old(self)@ && layout
                is None,
            old(self)@.selected < old(self)@.games.len() ==> {
                let g = old(self)@.games[old(self)@.selected as int];
                &&& layout == Some(
                    MenuLayout {
                        rect: menu_rect(old(self)@.rect, MENU_ENTRY_COUNT, *m),
                        item_height: item_height(*m) as u32,
                    },
                )
                &&& final(self)@.menu_open
                &&& final(self)@.menu_entries == menu_entries_for(g, cores@, names@, own_core_name)
                &&& final(self)@.menu_entries.len() == 5
                &&& final(self)@.menu_entries[0] == MenuEntry::Favorite(g.favorite)
                &&& cores@.len() == 0 ==> final(self)@.core is None
                &&& cores@.len() > 0 ==> (final(self)@.core matches Some((i, cs, ns)) && cs == cores@
                    && ns == names@ && is_core_position(cores@, chosen_core(g, cores@), i as int))
                &&& final(self)@ == (CarouselView {
                    menu_open: final(self)@.menu_open,
                    menu_entries: final(self)@.menu_entries,
                    core: final(self)@.core,
                    ..old(self)@
                })
            },
    {
        let ghost offered = cores@;
        let ghost offered_names = names@;
        let ghost own = own_core_name;
        if self.selected >= self.games.len() {
            return None;
        }
        let game = &self.games[self.selected];
        let launch = if cores.len() > 0 {
            let core = match &game.core {
                Some(c) => c.clone(),
                None => cores[0].clone(),
            };
            let name = match &game.core {
                Some(_) => own_core_name.unwrap(),
                None => names[0].clone(),
            };
            let i = position_of(&cores, &core);
            self.core = Some(CoreSelection { core: i, cores, names });
            Some(name)
        } else {
            self.core = None;
            None
        };
        let entries = vec![
            MenuEntry::Favorite(game.favorite),
            MenuEntry::Launch(launch),
            MenuEntry::Reset,
            MenuEntry::RemoveFromRecents,
            MenuEntry::RepopulateDatabase,
        ];
        let layout = menu_layout(self.rect, MENU_ENTRY_COUNT, m);
        self.menu_entries = entries;
        self.menu_open = true;
        assert(self.menu_entries@ =~= menu_entries_for(
            old(self)@.games[old(self)@.selected as int],
            offered,
            offered_names,
            own,
        ));
        Some(layout)
    }

    /// Handles a key press. `menu_selected` is the entry highlighted in the
    /// open menu (the menu list keeps it, and moves it on the keys it is
    /// forwarded).
    pub fn handle_key_event(&mut self, event: KeyEvent, menu_selected: usize) -> (r: KeyResponse)
        requires
            wf(old(self)@),
            reads_menu_entry(old(self)@, event) ==> menu_selected < old(self)@.menu_entries.len(),
        ensures
            wf(final(self)@),
            final(self)@ == key_step(old(self)@, event, menu_selected as int).next,
            r.handled == key_step(old(self)@, event, menu_selected as int).handled,
            r.forward_to_menu == key_step(old(self)@, event, menu_selected as int).forward,
            r.actions@ == key_step(old(self)@, event, menu_selected as int).actions,
    {
        if self.menu_open {
            self.handle_menu_key(event, menu_selected)
        } else {
            self.handle_browse_key(event)
        }
    }

    /// A key press while browsing the games.
    fn handle_browse_key(&mut self, event: KeyEvent) -> (r: KeyResponse)
        requires
            wf(old(self)@),
        ensures
            wf(final(self)@),
            final(self)@ == browse_key_step(old(self)@, event).next,
            r.handled == browse_key_step(old(self)@, event).handled,
            r.forward_to_menu == browse_key_step(old(self)@, event).forward,
            r.actions@ == browse_key_step(old(self)@, event).actions,
    {
        match event {
            KeyEvent::Pressed(Key::Up) | KeyEvent::Autorepeat(Key::Up) => {
                self.navigate_up();
                KeyResponse { handled: true, forward_to_menu: false, actions: Vec::new() }
            },
            KeyEvent::Pressed(Key::Down) | KeyEvent::Autorepeat(Key::Down) => {
                self.navigate_down();
                KeyResponse { handled: true, forward_to_menu: false, actions: Vec::new() }
            },
            KeyEvent::Pressed(Key::A) => {
                let actions = self.launch_game(false);
                KeyResponse { handled: true, forward_to_menu: false, actions }
            },
            KeyEvent::Pressed(Key::X) => KeyResponse {
                handled: true,
                forward_to_menu: false,
                actions: vec![CarouselAction::StartSearch],
            },
            KeyEvent::Pressed(Key::Select) => KeyResponse {
                handled: true,
                forward_to_menu: false,
                actions: vec![CarouselAction::OpenMenu],
            },
            _ => KeyResponse { handled: false, forward_to_menu: false, actions: Vec::new() },
        }
    }

    /// A key press while the menu is open.
    fn handle_menu_key(&mut self, event: KeyEvent, at: usize) -> (r: KeyResponse)
        requires
            wf(old(self)@),
            old(self)@.menu_open,
            reads_menu_entry(old(self)@, event) ==> at < old(self)@.menu_entries.len(),
        ensures
            wf(final(self)@),
            final(self)@ == menu_key_step(old(self)@, event, at as int).next,
            r.handled == menu_key_step(old(self)@, event, at as int).handled,
            r.forward_to_menu == menu_key_step(old(self)@, event, at as int).forward,
            r.actions@ == menu_key_step(old(self)@, event, at as int).actions,
    {
        match event {
            KeyEvent::Pressed(Key::Left) => self.choose_core(at, false),
            KeyEvent::Pressed(Key::Right) => self.choose_core(at, true),
            KeyEvent::Pressed(Key::Select) | KeyEvent::Pressed(Key::B) => {
                self.menu_open = false;
                KeyResponse {
                    handled: true,
                    forward_to_menu: false,
                    actions: vec![CarouselAction::Redraw],
                }
            },
            KeyEvent::Pressed(Key::A) => self.confirm(at),
            _ => KeyResponse { handled: false, forward_to_menu: true, actions: Vec::new() },
        }
    }

    /// Moves the core choice one step (right when `next`, left otherwise)
    /// while the launch entry is highlighted.
    fn choose_core(&mut self, at: usize, next: bool) -> (r: KeyResponse)
        requires
            wf(old(self)@),
            old(self)@.core is Some ==> at < old(self)@.menu_entries.len(),
        ensures
            wf(final(self)@),
            ({
                let step = match old(self)@.core {
                    Some((c, cores, names)) => choose_core_step(
                        old(self)@,
                        at as int,
                        if next { min_int(c + 1, cores.len() - 1) } else { sat_sub(c as int, 1) },
                        cores,
                        names,
                    ),
                    None => used(old(self)@, seq![]),
                };
                &&& final(self)@ == step.next
                &&& r.handled == step.handled
                &&& r.forward_to_menu == step.forward
                &&& r.actions@ == step.actions
            }),
    {
        let current = self.core.take();
        match current {
            None => KeyResponse { handled: true, forward_to_menu: false, actions: Vec::new() },
            Some(selection) => {
                let is_launch = match &self.menu_entries[at] {
                    MenuEntry::Launch(_) => true,
                    _ => false,
                };
                if is_launch {
                    let new_core = if next {
                        let last = selection.cores.len() - 1;
                        if selection.core + 1 <= last { selection.core + 1 } else { last }
                    } else {
                        if selection.core >= 1 { selection.core - 1 } else { 0 }
                    };
                    let name = selection.names[new_core].clone();
                    self.menu_entries.set(at, MenuEntry::Launch(Some(name)));
                    self.core = Some(
                        CoreSelection { core: new_core, cores: selection.cores, names: selection.names },
                    );
                    KeyResponse {
                        handled: true,
                        forward_to_menu: false,
                        actions: vec![CarouselAction::RefreshMenuItem { index: at }],
                    }
                } else {
                    self.core = Some(selection);
                    KeyResponse { handled: true, forward_to_menu: false, actions: Vec::new() }
                }
            },
        }
    }

    /// Carries out the highlighted menu entry, and closes the menu.
    fn confirm(&mut self, at: usize) -> (r: KeyResponse)
        requires
            wf(old(self)@),
            at < old(self)@.menu_entries.len(),
        ensures
            wf(final(self)@),
            final(self)@ == confirm_step(old(self)@, at as int).next,
            r.handled == confirm_step(old(self)@, at as int).handled,
            r.forward_to_menu == confirm_step(old(self)@, at as int).forward,
            r.actions@ == confirm_step(old(self)@, at as int).actions,
    {
        let choice = match &self.menu_entries[at] {
            MenuEntry::Favorite(_) => Choice::Favorite,
            MenuEntry::Launch(_) => Choice::Launch,
            MenuEntry::Reset => Choice::Reset,
            MenuEntry::RemoveFromRecents => Choice::Remove,
            MenuEntry::RepopulateDatabase => Choice::Repopulate,
        };
        let has_game = self.selected < self.games.len();
        let mut actions: Vec<CarouselAction> = Vec::new();
        match choice {
            Choice::Favorite => {
                if has_game {
                    let favorite = !self.games[self.selected].favorite;
                    self.games[self.selected].favorite = favorite;
                    let path = self.games[self.selected].path.clone();
                    actions.push(CarouselAction::SetFavorite { path, favorite });
                    self.update_current_game();
                }
                actions.push(CarouselAction::Redraw);
            },
            Choice::Launch => {
                let current = self.core.take();
                match current {
                    Some(selection) => {
                        if has_game {
                            let core = selection.cores[selection.core].clone();
                            let path = self.games[self.selected].path.clone();
                            actions.push(CarouselAction::SetCore { path, core: core.clone() });
                            self.games[self.selected].core = Some(core);
                        }
                    },
                    None => {},
                }
                let mut launch = self.launch_game(false);
                actions.append(&mut launch);
            },
            Choice::Reset => {
                actions = self.launch_game(true);
                actions.push(CarouselAction::Redraw);
            },
            Choice::Remove => {
                if has_game {
                    let path = self.games[self.selected].path.clone();
                    actions.push(CarouselAction::RemoveGame { path });
                    actions.push(CarouselAction::ReloadGames);
                    actions.push(CarouselAction::Redraw);
                }
            },
            Choice::Repopulate => {
                actions.push(CarouselAction::Redraw);
                if self.show_toasts {
                    actions.push(CarouselAction::ShowPopulatingToast);
                }
                actions.push(CarouselAction::PopulateDb);
                if self.show_toasts {
                    actions.push(CarouselAction::ClearToast);
                }
                actions.push(CarouselAction::Redraw);
            },
        }
        self.menu_open = false;
        KeyResponse { handled: true, forward_to_menu: false, actions }
    }

    /// Decides what to paint. While the menu is open only the menu is
    /// painted, over a rounded background, and only when it asks to be
    /// (`menu_should_draw`); `menu_box` is the menu's bounding box, and the
    /// caller clips the background to the display's bounding box. Otherwise
    /// the background is painted when it needs repainting, and the "no recent
    /// games" text when there are none; the screenshot, the name label and
    /// the button hints paint themselves when they need to.
    pub fn draw(&mut self, menu_should_draw: bool, menu_box: Rect, m: &StyleMetrics) -> (p: CarouselDrawPlan)
        requires
            old(self)@.menu_open && menu_should_draw ==> background_fits(menu_box, *m),
            !old(self)@.menu_open && old(self)@.games.len() == 0 ==> center_fits(old(self)@.rect),
        ensures
            old(self)@.menu_open ==> final(self)@ == old(self)@ && p == (CarouselDrawPlan {
                menu_background: if menu_should_draw {
                    Some(
                        MenuBackground {
                            rect: menu_background(menu_box, *m),
                            radius: ((m.ui_font_size + (m.margin_y as u32)) / 2) as u32,
                        },
                    )
                } else {
                    None
                },
                load_background: false,
                empty_label_at: None,
            }),
            !old(self)@.menu_open ==> final(self)@ == (CarouselView { dirty: false, ..old(self)@ })
                && p == (CarouselDrawPlan {
                menu_background: None,
                load_background: old(self)@.dirty,
                empty_label_at: if old(self)@.games.len() == 0 {
                    Some(center_of(old(self)@.rect))
                } else {
                    None
                },
            }),
    {
        if self.menu_open {
            if !menu_should_draw {
                return CarouselDrawPlan {
                    menu_background: None,
                    load_background: false,
                    empty_label_at: None,
                };
            }
            let rect = Rect::new(
                menu_box.x - m.margin_x * 2,
                menu_box.y - m.margin_x,
                menu_box.w + m.margin_x as u32 * 4,
                menu_box.h + m.margin_x as u32 * 2,
            );
            let radius = (m.ui_font_size + m.margin_y as u32) / 2;
            return CarouselDrawPlan {
                menu_background: Some(MenuBackground { rect, radius }),
                load_background: false,
                empty_label_at: None,
            };
        }
        let load_background = self.dirty;
        self.dirty = false;
        let empty_label_at = if self.games.len() == 0 {
            Some(
                Point::new(
                    self.rect.x + self.rect.w as i32 / 2,
                    self.rect.y + self.rect.h as i32 / 2,
                ),
            )
        } else {
            None
        };
        CarouselDrawPlan { menu_background: None, load_background, empty_label_at }
    }

    /// Whether anything needs painting: the open menu (`menu_should_draw`),
    /// the background, or one of the screenshot, the name label and the
    /// button hints (`widgets_should_draw`).
    pub fn should_draw(&self, menu_should_draw: bool, widgets_should_draw: bool) -> (b: bool)
        ensures
            b == ((self@.menu_open && menu_should_draw) || self@.dirty || widgets_should_draw),
    {
        (self.menu_open && menu_should_draw) || self.dirty || widgets_should_draw
    }

    /// Marks the background as needing repainting, and asks for the open
    /// menu, the screenshot, the name label and the button hints to repaint.
    pub fn set_should_draw(&mut self)
        ensures
            final(self)@ == (CarouselView { dirty: true, refresh_widgets: true, ..old(self)@ }),
    {
        self.dirty = true;
        self.refresh_widgets = true;
    }

    /// Whether the widgets were asked to repaint since the last call: the
    /// screenshot and the button hints whenever a game was shown, and also
    /// the name label and the open menu after
    /// [`RecentsCarousel::set_should_draw`]. The request is then taken.
    pub fn take_widget_refresh(&mut self) -> (b: bool)
        ensures
            b == old(self)@.refresh_widgets,
            final(self)@ == (CarouselView { refresh_widgets: false, ..old(self)@ }),
    {
        let b = self.refresh_widgets;
        self.refresh_widgets = false;
        b
    }

    /// The rectangle the carousel covers.
    pub fn bounding_box(&self) -> (r: Rect)
        ensures
            r == self@.rect,
    {
        self.rect
    }

    /// Moves the carousel's top-left corner to `point`.
    pub fn set_position(&mut self, point: Point)
        ensures
            final(self)@ == (CarouselView {
                rect: Rect { x: point.x, y: point.y, ..old(self)@.rect },
                ..old(self)@
            }),
    {
        self.rect.x = point.x;
        self.rect.y = point.y;
    }

    /// Index of the shown game.
    pub fn selected(&self) -> (i: usize)
        ensures
            i == self@.selected,
    {
        self.selected
    }

    /// The recent games.
    pub fn games(&self) -> (g: &Vec<RecentGame>)
        ensures
            g@ == self@.games,
    {
        &self.games
    }

    /// Text of the name label.
    pub fn game_name(&self) -> (s: &String)
        ensures
            s@ == self@.game_name,
    {
        &self.game_name
    }

    /// Path of the image shown.
    pub fn screenshot(&self) -> (p: &Option<String>)
        ensures
            *p == self@.screenshot,
    {
        &self.screenshot
    }

    /// Whether the menu is open.
    pub fn is_menu_open(&self) -> (b: bool)
        ensures
            b == self@.menu_open,
    {
        self.menu_open
    }

    /// The entries of the menu last opened.
    pub fn menu_entries(&self) -> (e: &Vec<MenuEntry>)
        ensures
            e@ == self@.menu_entries,
    {
        &self.menu_entries
    }

    /// Index of the chosen core, while choosing is possible.
    pub fn selected_core(&self) -> (c: Option<usize>)
        ensures
            c == match self@.core {
                Some((i, _, _)) => Some(i),
                None => None::<usize>,
            },
    {
        match &self.core {
            Some(selection) => Some(selection.core),
            None => None,
        }
    }
}

} // verus!
