use allium::geom::{Point, Rect};
use allium::platform::{Key, KeyEvent};
use allium::recents::{
    layout, menu_layout, CarouselAction, MenuBackground, MenuEntry, RecentGame, RecentsCarousel,
    RecentsCarouselState, StyleMetrics,
};

fn game(name: &str, favorite: bool) -> RecentGame {
    RecentGame {
        name: name.to_string(),
        path: format!("/roms/{}.gba", name),
        favorite,
        core: None,
        screenshot_path: None,
        image_path: Some(format!("/imgs/{}.png", name)),
    }
}

fn games() -> Vec<RecentGame> {
    vec![game("alpha", false), game("beta", true), game("gamma", false)]
}

fn metrics() -> StyleMetrics {
    StyleMetrics { margin_x: 12, margin_y: 8, ui_font_size: 24, list_margin: 4, padding_y: 4 }
}

fn rect() -> Rect {
    Rect::new(0, 0, 640, 480)
}

fn pressed(key: Key) -> KeyEvent {
    KeyEvent::Pressed(key)
}

#[test]
fn new_clamps_saved_selection() {
    let c = RecentsCarousel::new(rect(), games(), RecentsCarouselState { selected: 9 }, true);
    assert_eq!(c.selected(), 2);
    assert_eq!(c.game_name(), "gamma");
    assert_eq!(c.screenshot(), &Some("/imgs/gamma.png".to_string()));
}

#[test]
fn load_or_new_without_state_starts_at_first_game() {
    let c = RecentsCarousel::load_or_new(rect(), games(), None, true);
    assert_eq!(c.selected(), 0);
    let c = RecentsCarousel::load_or_new(rect(), games(), Some(RecentsCarouselState { selected: 1 }), true);
    assert_eq!(c.selected(), 1);
}

#[test]
fn favourites_carry_a_heart() {
    let c = RecentsCarousel::new(rect(), games(), RecentsCarouselState { selected: 1 }, true);
    assert_eq!(c.game_name(), "♥ beta");
}

#[test]
fn screenshot_is_preferred_over_box_art() {
    let mut g = game("delta", false);
    g.screenshot_path = Some("/shots/delta.png".to_string());
    let c = RecentsCarousel::new(rect(), vec![g], RecentsCarouselState::default(), true);
    assert_eq!(c.screenshot(), &Some("/shots/delta.png".to_string()));
}

#[test]
fn empty_carousel_shows_nothing() {
    let mut c = RecentsCarousel::new(rect(), vec![], RecentsCarouselState { selected: 3 }, true);
    assert_eq!(c.selected(), 0);
    assert_eq!(c.game_name(), "");
    assert_eq!(c.screenshot(), &None);
    let r = c.handle_key_event(pressed(Key::A), 0);
    assert!(r.handled);
    assert!(r.actions.is_empty());
    let r = c.handle_key_event(pressed(Key::Down), 0);
    assert!(r.handled);
    assert_eq!(c.selected(), 0);
    let plan = c.draw(false, rect(), &metrics());
    assert!(plan.load_background);
    assert_eq!(plan.empty_label_at, Some(Point::new(320, 240)));
}

#[test]
fn save_always_starts_over() {
    let c = RecentsCarousel::new(rect(), games(), RecentsCarouselState { selected: 2 }, true);
    assert_eq!(c.save(), RecentsCarouselState { selected: 0 });
}

#[test]
fn up_and_down_move_within_bounds() {
    let mut c = RecentsCarousel::new(rect(), games(), RecentsCarouselState::default(), true);
    assert!(c.handle_key_event(pressed(Key::Up), 0).handled);
    assert_eq!(c.selected(), 0);
    c.handle_key_event(pressed(Key::Down), 0);
    c.handle_key_event(KeyEvent::Autorepeat(Key::Down), 0);
    assert_eq!(c.selected(), 2);
    c.handle_key_event(pressed(Key::Down), 0);
    assert_eq!(c.selected(), 2);
    c.handle_key_event(pressed(Key::Up), 0);
    assert_eq!(c.selected(), 1);
    assert_eq!(c.game_name(), "♥ beta");
}

#[test]
fn up_then_down_comes_back() {
    let mut c = RecentsCarousel::new(rect(), games(), RecentsCarouselState { selected: 1 }, true);
    c.handle_key_event(pressed(Key::Up), 0);
    c.handle_key_event(pressed(Key::Down), 0);
    assert_eq!(c.selected(), 1);
    assert_eq!(c.game_name(), "♥ beta");
}

#[test]
fn browse_keys() {
    let mut c = RecentsCarousel::new(rect(), games(), RecentsCarouselState { selected: 1 }, true);
    let r = c.handle_key_event(pressed(Key::A), 0);
    assert_eq!(r.actions, vec![CarouselAction::LaunchGame { index: 1, reset: false }]);
    let r = c.handle_key_event(pressed(Key::X), 0);
    assert_eq!(r.actions, vec![CarouselAction::StartSearch]);
    let r = c.handle_key_event(pressed(Key::Select), 0);
    assert_eq!(r.actions, vec![CarouselAction::OpenMenu]);
    let r = c.handle_key_event(pressed(Key::B), 0);
    assert!(!r.handled);
    assert!(!r.forward_to_menu);
    let r = c.handle_key_event(KeyEvent::Autorepeat(Key::A), 0);
    assert!(!r.handled);
}

fn core_name(core: &str) -> String {
    format!("Core {}", core.to_uppercase())
}

fn with_menu(cores: &[&str], core: Option<&str>) -> RecentsCarousel {
    let mut gs = games();
    gs[1].core = core.map(|c| c.to_string());
    let mut c = RecentsCarousel::new(rect(), gs, RecentsCarouselState { selected: 1 }, true);
    let layout = c.open_menu(
        cores.iter().map(|s| s.to_string()).collect(),
        cores.iter().map(|s| core_name(s)).collect(),
        core.map(core_name),
        &metrics(),
    );
    assert!(layout.is_some());
    c
}

#[test]
fn open_menu_lists_the_entries() {
    let c = with_menu(&["gpsp", "mgba"], None);
    assert!(c.is_menu_open());
    assert_eq!(
        c.menu_entries(),
        &vec![
            MenuEntry::Favorite(true),
            MenuEntry::Launch(Some("Core GPSP".to_string())),
            MenuEntry::Reset,
            MenuEntry::RemoveFromRecents,
            MenuEntry::RepopulateDatabase,
        ]
    );
    assert_eq!(c.selected_core(), Some(0));
}

#[test]
fn open_menu_picks_the_games_core() {
    let c = with_menu(&["gpsp", "mgba"], Some("mgba"));
    assert_eq!(c.selected_core(), Some(1));
    assert_eq!(c.menu_entries()[1], MenuEntry::Launch(Some("Core MGBA".to_string())));
}

#[test]
fn open_menu_with_unknown_core_chooses_the_first() {
    let c = with_menu(&["gpsp", "mgba"], Some("vba"));
    assert_eq!(c.selected_core(), Some(0));
    assert_eq!(c.menu_entries()[1], MenuEntry::Launch(Some("Core VBA".to_string())));
}

#[test]
fn open_menu_without_cores() {
    let c = with_menu(&[], None);
    assert_eq!(c.selected_core(), None);
    assert_eq!(c.menu_entries()[1], MenuEntry::Launch(None));
}

#[test]
fn open_menu_without_games_does_nothing() {
    let mut c = RecentsCarousel::new(rect(), vec![], RecentsCarouselState::default(), true);
    assert!(c
        .open_menu(vec!["gpsp".to_string()], vec!["gpSP".to_string()], None, &metrics())
        .is_none());
    assert!(!c.is_menu_open());
    // With no game shown the layout is never worked out, so any margins do.
    let wide = StyleMetrics { margin_x: 1000, ..metrics() };
    assert!(c.open_menu(vec![], vec![], None, &wide).is_none());
}

#[test]
fn menu_layout_is_centred() {
    let l = menu_layout(rect(), 5, &metrics());
    // rows of 24 + 4 + 4 = 32, five of them
    assert_eq!(l.rect, Rect::new(12 + (640 - 24) / 6, (480 - 160) / 2, (640 - 24) * 2 / 3, 160));
    assert_eq!(l.item_height, 28);
}

#[test]
fn choosing_cores_left_and_right() {
    let mut c = with_menu(&["a", "b", "c"], None);
    let r = c.handle_key_event(pressed(Key::Right), 1);
    assert!(r.handled);
    assert_eq!(r.actions, vec![CarouselAction::RefreshMenuItem { index: 1 }]);
    assert_eq!(c.selected_core(), Some(1));
    assert_eq!(c.menu_entries()[1], MenuEntry::Launch(Some("Core B".to_string())));
    c.handle_key_event(pressed(Key::Right), 1);
    c.handle_key_event(pressed(Key::Right), 1);
    assert_eq!(c.selected_core(), Some(2));
    c.handle_key_event(pressed(Key::Left), 1);
    c.handle_key_event(pressed(Key::Left), 1);
    c.handle_key_event(pressed(Key::Left), 1);
    assert_eq!(c.selected_core(), Some(0));
    assert_eq!(c.menu_entries()[1], MenuEntry::Launch(Some("Core A".to_string())));
}

#[test]
fn choosing_cores_elsewhere_changes_nothing() {
    let mut c = with_menu(&["a", "b", "c"], None);
    let r = c.handle_key_event(pressed(Key::Right), 0);
    assert!(r.handled);
    assert!(r.actions.is_empty());
    assert_eq!(c.selected_core(), Some(0));
}

#[test]
fn other_keys_go_to_the_menu() {
    let mut c = with_menu(&["a"], None);
    let r = c.handle_key_event(pressed(Key::Down), 0);
    assert!(r.forward_to_menu);
    assert!(!r.handled);
    assert!(c.is_menu_open());
}

#[test]
fn select_or_b_closes_the_menu() {
    for key in [Key::Select, Key::B] {
        let mut c = with_menu(&["a"], None);
        let r = c.handle_key_event(pressed(key), 0);
        assert!(r.handled);
        assert_eq!(r.actions, vec![CarouselAction::Redraw]);
        assert!(!c.is_menu_open());
    }
}

#[test]
fn confirm_favorite_toggles() {
    let mut c = with_menu(&["a"], None);
    let r = c.handle_key_event(pressed(Key::A), 0);
    assert_eq!(
        r.actions,
        vec![
            CarouselAction::SetFavorite { path: "/roms/beta.gba".to_string(), favorite: false },
            CarouselAction::Redraw,
        ]
    );
    assert!(!c.games()[1].favorite);
    assert_eq!(c.game_name(), "beta");
    assert!(!c.is_menu_open());
}

#[test]
fn confirm_launch_records_the_core() {
    let mut c = with_menu(&["a", "b"], None);
    c.handle_key_event(pressed(Key::Right), 1);
    let r = c.handle_key_event(pressed(Key::A), 1);
    assert_eq!(
        r.actions,
        vec![
            CarouselAction::SetCore { path: "/roms/beta.gba".to_string(), core: "b".to_string() },
            CarouselAction::LaunchGame { index: 1, reset: false },
        ]
    );
    assert_eq!(c.games()[1].core, Some("b".to_string()));
    assert_eq!(c.selected_core(), None);
    assert!(!c.is_menu_open());
}

#[test]
fn confirm_launch_without_cores() {
    let mut c = with_menu(&[], None);
    let r = c.handle_key_event(pressed(Key::A), 1);
    assert_eq!(r.actions, vec![CarouselAction::LaunchGame { index: 1, reset: false }]);
}

#[test]
fn confirm_reset() {
    let mut c = with_menu(&["a"], None);
    let r = c.handle_key_event(pressed(Key::A), 2);
    assert_eq!(
        r.actions,
        vec![CarouselAction::LaunchGame { index: 1, reset: true }, CarouselAction::Redraw]
    );
}

#[test]
fn confirm_remove_then_reload() {
    let mut c = with_menu(&["a"], None);
    let r = c.handle_key_event(pressed(Key::A), 3);
    assert_eq!(
        r.actions,
        vec![
            CarouselAction::RemoveGame { path: "/roms/beta.gba".to_string() },
            CarouselAction::ReloadGames,
            CarouselAction::Redraw,
        ]
    );
    c.set_games(vec![game("alpha", false)]);
    assert_eq!(c.selected(), 0);
    assert_eq!(c.game_name(), "alpha");
    c.set_games(vec![]);
    assert_eq!(c.selected(), 0);
    assert_eq!(c.game_name(), "");
}

#[test]
fn confirm_repopulate() {
    let mut c = with_menu(&["a"], None);
    let r = c.handle_key_event(pressed(Key::A), 4);
    assert_eq!(
        r.actions,
        vec![
            CarouselAction::Redraw,
            CarouselAction::ShowPopulatingToast,
            CarouselAction::PopulateDb,
            CarouselAction::ClearToast,
            CarouselAction::Redraw,
        ]
    );
    assert!(!c.is_menu_open());
}

#[test]
fn layout_places_screenshot_and_name() {
    let l = layout(Rect::new(0, 10, 640, 480), 400, &metrics());
    // label: 8 * 2 + 24 = 40; space above the hints: 390
    assert_eq!(l.screenshot, Rect::new(0, 10, 640, 350));
    assert_eq!(l.name_point, Point::new(320, 10 + 350 + 8));
    assert_eq!(l.name_width, 616);
}

#[test]
fn layout_with_no_room_gives_empty_screenshot() {
    let l = layout(Rect::new(0, 10, 640, 480), 30, &metrics());
    assert_eq!(l.screenshot.h, 0);
}

#[test]
fn draw_plans() {
    let mut c = RecentsCarousel::new(rect(), games(), RecentsCarouselState::default(), true);
    assert!(c.should_draw(false, false));
    let plan = c.draw(false, rect(), &metrics());
    assert!(plan.load_background);
    assert_eq!(plan.empty_label_at, None);
    assert_eq!(plan.menu_background, None);
    assert!(!c.should_draw(false, false));
    assert!(c.should_draw(false, true));
    let plan = c.draw(false, rect(), &metrics());
    assert!(!plan.load_background);
    c.set_should_draw();
    assert!(c.should_draw(false, false));
}

#[test]
fn draw_plan_with_menu() {
    let mut c = with_menu(&["a"], None);
    let _ = c.draw(false, rect(), &metrics());
    let plan = c.draw(true, Rect::new(100, 100, 200, 160), &metrics());
    assert_eq!(
        plan.menu_background,
        Some(MenuBackground { rect: Rect::new(76, 88, 248, 184), radius: 16 })
    );
    assert!(!plan.load_background);
    assert!(c.should_draw(true, false));
    let plan = c.draw(false, Rect::new(100, 100, 200, 160), &metrics());
    assert_eq!(plan.menu_background, None);
}

#[test]
fn position_moves_the_box() {
    let mut c = RecentsCarousel::new(rect(), games(), RecentsCarouselState::default(), true);
    c.set_position(Point::new(5, 7));
    assert_eq!(c.bounding_box(), Rect::new(5, 7, 640, 480));
}

#[test]
fn repopulate_without_toasts() {
    let mut c = RecentsCarousel::new(rect(), games(), RecentsCarouselState::default(), false);
    c.open_menu(vec![], vec![], None, &metrics());
    let r = c.handle_key_event(pressed(Key::A), 4);
    assert_eq!(
        r.actions,
        vec![CarouselAction::Redraw, CarouselAction::PopulateDb, CarouselAction::Redraw]
    );
}

#[test]
fn widget_refresh_requests() {
    let mut c = RecentsCarousel::new(rect(), games(), RecentsCarouselState::default(), true);
    assert!(c.take_widget_refresh());
    assert!(!c.take_widget_refresh());
    c.handle_key_event(pressed(Key::Down), 0);
    assert!(c.take_widget_refresh());
    c.handle_key_event(pressed(Key::X), 0);
    assert!(!c.take_widget_refresh());
    c.set_should_draw();
    assert!(c.take_widget_refresh());
    let mut empty = RecentsCarousel::new(rect(), vec![], RecentsCarouselState::default(), true);
    assert!(!empty.take_widget_refresh());
}
