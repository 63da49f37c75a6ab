use allium::dot_indicator::{Dot, DotIndicator};
use allium::geom::{Point, Rect};
use allium::platform::{Key, KeyEvent};

fn indicator(selected: usize, total: usize) -> DotIndicator {
    let mut d = DotIndicator::new(Point::new(10, 50), 100, 5);
    d.set_state(selected, total);
    d
}

#[test]
fn new_indicator_is_dirty_but_has_nothing_to_draw() {
    let d = DotIndicator::new(Point::new(0, 0), 40, 3);
    assert!(!d.should_draw());
}

#[test]
fn set_state_marks_dirty_only_on_change() {
    let mut d = indicator(2, 4);
    assert!(d.should_draw());
    assert!(d.draw().is_some());
    assert!(!d.should_draw());
    d.set_state(2, 4);
    assert!(!d.should_draw());
    d.set_state(3, 4);
    assert!(d.should_draw());
}

#[test]
fn draw_with_single_item_draws_nothing() {
    let mut d = indicator(0, 1);
    assert!(d.draw().is_none());
    assert!(!d.should_draw());
}

#[test]
fn draw_clears_dirty() {
    let mut d = indicator(1, 3);
    let dots = d.draw().unwrap();
    assert_eq!(dots.len(), 3);
    assert!(d.draw().is_none());
}

#[test]
fn overflowing_window_shrinks_edges_and_centres_selection() {
    let d = indicator(5, 10);
    let dots = d.draw_dots();
    let ys: Vec<i32> = dots.iter().map(|dot| dot.center.y).collect();
    assert_eq!(ys, vec![18, 34, 50, 66, 82]);
    let radii: Vec<u32> = dots.iter().map(|dot| dot.radius).collect();
    assert_eq!(radii, vec![2, 3, 4, 3, 2]);
    let active: Vec<bool> = dots.iter().map(|dot| dot.active).collect();
    assert_eq!(active, vec![false, false, true, false, false]);
    assert!(dots.iter().all(|dot| dot.center.x == 10));
}

#[test]
fn window_stops_at_the_end_of_the_list() {
    let d = indicator(9, 10);
    let dots = d.draw_dots();
    let radii: Vec<u32> = dots.iter().map(|dot| dot.radius).collect();
    assert_eq!(radii, vec![2, 3, 4, 4, 4]);
    assert_eq!(dots[4].active, true);
    assert_eq!(dots.iter().filter(|dot| dot.active).count(), 1);
}

#[test]
fn window_stops_at_the_start_of_the_list() {
    let d = indicator(0, 10);
    let dots = d.draw_dots();
    let radii: Vec<u32> = dots.iter().map(|dot| dot.radius).collect();
    assert_eq!(radii, vec![4, 4, 4, 3, 2]);
    assert!(dots[0].active);
}

#[test]
fn fitting_list_has_full_size_dots() {
    let d = indicator(1, 3);
    let dots = d.draw_dots();
    assert_eq!(
        dots,
        vec![
            Dot { center: Point::new(10, 25), radius: 4, active: false },
            Dot { center: Point::new(10, 50), radius: 4, active: true },
            Dot { center: Point::new(10, 75), radius: 4, active: false },
        ]
    );
}

#[test]
fn bounding_box_and_position() {
    let mut d = indicator(0, 3);
    assert_eq!(d.bounding_box(), Rect::new(6, 0, 8, 100));
    let _ = d.draw();
    d.set_position(Point::new(20, 30));
    assert!(d.should_draw());
    assert_eq!(d.bounding_box(), Rect::new(16, -20, 8, 100));
}

#[test]
fn keys_are_not_handled() {
    let mut d = indicator(0, 3);
    assert!(!d.handle_key_event(KeyEvent::Pressed(Key::A)));
}

#[test]
fn set_should_draw_requests_repaint() {
    let mut d = indicator(0, 3);
    let _ = d.draw();
    d.set_should_draw();
    assert!(d.should_draw());
}
