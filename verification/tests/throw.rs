use falling_ferris::canvas::{CANVAS_HEIGHT, CANVAS_WIDTH, FERRIS_HEIGHT, FERRIS_WIDTH};
use falling_ferris::ferris::{Effect, Ferris};
use falling_ferris::motion::{ACCELERATION_Y, INITIAL_VELOCITY_X, INITIAL_VELOCITY_Y};

#[test]
fn constants_have_their_values() {
    assert_eq!(CANVAS_WIDTH, 800);
    assert_eq!(CANVAS_HEIGHT, 600);
    assert_eq!(FERRIS_WIDTH, 80);
    assert_eq!(FERRIS_HEIGHT, 50);
    assert_eq!(INITIAL_VELOCITY_X, 10);
    assert_eq!(INITIAL_VELOCITY_Y, 15);
    assert_eq!(ACCELERATION_Y, -1);
}

#[test]
fn centre_is_in_canvas() {
    assert!(Ferris::is_in_canvas(400, 300));
}

#[test]
fn left_edge_is_strict() {
    assert!(!Ferris::is_in_canvas(40, 300));
    assert!(Ferris::is_in_canvas(41, 300));
}

#[test]
fn right_edge_is_strict() {
    assert!(Ferris::is_in_canvas(759, 300));
    assert!(!Ferris::is_in_canvas(760, 300));
}

#[test]
fn bottom_edge_is_strict() {
    assert!(!Ferris::is_in_canvas(400, 25));
    assert!(Ferris::is_in_canvas(400, 26));
}

#[test]
fn top_edge_is_strict() {
    assert!(Ferris::is_in_canvas(400, 574));
    assert!(!Ferris::is_in_canvas(400, 575));
}

#[test]
fn top_edge_is_the_height_not_the_width() {
    assert!(!Ferris::is_in_canvas(400, 600));
    assert!(!Ferris::is_in_canvas(400, 700));
    assert!(!Ferris::is_in_canvas(400, 774));
}

#[test]
fn far_points_are_outside_without_overflow() {
    assert!(!Ferris::is_in_canvas(i32::MIN, 300));
    assert!(!Ferris::is_in_canvas(i32::MAX, 300));
    assert!(!Ferris::is_in_canvas(400, i32::MIN));
    assert!(!Ferris::is_in_canvas(400, i32::MAX));
    assert!(!Ferris::is_in_canvas(i32::MIN + 39, i32::MIN + 24));
    assert!(!Ferris::is_in_canvas(-1, -1));
    assert!(!Ferris::is_in_canvas(0, 0));
}

#[test]
fn is_in_canvas_agrees_with_the_four_inequalities() {
    let mut x: i32 = -20;
    while x <= 820 {
        let mut y: i32 = -20;
        while y <= 820 {
            let expected = x - 40 > 0 && x + 40 < 800 && y - 25 > 0 && y + 25 < 600;
            assert_eq!(Ferris::is_in_canvas(x, y), expected, "at ({}, {})", x, y);
            y += 1;
        }
        x += 1;
    }
}

#[test]
fn new_gives_a_sprite_exactly_inside_the_canvas() {
    let mut x: i32 = 0;
    while x <= 800 {
        let mut y: i32 = 0;
        while y <= 600 {
            assert_eq!(Ferris::new(x, y).is_some(), Ferris::is_in_canvas(x, y), "at ({}, {})", x, y);
            y += 1;
        }
        x += 1;
    }
}

#[test]
fn new_near_the_left_edge_gives_nothing() {
    assert!(Ferris::new(5, 300).is_none());
}

#[test]
fn new_outside_gives_nothing() {
    assert!(Ferris::new(-100, 300).is_none());
    assert!(Ferris::new(900, 300).is_none());
    assert!(Ferris::new(400, -1).is_none());
    assert!(Ferris::new(400, 700).is_none());
    assert!(Ferris::new(i32::MIN, i32::MIN).is_none());
    assert!(Ferris::new(i32::MAX, i32::MAX).is_none());
}

#[test]
fn new_has_made_the_first_tick() {
    let (ferris, effect) = Ferris::new(400, 300).unwrap();
    assert!(ferris.is_alive());
    assert_eq!(ferris.position(), (410, 314));
    assert_eq!(ferris.velocity(), (10, 14));
    assert_eq!(effect, Effect::Place { left: 370, top: 261 });
}

#[test]
fn new_at_the_right_edge_dies_in_its_first_tick() {
    let (ferris, effect) = Ferris::new(750, 300).unwrap();
    assert!(!ferris.is_alive());
    assert_eq!(effect, Effect::Remove);
    assert_eq!(ferris.position(), (760, 314));
    assert_eq!(ferris.velocity(), (10, 14));
}

#[test]
fn new_under_the_top_edge_dies_in_its_first_tick() {
    let (ferris, effect) = Ferris::new(400, 574).unwrap();
    assert!(!ferris.is_alive());
    assert_eq!(effect, Effect::Remove);
    assert_eq!(ferris.position(), (410, 588));
}

#[test]
fn at_pointer_flips_the_vertical_axis() {
    let (ferris, effect) = Ferris::at_pointer(400, 100).unwrap();
    assert_eq!(ferris.position(), (410, 514));
    assert_eq!(ferris.velocity(), (10, 14));
    assert_eq!(effect, Effect::Place { left: 370, top: 61 });
}

#[test]
fn at_pointer_in_the_centre_is_new_in_the_centre() {
    let (by_pointer, shown_by_pointer) = Ferris::at_pointer(400, 300).unwrap();
    let (by_point, shown_by_point) = Ferris::new(400, 300).unwrap();
    assert_eq!(by_pointer.position(), by_point.position());
    assert_eq!(by_pointer.velocity(), by_point.velocity());
    assert_eq!(by_pointer.is_alive(), by_point.is_alive());
    assert_eq!(shown_by_pointer, shown_by_point);
}

#[test]
fn at_pointer_agrees_with_new_on_the_flipped_point() {
    let mut x: i32 = 0;
    while x <= 800 {
        let mut offset_y: i32 = -10;
        while offset_y <= 610 {
            let by_pointer = Ferris::at_pointer(x, offset_y);
            let by_point = Ferris::new(x, 600 - offset_y);
            assert_eq!(by_pointer.is_some(), by_point.is_some(), "at ({}, {})", x, offset_y);
            if let (Some((a, ea)), Some((b, eb))) = (by_pointer, by_point) {
                assert_eq!(a.position(), b.position());
                assert_eq!(a.velocity(), b.velocity());
                assert_eq!(a.is_alive(), b.is_alive());
                assert_eq!(ea, eb);
            }
            offset_y += 5;
        }
        x += 7;
    }
}

#[test]
fn at_pointer_near_the_edges() {
    assert!(Ferris::at_pointer(400, 25).is_none());
    assert!(Ferris::at_pointer(400, 26).is_some());
    assert!(Ferris::at_pointer(400, 574).is_some());
    assert!(Ferris::at_pointer(400, 575).is_none());
    assert!(Ferris::at_pointer(5, 300).is_none());
}

#[test]
fn at_pointer_far_away_gives_nothing_without_overflow() {
    assert!(Ferris::at_pointer(400, i32::MIN).is_none());
    assert!(Ferris::at_pointer(400, i32::MAX).is_none());
    assert!(Ferris::at_pointer(400, 600 - i32::MAX).is_none());
    assert!(Ferris::at_pointer(400, 599 - i32::MAX).is_none());
    assert!(Ferris::at_pointer(i32::MIN, 300).is_none());
}
