use client_core::color::color_from_id;
use client_core::cursor::window_relative_mouse_position;
use client_core::cursor::Cursor;
use client_core::cursor::CursorPosition;
use client_core::cursor::Cursors;
use client_core::cursor::Pixel;
use client_core::cursor::Window;

fn window(width: u32, height: u32, x: i32, y: i32) -> Window {
    Window { width, height, cursor_position: Some(Pixel { x, y }) }
}

/// The position `(x, y)`, given in units; positions are kept doubled.
fn at(x: f64, y: f64) -> CursorPosition {
    CursorPosition { twice_x: (2.0 * x) as i64, twice_y: (2.0 * y) as i64 }
}

#[test]
fn positions_are_kept_doubled() {
    assert_eq!(at(-300.0, 250.0), CursorPosition { twice_x: -600, twice_y: 500 });
    assert_eq!(at(-400.5, 300.5), CursorPosition { twice_x: -801, twice_y: 601 });
}

#[test]
fn the_pointer_is_seen_from_the_centre_with_y_upwards() {
    let position = window_relative_mouse_position(&window(800, 600, 100, 50));
    assert_eq!(position, Some(at(-300.0, 250.0)));
    assert_eq!(position, Some(CursorPosition { twice_x: -600, twice_y: 500 }));
}

#[test]
fn the_centre_of_the_window_is_the_origin() {
    let position = window_relative_mouse_position(&window(800, 600, 400, 300));
    assert_eq!(position, Some(at(0.0, 0.0)));
}

#[test]
fn the_corners_of_the_window() {
    assert_eq!(window_relative_mouse_position(&window(800, 600, 0, 0)), Some(at(-400.0, 300.0)));
    assert_eq!(window_relative_mouse_position(&window(800, 600, 800, 0)), Some(at(400.0, 300.0)));
    assert_eq!(window_relative_mouse_position(&window(800, 600, 0, 600)), Some(at(-400.0, -300.0)));
    assert_eq!(window_relative_mouse_position(&window(800, 600, 800, 600)), Some(at(400.0, -300.0)));
}

#[test]
fn a_window_of_odd_size_is_centred_exactly() {
    assert_eq!(window_relative_mouse_position(&window(801, 601, 0, 0)), Some(at(-400.5, 300.5)));
    assert_eq!(window_relative_mouse_position(&window(801, 601, 801, 0)), Some(at(400.5, 300.5)));
    assert_eq!(window_relative_mouse_position(&window(801, 601, 0, 601)), Some(at(-400.5, -300.5)));
    assert_eq!(
        window_relative_mouse_position(&window(801, 601, 801, 601)),
        Some(at(400.5, -300.5))
    );
    assert_eq!(window_relative_mouse_position(&window(801, 601, 400, 300)), Some(at(-0.5, 0.5)));
    assert_eq!(window_relative_mouse_position(&window(801, 601, 401, 301)), Some(at(0.5, -0.5)));
    assert_eq!(window_relative_mouse_position(&window(1, 1, 0, 0)), Some(at(-0.5, 0.5)));
}

#[test]
fn a_pointer_inside_the_window_stays_inside_the_mapped_window() {
    let sizes: [u32; 4] = [1, 2, 7, 10];
    for width in sizes {
        for height in sizes {
            let mut x: i32 = 0;
            while x <= width as i32 {
                let mut y: i32 = 0;
                while y <= height as i32 {
                    let position = window_relative_mouse_position(&window(width, height, x, y));
                    let position = position.unwrap();
                    assert_eq!(position.twice_x, 2 * i64::from(x) - i64::from(width));
                    assert_eq!(position.twice_y, i64::from(height) - 2 * i64::from(y));
                    assert!(position.twice_x.abs() <= i64::from(width));
                    assert!(position.twice_y.abs() <= i64::from(height));
                    y += 1;
                }
                x += 1;
            }
        }
    }
}

#[test]
fn the_extremes_of_pixel_and_size_fit() {
    assert_eq!(
        window_relative_mouse_position(&window(u32::MAX, u32::MAX, i32::MIN, i32::MIN)),
        Some(CursorPosition { twice_x: -8589934591, twice_y: 8589934591 })
    );
    assert_eq!(
        window_relative_mouse_position(&window(0, 0, i32::MAX, i32::MAX)),
        Some(CursorPosition { twice_x: 4294967294, twice_y: -4294967294 })
    );
}

#[test]
fn without_a_pointer_there_is_no_position() {
    let empty = Window { width: 800, height: 600, cursor_position: None };
    assert_eq!(window_relative_mouse_position(&empty), None);
}

#[test]
fn the_cursor_is_created_when_the_identity_becomes_known() {
    let mut cursors = Cursors::new();
    assert_eq!(cursors.len(), 0);
    assert_eq!(cursors.spawn_cursor(true, None), None);
    assert_eq!(cursors.spawn_cursor(false, Some(7)), None);
    assert_eq!(cursors.len(), 0);
    assert!(!cursors.has_local_cursor(7));

    assert_eq!(cursors.spawn_cursor(true, Some(7)), Some(0));
    assert_eq!(
        cursors.get(0),
        Some(Cursor { owner: 7, position: at(0.0, 0.0), color: color_from_id(7), local: true })
    );
    assert!(cursors.has_local_cursor(7));
    assert_eq!(cursors.get(1), None);
}

#[test]
fn an_identity_gets_one_cursor() {
    let mut cursors = Cursors::new();
    assert_eq!(cursors.spawn_cursor(true, Some(7)), Some(0));
    assert_eq!(cursors.spawn_cursor(true, Some(7)), None);
    assert_eq!(cursors.spawn_cursor(true, Some(7)), None);
    assert_eq!(cursors.len(), 1);
}

#[test]
fn the_local_cursor_follows_the_pointer() {
    let mut cursors = Cursors::new();
    assert_eq!(cursors.spawn_cursor(true, Some(7)), Some(0));
    let writes = cursors.cursor_movement(Some(7), Some(window(800, 600, 100, 50)));
    assert_eq!(writes, 1);
    assert_eq!(cursors.get(0).unwrap().position, at(-300.0, 250.0));
    assert_eq!(cursors.get(0).unwrap().color, color_from_id(7));
}

#[test]
fn the_local_cursor_follows_the_pointer_in_a_window_of_odd_size() {
    let mut cursors = Cursors::new();
    assert_eq!(cursors.spawn_cursor(true, Some(7)), Some(0));
    assert_eq!(cursors.cursor_movement(Some(7), Some(window(801, 601, 801, 0))), 1);
    assert_eq!(cursors.get(0).unwrap().position, at(400.5, 300.5));
}

#[test]
fn an_unchanged_cursor_is_not_written() {
    let mut cursors = Cursors::new();
    assert_eq!(cursors.spawn_cursor(true, Some(7)), Some(0));
    assert_eq!(cursors.cursor_movement(Some(7), Some(window(800, 600, 400, 300))), 0);
    assert_eq!(cursors.cursor_movement(Some(7), Some(window(800, 600, 410, 300))), 1);
    assert_eq!(cursors.cursor_movement(Some(7), Some(window(800, 600, 410, 300))), 0);
    assert_eq!(cursors.get(0).unwrap().position, at(10.0, 0.0));
}

#[test]
fn the_cursor_waits_for_identity_window_and_pointer() {
    let mut cursors = Cursors::new();
    assert_eq!(cursors.spawn_cursor(true, Some(7)), Some(0));
    assert_eq!(cursors.cursor_movement(None, Some(window(800, 600, 1, 1))), 0);
    assert_eq!(cursors.cursor_movement(Some(7), None), 0);
    let empty = Window { width: 800, height: 600, cursor_position: None };
    assert_eq!(cursors.cursor_movement(Some(7), Some(empty)), 0);
    assert_eq!(cursors.get(0).unwrap().position, at(0.0, 0.0));
}

#[test]
fn copies_and_foreign_cursors_are_not_moved() {
    let mut cursors = Cursors::new();
    let far = at(77.0, -77.5);
    assert_eq!(cursors.materialize(8, far, color_from_id(8)), 0);
    assert_eq!(cursors.materialize(7, far, color_from_id(7)), 1);
    assert_eq!(cursors.spawn_cursor(true, Some(7)), Some(2));
    assert_eq!(cursors.spawn_cursor(true, Some(9)), Some(3));
    assert_eq!(cursors.cursor_movement(Some(7), Some(window(800, 600, 100, 50))), 1);
    assert_eq!(
        cursors.get(0),
        Some(Cursor { owner: 8, position: far, color: color_from_id(8), local: false })
    );
    assert_eq!(cursors.get(1).unwrap().position, far);
    assert_eq!(cursors.get(2).unwrap().position, at(-300.0, 250.0));
    assert_eq!(cursors.get(3).unwrap().position, at(0.0, 0.0));
}

#[test]
fn the_cursor_of_another_owner_first_does_not_stop_the_own() {
    let mut cursors = Cursors::new();
    assert_eq!(cursors.spawn_cursor(true, Some(8)), Some(0));
    assert_eq!(cursors.spawn_cursor(true, Some(7)), Some(1));
    assert_eq!(cursors.cursor_movement(Some(7), Some(window(801, 601, 100, 50))), 1);
    assert_eq!(cursors.get(0).unwrap().position, at(0.0, 0.0));
    assert_eq!(cursors.get(1).unwrap().position, at(-300.5, 250.5));
}

#[test]
fn the_target_of_a_cursor() {
    let own = Cursor { owner: 7, position: at(5.0, 5.0), color: color_from_id(7), local: true };
    let copy = Cursor { owner: 7, position: at(5.0, 5.0), color: color_from_id(7), local: false };
    let frame = Some(window(801, 601, 0, 0));
    assert_eq!(own.target(Some(7), frame), Some(at(-400.5, 300.5)));
    assert_eq!(own.target(Some(8), frame), None);
    assert_eq!(own.target(None, frame), None);
    assert_eq!(own.target(Some(7), None), None);
    assert_eq!(copy.target(Some(7), frame), None);
    let empty = Window { width: 801, height: 601, cursor_position: None };
    assert_eq!(own.target(Some(7), Some(empty)), None);
}

#[test]
fn follow_pointer_says_whether_the_cursor_changed() {
    let mut own = Cursor { owner: 7, position: at(0.0, 0.0), color: color_from_id(7), local: true };
    assert!(own.follow_pointer(Some(7), Some(window(801, 601, 0, 0))));
    assert_eq!(own.position, at(-400.5, 300.5));
    assert!(!own.follow_pointer(Some(7), Some(window(801, 601, 0, 0))));
    assert!(!own.follow_pointer(Some(8), Some(window(801, 601, 5, 5))));
    assert!(!own.follow_pointer(Some(7), None));
    assert_eq!(own.position, at(-400.5, 300.5));
}
