use alacritty::{
    DisplayUpdate, PhysicalSize, SizeInfo, cell_dimension, dynamic_padding, pty_size, resize,
    scale_for_ratio,
};

fn size() -> SizeInfo {
    SizeInfo { width: 800, height: 600, cell_width: 10, cell_height: 20, padding_x: 2, padding_y: 2 }
}

#[test]
fn dynamic_padding_spreads_leftover() {
    // (805 - 4) mod 10 = 1, half of which rounds down to 0.
    assert_eq!(dynamic_padding(2, 805, 10), 2);
    // (809 - 4) mod 10 = 5: two more pixels on each side.
    assert_eq!(dynamic_padding(2, 809, 10), 4);
    assert_eq!(dynamic_padding(0, 100, 10), 0);
}

#[test]
fn resize_never_below_one_cell() {
    let mut u = DisplayUpdate::new();
    assert!(u.is_empty());
    u.dimensions = Some(PhysicalSize { width: 5, height: 5 });
    assert!(!u.is_empty());
    let r = resize(size(), u, 2, 3, false);
    assert_eq!(r.width, 14);
    assert_eq!(r.height, 26);
    assert_eq!(r.padding_x, 2);
    assert_eq!(r.padding_y, 3);
}

#[test]
fn resize_with_dynamic_padding() {
    let mut u = DisplayUpdate::new();
    u.dimensions = Some(PhysicalSize { width: 809, height: 611 });
    let r = resize(size(), u, 2, 2, true);
    assert_eq!(r.width, 809);
    assert_eq!(r.padding_x, 4);
    // (611 - 4) mod 20 = 7: three more pixels on each side.
    assert_eq!(r.padding_y, 5);
}

#[test]
fn resize_without_dimensions_keeps_size() {
    let mut u = DisplayUpdate::new();
    u.font = true;
    let r = resize(size(), u, 2, 2, false);
    assert_eq!(r.width, 800);
    assert_eq!(r.height, 600);
}

#[test]
fn message_bar_shrinks_pty() {
    assert_eq!(pty_size(size(), 2).height, 560);
    assert_eq!(pty_size(size(), 0).height, 600);
    assert_eq!(pty_size(size(), 100).height, 0);
    assert_eq!(pty_size(size(), 2).width, 800);
}

#[test]
fn cell_dimension_at_least_one() {
    assert_eq!(cell_dimension(9, 1), 10);
    assert_eq!(cell_dimension(3, -5), 1);
    assert_eq!(cell_dimension(0, 0), 1);
}

#[test]
fn ratio_change_scales_pending_dimensions() {
    let mut u = DisplayUpdate::new();
    let cur = PhysicalSize { width: 800, height: 600 };
    let r = scale_for_ratio(u, cur, 2000, 1000);
    assert_eq!(r.dimensions, Some(PhysicalSize { width: 1600, height: 1200 }));
    assert!(r.font);
    u.dimensions = Some(PhysicalSize { width: 1000, height: 500 });
    let r = scale_for_ratio(u, cur, 1500, 2000);
    assert_eq!(r.dimensions, Some(PhysicalSize { width: 750, height: 375 }));
}
