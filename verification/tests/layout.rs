use nanos_ui::fonts::compute_width;
use nanos_ui::layout::{place_line, stacked_ys, Layout, Location};

#[test]
fn get_x_policies() {
    assert_eq!(Layout::Left.get_x(40), 2);
    assert_eq!(Layout::Centered.get_x(40), 44);
    assert_eq!(Layout::Right.get_x(40), 86);
    assert_eq!(Layout::Custom(7).get_x(40), 7);
}

#[test]
fn get_y_policies() {
    assert_eq!(Location::Top.get_y(12), 2);
    assert_eq!(Location::Middle.get_y(12), 26);
    assert_eq!(Location::Bottom.get_y(12), 50);
    assert_eq!(Location::Custom(31).get_y(12), 31);
}

#[test]
fn centered_content_is_symmetric() {
    // Centred content of width w has its midpoint on the screen's
    // centre column: x + w/2 == 64.
    let x = Layout::Centered.get_x(40);
    assert_eq!(x + 20, 64);
    let x = Layout::Centered.get_x(128);
    assert_eq!(x + 64, 64);
}

#[test]
fn alignment_policies_are_ordered() {
    let w = 40;
    let left = Layout::Left.get_x(w);
    let centered = Layout::Centered.get_x(w);
    let right = Layout::Right.get_x(w);
    assert!(left < centered);
    assert!(centered < right);
}

#[test]
fn monospaced_width() {
    assert_eq!(compute_width("hello", false), 40);
    assert_eq!(compute_width("hello", true), 40);
    assert_eq!(compute_width("", false), 0);
    // A full pane of 16 characters spans the whole screen.
    assert_eq!(compute_width("0123456789abcdef", false), 128);
}

#[test]
fn single_line_placement() {
    assert_eq!(place_line(40, Location::Middle, Layout::Centered), (44, 26));
    assert_eq!(place_line(8, Location::Top, Layout::Left), (2, 2));
}

#[test]
fn stacked_lines_share_one_bounding_box() {
    // Two 12-px lines with a 4-px gap: 28 px in all, centred from
    // y = 18, the second line 16 px below the first.
    assert_eq!(stacked_ys(2, 12, 4, Location::Middle), vec![18, 34]);
    // Four lines: 60 px in all, from y = 2.
    assert_eq!(stacked_ys(4, 12, 4, Location::Middle), vec![2, 18, 34, 50]);
    assert_eq!(stacked_ys(3, 12, 4, Location::Top), vec![2, 18, 34]);
}

#[test]
fn empty_stack_is_a_noop() {
    assert_eq!(stacked_ys(0, 12, 4, Location::Middle), Vec::<usize>::new());
}

#[test]
fn custom_stack_origin() {
    assert_eq!(stacked_ys(2, 12, 4, Location::Custom(28)), vec![28, 44]);
}
