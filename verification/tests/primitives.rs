use nanos_ui::bagls::{down_arrow, left_arrow, right_arrow, up_arrow, Icon, Label, RectFull};
use nanos_ui::bitmaps::Glyph;
use nanos_ui::layout::{Layout, Location};

#[test]
fn rect_builder_chain() {
    let r = RectFull::new();
    assert_eq!(r.pos, (0, 0));
    assert_eq!(r.width, 1);
    assert_eq!(r.height, 1);
    let r = RectFull::new().pos(5, 9).width(30).height(20);
    assert_eq!(r.pos, (5, 9));
    assert_eq!(r.width, 30);
    assert_eq!(r.height, 20);
}

#[test]
fn glyph_builders() {
    let bits = [0xffu8; 8];
    let g = Glyph::new(&bits, 8, 8);
    assert_eq!(g.width, 8);
    assert_eq!(g.height, 8);
    assert!(!g.inverted);
    let g = g.invert();
    assert!(g.inverted);
    let packed: (&[u8], u32, u32) = (&bits, 8, 8);
    let g = Glyph::from_include(packed);
    assert_eq!(g.width, 8);
    assert_eq!(g.height, 8);
    assert!(!g.inverted);
}

#[test]
fn label_builders() {
    let l = Label::from("hello");
    assert_eq!(l.text, "hello");
    assert!(!l.bold);
    assert!(matches!(l.loc, Location::Middle));
    assert!(matches!(l.layout, Layout::Centered));
    let l = Label::from_const("hi").bold().location(Location::Bottom).layout(Layout::Left);
    assert!(l.bold);
    assert!(matches!(l.loc, Location::Bottom));
    assert!(matches!(l.layout, Layout::Left));
}

#[test]
fn label_placement_and_erase_box() {
    let l = Label::from("hello");
    // 5 characters, 40 px wide, centred in the middle of the screen.
    assert_eq!(l.place(), (44, 26));
    assert_eq!(l.erase_bounds(), (44, 26, 40, 12));
}

#[test]
fn icon_positioning() {
    let bits = [0u8; 8];
    let g = Glyph::new(&bits, 8, 8);
    let i = Icon::from(&g);
    assert_eq!(i.pos, (0, 28));
    let i = i.set_x(57);
    assert_eq!(i.pos, (57, 28));
    let i = i.shift_h(-4);
    assert_eq!(i.pos, (53, 28));
    let i = i.shift_v(4);
    assert_eq!(i.pos, (53, 32));
}

#[test]
fn chrome_arrows_hug_the_margins() {
    let bits = [0u8; 8];
    let g = Glyph::new(&bits, 8, 8);
    assert_eq!(up_arrow(&g).pos, (2, 28));
    assert_eq!(left_arrow(&g).pos, (2, 28));
    assert_eq!(right_arrow(&g).pos, (118, 28));
    assert_eq!(down_arrow(&g).pos, (118, 28));
}
