use nanos_ui::bitmaps::Glyph;
use nanos_ui::buttons::ButtonEvent;
use nanos_ui::ui::{
    icon_x, HScroller, Menu, MenuAction, MessageScroller, MessageValidator,
    MessageValidatorAction, MultiPageMenu, MultiPageMenuAction, Page, PageStyle, PagerAction,
    SingleMessage, Validator, ValidatorAction, ValidatorPageKind,
};

#[test]
fn menu_clamps_at_last_entry() {
    // Five panels, cursor at the first: five right releases walk to
    // the last entry, a sixth stays there.
    let panels = ["a", "b", "c", "d", "e"];
    let mut m = Menu::new(&panels);
    assert_eq!(m.index, 0);
    for _ in 0..5 {
        m.step(Some(ButtonEvent::RightButtonRelease));
    }
    assert_eq!(m.index, 4);
    m.step(Some(ButtonEvent::RightButtonRelease));
    assert_eq!(m.index, 4);
}

#[test]
fn menu_clamps_at_first_entry() {
    let panels = ["a", "b"];
    let mut m = Menu::new(&panels);
    assert_eq!(m.step(Some(ButtonEvent::LeftButtonRelease)), MenuAction::Redraw);
    assert_eq!(m.index, 0);
}

#[test]
fn menu_presses_only_highlight() {
    let panels = ["a", "b"];
    let mut m = Menu::new(&panels);
    assert_eq!(m.step(Some(ButtonEvent::LeftButtonPress)), MenuAction::HighlightUp);
    assert_eq!(m.step(Some(ButtonEvent::RightButtonPress)), MenuAction::HighlightDown);
    assert_eq!(m.index, 0);
}

#[test]
fn menu_exits_with_selection() {
    let panels = ["a", "b", "c"];
    let mut m = Menu::new(&panels);
    m.step(Some(ButtonEvent::RightButtonRelease));
    assert_eq!(m.step(Some(ButtonEvent::BothButtonsRelease)), MenuAction::Exit(1));
}

#[test]
fn menu_scrolls_by_whole_chunks() {
    let panels = ["a", "b", "c", "d", "e"];
    let mut m = Menu::new(&panels);
    assert_eq!(m.visible_chunk(), 0);
    assert_eq!(m.visible_texts(), vec!["a", "b", "c", "d"]);
    for _ in 0..4 {
        m.step(Some(ButtonEvent::RightButtonRelease));
    }
    assert_eq!(m.index, 4);
    assert_eq!(m.visible_chunk(), 4);
    assert_eq!(m.bold_slot(), 0);
    assert_eq!(m.visible_texts(), vec!["e", "", "", ""]);
}

#[test]
fn validator_defaults_to_confirm() {
    let v = Validator::new("Confirm?");
    assert!(v.response);
    let lines = v.lines();
    assert_eq!(lines[0].text, "Cancel");
    assert!(!lines[0].bold);
    assert_eq!(lines[1].text, "Confirm?");
    assert!(lines[1].bold);
}

#[test]
fn validator_left_release_selects_cancel() {
    let mut v = Validator::new("Confirm?");
    assert_eq!(
        v.step(Some(ButtonEvent::LeftButtonRelease)),
        ValidatorAction::SelectCancel
    );
    assert!(!v.response);
    let lines = v.lines();
    assert!(lines[0].bold);
    assert!(!lines[1].bold);
    assert_eq!(
        v.step(Some(ButtonEvent::BothButtonsRelease)),
        ValidatorAction::Exit(false)
    );
}

#[test]
fn validator_right_release_selects_confirm() {
    let mut v = Validator::new("Confirm?");
    v.step(Some(ButtonEvent::LeftButtonRelease));
    assert_eq!(
        v.step(Some(ButtonEvent::RightButtonRelease)),
        ValidatorAction::SelectConfirm
    );
    assert_eq!(
        v.step(Some(ButtonEvent::BothButtonsRelease)),
        ValidatorAction::Exit(true)
    );
}

#[test]
fn validator_presses_only_highlight() {
    let mut v = Validator::new("ok?");
    assert_eq!(v.step(Some(ButtonEvent::LeftButtonPress)), ValidatorAction::HighlightUp);
    assert_eq!(v.step(Some(ButtonEvent::RightButtonPress)), ValidatorAction::HighlightDown);
    assert_eq!(v.step(Some(ButtonEvent::BothButtonsPress)), ValidatorAction::HideArrows);
    assert!(v.response);
    assert_eq!(v.step(None), ValidatorAction::Idle);
}

#[test]
fn scroller_pages_a_forty_character_message() {
    // 40 characters in 16-character panes: three panes.
    let message = "0123456789012345678901234567890123456789";
    let s = MessageScroller::new(message);
    assert_eq!(s.page_count(), 3);
    assert!(!s.left_arrow_shown());
    assert!(s.right_arrow_shown());
}

#[test]
fn scroller_last_page_shows_only_left_arrow() {
    let message = "0123456789012345678901234567890123456789";
    let mut s = MessageScroller::new(message);
    s.step(Some(ButtonEvent::RightButtonRelease));
    s.step(Some(ButtonEvent::RightButtonRelease));
    assert_eq!(s.cur_page, 2);
    assert!(s.left_arrow_shown());
    assert!(!s.right_arrow_shown());
    assert_eq!(s.chunk_bounds(), (32, 40));
    // Clamped at the last pane.
    s.step(Some(ButtonEvent::RightButtonRelease));
    assert_eq!(s.cur_page, 2);
}

#[test]
fn scroller_chunks_and_clamps() {
    let message = "0123456789012345678901234567890123456789";
    let mut s = MessageScroller::new(message);
    assert_eq!(s.chunk_bounds(), (0, 16));
    assert_eq!(&message[0..16], "0123456789012345");
    assert_eq!(s.step(Some(ButtonEvent::LeftButtonRelease)), PagerAction::Redraw);
    assert_eq!(s.cur_page, 0);
    s.step(Some(ButtonEvent::RightButtonRelease));
    assert_eq!(s.chunk_bounds(), (16, 32));
    assert_eq!(s.step(Some(ButtonEvent::BothButtonsRelease)), PagerAction::Exit);
}

#[test]
fn scroller_of_empty_message_has_one_pane() {
    let s = MessageScroller::new("");
    assert_eq!(s.page_count(), 1);
    assert_eq!(s.chunk_bounds(), (0, 0));
    assert!(!s.left_arrow_shown());
    assert!(!s.right_arrow_shown());
}

#[test]
fn scroller_presses_only_highlight() {
    let mut s = MessageScroller::new("0123456789012345678901234567890123456789");
    assert_eq!(s.step(Some(ButtonEvent::LeftButtonPress)), PagerAction::HighlightLeft);
    assert_eq!(s.step(Some(ButtonEvent::RightButtonPress)), PagerAction::HighlightRight);
    assert_eq!(s.cur_page, 0);
}

#[test]
fn hscroller_clamps_both_ends() {
    let mut h = HScroller::new(3);
    assert_eq!(h.cur_page, 0);
    h.step(Some(ButtonEvent::LeftButtonRelease));
    assert_eq!(h.cur_page, 0);
    h.step(Some(ButtonEvent::RightButtonRelease));
    h.step(Some(ButtonEvent::RightButtonRelease));
    h.step(Some(ButtonEvent::RightButtonRelease));
    assert_eq!(h.cur_page, 2);
    assert_eq!(h.step(Some(ButtonEvent::BothButtonsRelease)), PagerAction::Exit);
}

#[test]
fn message_validator_walks_to_confirm() {
    let message = ["page one", "page two"];
    let confirm = ["Confirm"];
    let cancel = ["Cancel"];
    let mut v = MessageValidator::new(&message, &confirm, &cancel);
    assert_eq!(v.page_count(), 4);
    assert_eq!(v.page_kind(), ValidatorPageKind::Message(0));
    // Both released on a message page only redraws.
    let (a, exit) = v.step(Some(ButtonEvent::BothButtonsRelease));
    assert_eq!(a, MessageValidatorAction::Redraw);
    assert_eq!(exit, None);
    v.step(Some(ButtonEvent::RightButtonRelease));
    v.step(Some(ButtonEvent::RightButtonRelease));
    assert_eq!(v.page_kind(), ValidatorPageKind::Confirm);
    let (a, exit) = v.step(Some(ButtonEvent::BothButtonsRelease));
    assert_eq!(a, MessageValidatorAction::Exit(true));
    assert_eq!(exit, Some(true));
}

#[test]
fn message_validator_cancel_page_answers_no() {
    let message = ["only page"];
    let confirm: [&str; 0] = [];
    let cancel: [&str; 0] = [];
    let mut v = MessageValidator::new(&message, &confirm, &cancel);
    assert_eq!(v.page_count(), 3);
    v.step(Some(ButtonEvent::RightButtonRelease));
    v.step(Some(ButtonEvent::RightButtonRelease));
    assert_eq!(v.page_kind(), ValidatorPageKind::Cancel);
    assert!(v.left_arrow_shown());
    assert!(!v.right_arrow_shown());
    let (a, exit) = v.step(Some(ButtonEvent::BothButtonsRelease));
    assert_eq!(a, MessageValidatorAction::Exit(false));
    assert_eq!(exit, Some(false));
}

#[test]
fn message_validator_clamps_and_shows_arrows() {
    let message: [&str; 0] = [];
    let confirm = ["ok"];
    let cancel = ["no"];
    let mut v = MessageValidator::new(&message, &confirm, &cancel);
    assert_eq!(v.page_count(), 2);
    assert_eq!(v.page_kind(), ValidatorPageKind::Confirm);
    assert!(!v.left_arrow_shown());
    assert!(v.right_arrow_shown());
    v.step(Some(ButtonEvent::LeftButtonRelease));
    assert_eq!(v.cur_page, 0);
}

#[test]
fn icon_x_centres_a_lone_icon() {
    assert_eq!(icon_x(0), 60);
    assert_eq!(icon_x(1), 18);
    assert_eq!(icon_x(2), 18);
}

#[test]
fn multi_page_menu_wraps_both_ways() {
    let bits = [0u8; 8];
    let g = Glyph::new(&bits, 8, 8);
    let p0 = Page::new_picture_bold("one", &g);
    let p1 = Page::new_normal(["two", "lines"]);
    let p2 = Page::new_bold_normal(["three", "lines"]);
    let pages = [&p0, &p1, &p2];
    let mut m = MultiPageMenu::new(&pages);
    assert_eq!(m.index, 0);
    // Left from the first page wraps to the last.
    m.step(Some(ButtonEvent::LeftButtonRelease));
    assert_eq!(m.index, 2);
    // Right from the last page wraps to the first.
    m.step(Some(ButtonEvent::RightButtonRelease));
    assert_eq!(m.index, 0);
    assert_eq!(
        m.step(Some(ButtonEvent::LeftButtonPress)),
        MultiPageMenuAction::HighlightLeft
    );
    assert_eq!(
        m.step(Some(ButtonEvent::BothButtonsRelease)),
        MultiPageMenuAction::Exit(0)
    );
}

#[test]
fn multi_page_menu_current_page() {
    let p0 = Page::new_normal(["a", "b"]);
    let p1 = Page::new_normal(["c", "d"]);
    let pages = [&p0, &p1];
    let mut m = MultiPageMenu::new(&pages);
    m.step(Some(ButtonEvent::RightButtonRelease));
    assert!(matches!(m.current_page().style, PageStyle::Normal));
    assert_eq!(m.current_page().label, ["c", "d"]);
}

#[test]
fn page_placement_by_style() {
    let bits = [0u8; 16];
    let g = Glyph::new(&bits, 16, 16);

    let p = Page::new_picture_normal(["ab", "cdef"], &g);
    let pl = p.place();
    assert_eq!(pl.icon, Some((57, 10)));
    let l0 = pl.line0.unwrap();
    let l1 = pl.line1.unwrap();
    assert_eq!((l0.x, l0.y, l0.bold), (56, 28, false));
    assert_eq!((l1.x, l1.y, l1.bold), (48, 44, false));

    let p = Page::new_picture_bold("ab", &g);
    let pl = p.place();
    assert_eq!(pl.icon, Some((57, 17)));
    let l0 = pl.line0.unwrap();
    assert_eq!((l0.x, l0.y, l0.bold), (56, 35, true));
    assert!(pl.line1.is_none());

    let p = Page::new_bold_normal(["ab", "cdef"]);
    let pl = p.place();
    assert_eq!(pl.icon, None);
    let l0 = pl.line0.unwrap();
    let l1 = pl.line1.unwrap();
    assert_eq!((l0.y, l0.bold), (19, true));
    assert_eq!((l1.y, l1.bold), (33, false));

    let p = Page::new_normal(["ab", "cdef"]);
    let pl = p.place();
    let l0 = pl.line0.unwrap();
    let l1 = pl.line1.unwrap();
    assert_eq!((l0.y, l0.bold), (18, false));
    assert_eq!((l1.y, l1.bold), (34, false));
}

#[test]
fn single_message_waits_for_a_release() {
    let s = SingleMessage::new("hello there");
    assert!(!s.step(None));
    assert!(!s.step(Some(ButtonEvent::LeftButtonPress)));
    assert!(!s.step(Some(ButtonEvent::BothButtonsPress)));
    assert!(s.step(Some(ButtonEvent::LeftButtonRelease)));
    assert!(s.step(Some(ButtonEvent::RightButtonRelease)));
    assert!(s.step(Some(ButtonEvent::BothButtonsRelease)));
}
