//! Navigation widgets: small state machines driven by button events.
//!
//! Each widget holds a bounded cursor (or a boolean selection) and
//! steps once per discrete button event. A step returns an action value
//! saying what the screen shell must draw — a transient highlight on a
//! press, a full redraw after the cursor moved on a release, or the
//! exit value once both buttons are released. Press events never move
//! the cursor: movement is committed only by the matching release.

use vstd::prelude::*;
use vstd::string::StringSliceAdditionalSpecFns;
use crate::bagls::Label;
use crate::bitmaps::Glyph;
use crate::buttons::ButtonEvent;
use crate::fonts::{CHAR_WIDTH, LINE_HEIGHT};
use crate::layout::{spec_get_x, spec_get_y, spec_stack_height, Layout, Location, MAX_LINES};
use crate::{PADDING, SCREEN_WIDTH};

verus! {

/// Yes/no confirmation screen: a fixed cancel line and the caller's
/// message, one of which is selected at any time. `response` is true
/// while the message (non-cancel) line is selected.
pub struct Validator<'a> {
    pub message: &'a str,
    pub response: bool,
}

/// What one step of the validator asks the screen shell to do.
#[derive(Clone, Copy, Debug, PartialEq, Eq, Structural)]
pub enum ValidatorAction {
    /// Nothing to draw.
    Idle,
    /// Left button armed: paint the shifted up arrow over the screen.
    HighlightUp,
    /// Right button armed: paint the shifted down arrow.
    HighlightDown,
    /// Selection moved to the cancel line: erase the shifted up arrow
    /// and redraw the two lines.
    SelectCancel,
    /// Selection moved to the message line: erase the shifted down
    /// arrow and redraw the two lines.
    SelectConfirm,
    /// Both buttons held: erase the two plain arrows.
    HideArrows,
    /// Both buttons released: the session is over with this answer.
    Exit(bool),
}

/// The selection after one validator step: a left release selects
/// cancel, a right release selects the message, everything else leaves
/// it alone.
pub open spec fn spec_validator_response(response: bool, e: Option<ButtonEvent>) -> bool {
    match e {
        Some(ButtonEvent::LeftButtonRelease) => false,
        Some(ButtonEvent::RightButtonRelease) => true,
        _ => response,
    }
}

/// The action one validator step returns for each event.
pub open spec fn spec_validator_action(response: bool, e: Option<ButtonEvent>) -> ValidatorAction {
    match e {
        Some(ButtonEvent::LeftButtonPress) => ValidatorAction::HighlightUp,
        Some(ButtonEvent::RightButtonPress) => ValidatorAction::HighlightDown,
        Some(ButtonEvent::LeftButtonRelease) => ValidatorAction::SelectCancel,
        Some(ButtonEvent::RightButtonRelease) => ValidatorAction::SelectConfirm,
        Some(ButtonEvent::BothButtonsPress) => ValidatorAction::HideArrows,
        Some(ButtonEvent::BothButtonsRelease) => ValidatorAction::Exit(response),
        None => ValidatorAction::Idle,
    }
}

impl<'a> Validator<'a> {
    /// A fresh confirmation session over the given message. The
    /// message (non-cancel) line starts selected.
    pub fn new(message: &'a str) -> (v: Validator<'a>)
        ensures
            v.message == message,
            v.response,
    {
        Validator { message, response: true }
    }

    /// Feed one polled event to the session: update the selection and
    /// say what to draw. The selection changes only on a single-button
    /// release; both buttons released ends the session with the
    /// current selection as the answer.
    pub fn step(&mut self, e: Option<ButtonEvent>) -> (a: ValidatorAction)
        ensures
            final(self).message == old(self).message,
            final(self).response == spec_validator_response(old(self).response, e),
            a == spec_validator_action(old(self).response, e),
    {
        match e {
            Some(ButtonEvent::LeftButtonPress) => ValidatorAction::HighlightUp,
            Some(ButtonEvent::RightButtonPress) => ValidatorAction::HighlightDown,
            Some(ButtonEvent::LeftButtonRelease) => {
                self.response = false;
                ValidatorAction::SelectCancel
            },
            Some(ButtonEvent::RightButtonRelease) => {
                self.response = true;
                ValidatorAction::SelectConfirm
            },
            Some(ButtonEvent::BothButtonsPress) => ValidatorAction::HideArrows,
            Some(ButtonEvent::BothButtonsRelease) => ValidatorAction::Exit(self.response),
            None => ValidatorAction::Idle,
        }
    }

    /// The two lines of the screen, ready to place: the fixed cancel
    /// line above the message, centred in the middle, the selected one
    /// bold.
    pub fn lines(&self) -> (ls: Vec<Label<'a>>)
        ensures
            ls@.len() == 2,
            ls@[0].text@ == "Cancel"@,
            ls@[0].bold == !self.response,
            ls@[1].text == self.message,
            ls@[1].bold == self.response,
    {
        let mut ls: Vec<Label<'a>> = Vec::new();
        let cancel = Label::from_const("Cancel");
        let msg = Label::from(self.message);
        if self.response {
            ls.push(cancel);
            ls.push(msg.bold());
        } else {
            ls.push(cancel.bold());
            ls.push(msg);
        }
        ls
    }
}

/// Single-screen item list: up to `MAX_LINES` panel titles shown at a
/// time, one selected. The cursor clamps at both ends.
pub struct Menu<'a> {
    pub panels: &'a [&'a str],
    pub index: usize,
}

/// What one step of the menu asks the screen shell to do.
#[derive(Clone, Copy, Debug, PartialEq, Eq, Structural)]
pub enum MenuAction {
    /// Nothing to draw.
    Idle,
    /// Left button armed: paint the shifted up arrow.
    HighlightUp,
    /// Right button armed: paint the shifted down arrow.
    HighlightDown,
    /// The cursor may have moved: clear the screen and redraw the
    /// visible chunk with the selected line bold.
    Redraw,
    /// Both buttons released: the session is over with this selection.
    Exit(usize),
}

/// The menu cursor after one step: a left release moves up, clamped at
/// the first entry; a right release moves down, clamped at the last.
pub open spec fn spec_menu_index(index: int, len: int, e: Option<ButtonEvent>) -> int {
    match e {
        Some(ButtonEvent::LeftButtonRelease) => if index > 0 {
            index - 1
        } else {
            0
        },
        Some(ButtonEvent::RightButtonRelease) => if index + 1 < len {
            index + 1
        } else {
            index
        },
        _ => index,
    }
}

/// The action one menu step returns for each event.
pub open spec fn spec_menu_action(index: int, e: Option<ButtonEvent>) -> MenuAction {
    match e {
        Some(ButtonEvent::LeftButtonPress) => MenuAction::HighlightUp,
        Some(ButtonEvent::RightButtonPress) => MenuAction::HighlightDown,
        Some(ButtonEvent::BothButtonsRelease) => MenuAction::Exit(index as usize),
        Some(_) => MenuAction::Redraw,
        None => MenuAction::Idle,
    }
}

/// The menu cursor reached from the first entry by a whole sequence of
/// events.
pub open spec fn spec_menu_index_after(len: int, events: Seq<ButtonEvent>) -> int
    decreases events.len(),
{
    if events.len() == 0 {
        0
    } else {
        spec_menu_index(spec_menu_index_after(len, events.drop_last()), len, Some(events.last()))
    }
}

/// Law: the menu cursor never leaves the panel list. Starting from the
/// first entry, any sequence of button events whatever leaves the
/// cursor inside `[0, len)`.
pub proof fn lemma_menu_cursor_in_range(len: int, events: Seq<ButtonEvent>)
    requires
        len > 0,
    ensures
        0 <= spec_menu_index_after(len, events) < len,
    decreases events.len(),
{
    if events.len() > 0 {
        lemma_menu_cursor_in_range(len, events.drop_last());
    }
}

/// Law: the menu clamps at its ends. A left release at the first entry
/// and a right release at the last entry are no-ops.
pub proof fn lemma_menu_clamps(len: int)
    requires
        len > 0,
    ensures
        spec_menu_index(0, len, Some(ButtonEvent::LeftButtonRelease)) == 0,
        spec_menu_index(len - 1, len, Some(ButtonEvent::RightButtonRelease)) == len - 1,
{
}

impl<'a> Menu<'a> {
    /// The cursor lies inside the panel list.
    pub open spec fn wf(self) -> bool {
        0 < self.panels@.len() && (self.index as int) < self.panels@.len()
    }

    /// A fresh menu session over a non-empty panel list, with the
    /// first entry selected.
    pub fn new(panels: &'a [&'a str]) -> (m: Menu<'a>)
        requires
            panels@.len() > 0,
        ensures
            m.panels == panels,
            m.index == 0,
            m.wf(),
    {
        Menu { panels, index: 0 }
    }

    /// Feed one polled event to the session: move the cursor (clamped
    /// at both ends) and say what to draw. Both buttons released ends
    /// the session with the selected index.
    pub fn step(&mut self, e: Option<ButtonEvent>) -> (a: MenuAction)
        requires
            old(self).wf(),
        ensures
            final(self).wf(),
            final(self).panels == old(self).panels,
            final(self).index as int == spec_menu_index(
                old(self).index as int,
                old(self).panels@.len() as int,
                e,
            ),
            a == spec_menu_action(old(self).index as int, e),
    {
        match e {
            Some(ButtonEvent::LeftButtonPress) => MenuAction::HighlightUp,
            Some(ButtonEvent::RightButtonPress) => MenuAction::HighlightDown,
            Some(ButtonEvent::BothButtonsRelease) => MenuAction::Exit(self.index),
            Some(ev) => {
                match ev {
                    ButtonEvent::LeftButtonRelease => {
                        if self.index > 0 {
                            self.index = self.index - 1;
                        }
                    },
                    ButtonEvent::RightButtonRelease => {
                        if self.index < self.panels.len() - 1 {
                            self.index = self.index + 1;
                        }
                    },
                    _ => (),
                }
                MenuAction::Redraw
            },
            None => MenuAction::Idle,
        }
    }

    /// First panel of the chunk of `MAX_LINES` entries the cursor sits
    /// in: the menu scrolls a whole chunk at a time.
    pub fn visible_chunk(&self) -> (c: usize)
        ensures
            c == (self.index as int / MAX_LINES as int) * (MAX_LINES as int),
            c <= self.index,
    {
        (self.index / MAX_LINES) * MAX_LINES
    }

    /// Which line of the visible chunk is the selected one.
    pub fn bold_slot(&self) -> (s: usize)
        ensures
            s == self.index as int % (MAX_LINES as int),
            self.index as int == (self.index as int / MAX_LINES as int) * (MAX_LINES as int)
                + s,
    {
        self.index % MAX_LINES
    }

    /// The texts of the visible chunk, top to bottom: panel titles
    /// while the chunk is inside the list, empty lines past its end.
    pub fn visible_texts(&self) -> (ts: Vec<&'a str>)
        requires
            self.wf(),
            self.panels@.len() + MAX_LINES <= usize::MAX,
        ensures
            ts@.len() == MAX_LINES,
            forall|i: int|
                0 <= i < MAX_LINES ==> ts@[i]@ == {
                    let c = (self.index as int / MAX_LINES as int) * (MAX_LINES as int);
                    if c + i < self.panels@.len() {
                        self.panels@[c + i]@
                    } else {
                        ""@
                    }
                },
    {
        let chunk = self.visible_chunk();
        let mut ts: Vec<&'a str> = Vec::new();
        let mut i: usize = 0;
        while i < MAX_LINES
            invariant
                0 <= i <= MAX_LINES,
                ts@.len() == i,
                chunk == (self.index as int / MAX_LINES as int) * (MAX_LINES as int),
                chunk <= self.index < self.panels@.len(),
                self.panels@.len() + MAX_LINES <= usize::MAX,
                forall|j: int|
                    0 <= j < i ==> ts@[j]@ == if chunk + j < self.panels@.len() {
                        self.panels@[chunk + j]@
                    } else {
                        ""@
                    },
            decreases MAX_LINES - i,
        {
            if chunk + i < self.panels.len() {
                ts.push(self.panels[chunk + i]);
            } else {
                ts.push("");
            }
            i = i + 1;
        }
        ts
    }
}

/// Characters shown per pane of a scrolled message.
pub const CHAR_N: usize = 16;

/// Byte length of a borrowed text as the machine reports it. Any real
/// borrowed text is at most one machine word long, so the cast never
/// loses anything; it only keeps the arithmetic inside machine range.
pub open spec fn spec_msg_len(s: &str) -> int {
    s.spec_bytes().len() as usize as int
}

/// What one step of a left/right pager (scroller, paged validator)
/// asks the screen shell to do.
#[derive(Clone, Copy, Debug, PartialEq, Eq, Structural)]
pub enum PagerAction {
    /// Nothing to draw.
    Idle,
    /// Left button armed: paint the shifted left arrow.
    HighlightLeft,
    /// Right button armed: paint the shifted right arrow.
    HighlightRight,
    /// The cursor may have moved: erase the shifted arrow and redraw
    /// the current pane.
    Redraw,
    /// Both buttons released: the session is over.
    Exit,
}

/// A pager cursor after one step: a left release moves back, clamped
/// at the first pane; a right release moves forward, clamped at the
/// last.
pub open spec fn spec_pager_index(index: int, count: int, e: Option<ButtonEvent>) -> int {
    match e {
        Some(ButtonEvent::LeftButtonRelease) => if index > 0 {
            index - 1
        } else {
            0
        },
        Some(ButtonEvent::RightButtonRelease) => if index + 1 < count {
            index + 1
        } else {
            index
        },
        _ => index,
    }
}

/// The action one pager step returns for each event.
pub open spec fn spec_pager_action(e: Option<ButtonEvent>) -> PagerAction {
    match e {
        Some(ButtonEvent::LeftButtonPress) => PagerAction::HighlightLeft,
        Some(ButtonEvent::RightButtonPress) => PagerAction::HighlightRight,
        Some(ButtonEvent::LeftButtonRelease) => PagerAction::Redraw,
        Some(ButtonEvent::RightButtonRelease) => PagerAction::Redraw,
        Some(ButtonEvent::BothButtonsRelease) => PagerAction::Exit,
        _ => PagerAction::Idle,
    }
}

/// Panes a message of `len` characters scrolls over: one pane per
/// started run of `CHAR_N` characters, and a single empty pane for an
/// empty message.
pub open spec fn spec_page_count(len: int) -> int {
    if len == 0 {
        1
    } else {
        (len - 1) / (CHAR_N as int) + 1
    }
}

/// Horizontal scroller over a long message: the message is cut into
/// `CHAR_N`-character panes and the cursor pages through them, clamped
/// at both ends. Runs until both buttons are released.
pub struct MessageScroller<'a> {
    pub message: &'a str,
    pub cur_page: usize,
}

impl<'a> MessageScroller<'a> {
    /// The cursor lies inside the pane list.
    pub open spec fn wf(self) -> bool {
        (self.cur_page as int) < spec_page_count(spec_msg_len(self.message))
    }

    /// A fresh scrolling session over the message, at its first pane.
    pub fn new(message: &'a str) -> (s: MessageScroller<'a>)
        ensures
            s.message == message,
            s.cur_page == 0,
            s.wf(),
    {
        MessageScroller { message, cur_page: 0 }
    }

    /// How many panes the message scrolls over.
    pub fn page_count(&self) -> (n: usize)
        ensures
            n == spec_page_count(spec_msg_len(self.message)),
    {
        let len = self.message.len();
        if len == 0 {
            1
        } else {
            (len - 1) / CHAR_N + 1
        }
    }

    /// Feed one polled event to the session: move the pane cursor
    /// (clamped at both ends) and say what to draw. Both buttons
    /// released ends the session.
    pub fn step(&mut self, e: Option<ButtonEvent>) -> (a: PagerAction)
        requires
            old(self).wf(),
        ensures
            final(self).wf(),
            final(self).message == old(self).message,
            final(self).cur_page as int == spec_pager_index(
                old(self).cur_page as int,
                spec_page_count(spec_msg_len(old(self).message)),
                e,
            ),
            a == spec_pager_action(e),
    {
        match e {
            Some(ButtonEvent::LeftButtonPress) => PagerAction::HighlightLeft,
            Some(ButtonEvent::RightButtonPress) => PagerAction::HighlightRight,
            Some(ButtonEvent::LeftButtonRelease) => {
                if self.cur_page > 0 {
                    self.cur_page = self.cur_page - 1;
                }
                PagerAction::Redraw
            },
            Some(ButtonEvent::RightButtonRelease) => {
                let count = self.page_count();
                if self.cur_page + 1 < count {
                    self.cur_page = self.cur_page + 1;
                }
                PagerAction::Redraw
            },
            Some(ButtonEvent::BothButtonsRelease) => PagerAction::Exit,
            _ => PagerAction::Idle,
        }
    }

    /// Character range of the current pane: `CHAR_N` characters from
    /// the pane's start, cut short at the end of the message.
    pub fn chunk_bounds(&self) -> (b: (usize, usize))
        requires
            self.wf(),
        ensures
            b.0 == self.cur_page as int * CHAR_N as int,
            b.1 == if b.0 + CHAR_N as int <= spec_msg_len(self.message) {
                b.0 + CHAR_N as int
            } else {
                spec_msg_len(self.message)
            },
            b.0 <= b.1 <= spec_msg_len(self.message),
            b.1 - b.0 <= CHAR_N,
    {
        let len = self.message.len();
        let start = self.cur_page * CHAR_N;
        proof {
            lemma_pane_start_in_message(self.cur_page as int, len as int);
        }
        let end = if len - start < CHAR_N {
            len
        } else {
            start + CHAR_N
        };
        (start, end)
    }

    /// Whether the back arrow is shown: only once the cursor has left
    /// the first pane.
    pub fn left_arrow_shown(&self) -> (b: bool)
        ensures
            b == (self.cur_page > 0),
    {
        self.cur_page > 0
    }

    /// Whether the forward arrow is shown: only while panes remain
    /// after the current one.
    pub fn right_arrow_shown(&self) -> (b: bool)
        requires
            self.wf(),
        ensures
            b == ((self.cur_page as int) + 1 < spec_page_count(
                spec_msg_len(self.message),
            )),
    {
        let count = self.page_count();
        self.cur_page + 1 < count
    }
}

/// A pane cursor inside the pane list starts a pane inside the
/// message (or at its very end, for the empty message's single empty
/// pane).
proof fn lemma_pane_start_in_message(page: int, len: int)
    requires
        0 <= page < spec_page_count(len),
        0 <= len,
    ensures
        page * (CHAR_N as int) <= len,
{
    if len > 0 {
        let c = CHAR_N as int;
        assert(page * c <= ((len - 1) / c) * c) by (nonlinear_arith)
            requires
                0 <= page <= (len - 1) / c,
                c > 0,
        ;
        assert(((len - 1) / c) * c <= len - 1) by (nonlinear_arith)
            requires
                len >= 1,
                c > 0,
        ;
    }
}

/// Generic horizontal pager over a fixed number of panes, clamped at
/// both ends; what each pane shows is the caller's business. Runs
/// until both buttons are released.
pub struct HScroller {
    pub page_count: usize,
    pub cur_page: usize,
}

impl HScroller {
    /// The cursor lies inside the pane list.
    pub open spec fn wf(self) -> bool {
        0 < self.page_count && self.cur_page < self.page_count
    }

    /// A fresh paging session over a non-empty pane list, at the first
    /// pane.
    pub fn new(page_count: usize) -> (s: HScroller)
        requires
            page_count > 0,
        ensures
            s.page_count == page_count,
            s.cur_page == 0,
            s.wf(),
    {
        HScroller { page_count, cur_page: 0 }
    }

    /// Feed one polled event to the session: move the pane cursor
    /// (clamped at both ends) and say what to draw. Both buttons
    /// released ends the session.
    pub fn step(&mut self, e: Option<ButtonEvent>) -> (a: PagerAction)
        requires
            old(self).wf(),
        ensures
            final(self).wf(),
            final(self).page_count == old(self).page_count,
            final(self).cur_page as int == spec_pager_index(
                old(self).cur_page as int,
                old(self).page_count as int,
                e,
            ),
            a == spec_pager_action(e),
    {
        match e {
            Some(ButtonEvent::LeftButtonPress) => PagerAction::HighlightLeft,
            Some(ButtonEvent::RightButtonPress) => PagerAction::HighlightRight,
            Some(ButtonEvent::LeftButtonRelease) => {
                if self.cur_page > 0 {
                    self.cur_page = self.cur_page - 1;
                }
                PagerAction::Redraw
            },
            Some(ButtonEvent::RightButtonRelease) => {
                if self.cur_page + 1 < self.page_count {
                    self.cur_page = self.cur_page + 1;
                }
                PagerAction::Redraw
            },
            Some(ButtonEvent::BothButtonsRelease) => PagerAction::Exit,
            _ => PagerAction::Idle,
        }
    }
}

/// What one step of the paged message validator asks the screen shell
/// to do.
#[derive(Clone, Copy, Debug, PartialEq, Eq, Structural)]
pub enum MessageValidatorAction {
    /// Nothing to draw.
    Idle,
    /// Left button armed: paint the shifted left arrow.
    HighlightLeft,
    /// Right button armed: paint the shifted right arrow.
    HighlightRight,
    /// The cursor may have moved: erase the shifted arrow and redraw
    /// the current page.
    Redraw,
    /// Both buttons released on the confirm or cancel page: the
    /// session is over with this answer.
    Exit(bool),
}

/// Which of a paged validator's pages the cursor sits on.
#[derive(Clone, Copy, Debug, PartialEq, Eq, Structural)]
pub enum ValidatorPageKind {
    /// One of the caller's message pages, by its position in the list.
    Message(usize),
    /// The confirm page: checkmark icon and the confirm lines.
    Confirm,
    /// The cancel page, last of all: cross icon and the cancel lines.
    Cancel,
}

/// Multi-page confirmation: the caller's message pages in order, then
/// a confirm page, then a cancel page. The cursor pages through them,
/// clamped at both ends; both buttons released on one of the two
/// terminal pages answers the question.
pub struct MessageValidator<'a> {
    /// Texts of the message pages, one per page. May be empty.
    pub message: &'a [&'a str],
    /// Lines of the confirmation page: none (icon alone), one, or two.
    pub confirm: &'a [&'a str],
    /// Lines of the cancel page: none (icon alone), one, or two.
    pub cancel: &'a [&'a str],
    /// The page the cursor sits on.
    pub cur_page: usize,
}

/// The answer one paged-validator step returns, if the session ends:
/// both buttons released answer yes on the confirm page (second to
/// last) and no on the cancel page (last); anywhere else the session
/// goes on.
pub open spec fn spec_msg_validator_exit(page: int, count: int, e: Option<ButtonEvent>) -> Option<
    bool,
> {
    if e == Some(ButtonEvent::BothButtonsRelease) {
        if page == count - 2 {
            Some(true)
        } else if page == count - 1 {
            Some(false)
        } else {
            None
        }
    } else {
        None
    }
}

impl<'a> MessageValidator<'a> {
    /// How many pages the session shows: the message pages plus the
    /// confirm and cancel pages.
    pub open spec fn spec_page_count(self) -> int {
        self.message@.len() as int + 2
    }

    /// The cursor lies inside the page list.
    pub open spec fn wf(self) -> bool {
        (self.cur_page as int) < self.spec_page_count()
            && self.message@.len() + 2 <= usize::MAX
    }

    /// A fresh session over the given message, confirm and cancel
    /// texts, at the first page.
    pub fn new(message: &'a [&'a str], confirm: &'a [&'a str], cancel: &'a [&'a str]) -> (v:
        MessageValidator<'a>)
        requires
            message@.len() + 2 <= usize::MAX,
        ensures
            v.message == message,
            v.confirm == confirm,
            v.cancel == cancel,
            v.cur_page == 0,
            v.wf(),
    {
        MessageValidator { message, confirm, cancel, cur_page: 0 }
    }

    /// How many pages the session shows.
    pub fn page_count(&self) -> (n: usize)
        requires
            self.wf(),
        ensures
            n == self.spec_page_count(),
    {
        self.message.len() + 2
    }

    /// Feed one polled event to the session: move the page cursor
    /// (clamped at both ends) and say what to draw. Both buttons
    /// released end the session with yes on the confirm page and no on
    /// the cancel page, and redraw anywhere else.
    pub fn step(&mut self, e: Option<ButtonEvent>) -> (r: (MessageValidatorAction, Option<bool>))
        requires
            old(self).wf(),
        ensures
            final(self).wf(),
            final(self).message == old(self).message,
            final(self).confirm == old(self).confirm,
            final(self).cancel == old(self).cancel,
            final(self).cur_page as int == spec_pager_index(
                old(self).cur_page as int,
                old(self).spec_page_count(),
                e,
            ),
            r.1 == spec_msg_validator_exit(
                old(self).cur_page as int,
                old(self).spec_page_count(),
                e,
            ),
            r.1 is Some ==> r.0 == MessageValidatorAction::Exit(r.1->0),
            r.1 is None ==> r.0 == match e {
                Some(ButtonEvent::LeftButtonPress) => MessageValidatorAction::HighlightLeft,
                Some(ButtonEvent::RightButtonPress) => MessageValidatorAction::HighlightRight,
                Some(ButtonEvent::LeftButtonRelease) => MessageValidatorAction::Redraw,
                Some(ButtonEvent::RightButtonRelease) => MessageValidatorAction::Redraw,
                Some(ButtonEvent::BothButtonsRelease) => MessageValidatorAction::Redraw,
                _ => MessageValidatorAction::Idle,
            },
    {
        match e {
            Some(ButtonEvent::LeftButtonPress) => (MessageValidatorAction::HighlightLeft, None),
            Some(ButtonEvent::RightButtonPress) => (MessageValidatorAction::HighlightRight, None),
            Some(ButtonEvent::LeftButtonRelease) => {
                if self.cur_page > 0 {
                    self.cur_page = self.cur_page - 1;
                }
                (MessageValidatorAction::Redraw, None)
            },
            Some(ButtonEvent::RightButtonRelease) => {
                let count = self.page_count();
                if self.cur_page + 1 < count {
                    self.cur_page = self.cur_page + 1;
                }
                (MessageValidatorAction::Redraw, None)
            },
            Some(ButtonEvent::BothButtonsRelease) => {
                let count = self.page_count();
                if self.cur_page == count - 2 {
                    (MessageValidatorAction::Exit(true), Some(true))
                } else if self.cur_page == count - 1 {
                    (MessageValidatorAction::Exit(false), Some(false))
                } else {
                    (MessageValidatorAction::Redraw, None)
                }
            },
            _ => (MessageValidatorAction::Idle, None),
        }
    }

    /// What the current page is: one of the message pages, the confirm
    /// page, or the cancel page.
    pub fn page_kind(&self) -> (k: ValidatorPageKind)
        requires
            self.wf(),
        ensures
            k == if (self.cur_page as int) < self.message@.len() {
                ValidatorPageKind::Message(self.cur_page)
            } else if self.cur_page as int == self.message@.len() {
                ValidatorPageKind::Confirm
            } else {
                ValidatorPageKind::Cancel
            },
    {
        if self.cur_page < self.message.len() {
            ValidatorPageKind::Message(self.cur_page)
        } else if self.cur_page == self.message.len() {
            ValidatorPageKind::Confirm
        } else {
            ValidatorPageKind::Cancel
        }
    }

    /// Whether the back arrow is shown: only once the cursor has left
    /// the first page.
    pub fn left_arrow_shown(&self) -> (b: bool)
        ensures
            b == (self.cur_page > 0),
    {
        self.cur_page > 0
    }

    /// Whether the forward arrow is shown: on every page but the last
    /// (cancel) one.
    pub fn right_arrow_shown(&self) -> (b: bool)
        requires
            self.wf(),
        ensures
            b == ((self.cur_page as int) + 1 < self.spec_page_count()),
    {
        let count = self.page_count();
        self.cur_page + 1 < count
    }
}

/// Column an icon page's icon is drawn at: centred when it stands
/// alone, pushed to the left margin when lines of text stand beside
/// it.
pub fn icon_x(n_lines: usize) -> (x: usize)
    ensures
        x == if n_lines == 0 {
            60int
        } else {
            18int
        },
{
    if n_lines == 0 {
        60
    } else {
        18
    }
}

/// Law: presses arm, releases commit. A press event — left, right or
/// both — never moves a cursor or a selection in any widget: it only
/// triggers the transient highlight. Movement is committed exclusively
/// by the matching release.
pub proof fn lemma_press_never_moves_cursor(index: int, len: int, count: int, response: bool)
    ensures
        forall|e: ButtonEvent|
            (e is LeftButtonPress || e is RightButtonPress || e is BothButtonsPress) ==> {
                &&& #[trigger] spec_menu_index(index, len, Some(e)) == index
                &&& spec_pager_index(index, count, Some(e)) == index
                &&& spec_multi_page_index(index, len, Some(e)) == index
                &&& spec_validator_response(response, Some(e)) == response
            },
{
}

/// How one page of a multi-page menu arranges its icon and its two
/// text lines.
#[derive(Clone, Copy, Debug, PartialEq, Eq, Structural)]
pub enum PageStyle {
    /// Icon beside two lines of regular text.
    PictureNormal,
    /// Icon above one line of bold text.
    PictureBold,
    /// One line of bold text above one line of regular text.
    BoldNormal,
    /// Two lines of regular centred text.
    Normal,
}

/// One page of a multi-page menu: a style, up to two text lines, and
/// an optional glyph for the icon styles.
pub struct Page<'a> {
    pub style: PageStyle,
    pub label: [&'a str; 2],
    pub glyph: Option<&'a Glyph<'a>>,
}

/// Pixel position and weight of one placed text line.
#[derive(Clone, Copy, Debug, PartialEq, Eq, Structural)]
pub struct PlacedLine {
    pub x: usize,
    pub y: usize,
    pub bold: bool,
}

/// Where one page's content goes on the screen: the icon's position if
/// an icon is drawn, and the position of each drawn text line.
pub struct PagePlacement {
    pub icon: Option<(i16, i16)>,
    pub line0: Option<PlacedLine>,
    pub line1: Option<PlacedLine>,
}

impl<'a> Page<'a> {
    /// A page from its parts.
    pub fn new(style: PageStyle, label: [&'a str; 2], glyph: Option<&'a Glyph<'a>>) -> (p: Page<
        'a,
    >)
        ensures
            p.style == style,
            p.label == label,
            p.glyph == glyph,
    {
        Page { style, label, glyph }
    }

    /// An icon-beside-text page: the glyph next to two lines of
    /// regular text.
    pub fn new_picture_normal(label: [&'a str; 2], glyph: &'a Glyph<'a>) -> (p: Page<'a>)
        ensures
            p.style == PageStyle::PictureNormal,
            p.label == label,
            p.glyph == Some(glyph),
    {
        Page::new(PageStyle::PictureNormal, label, Some(glyph))
    }

    /// An icon-above-title page: the glyph above one line of bold
    /// text.
    pub fn new_picture_bold(title: &'a str, glyph: &'a Glyph<'a>) -> (p: Page<'a>)
        ensures
            p.style == PageStyle::PictureBold,
            p.label[0] == title,
            p.label[1]@ == ""@,
            p.glyph == Some(glyph),
    {
        Page::new(PageStyle::PictureBold, [title, ""], Some(glyph))
    }

    /// A bold headline above a regular line, no icon.
    pub fn new_bold_normal(label: [&'a str; 2]) -> (p: Page<'a>)
        ensures
            p.style == PageStyle::BoldNormal,
            p.label == label,
            p.glyph is None,
    {
        Page::new(PageStyle::BoldNormal, label, None)
    }

    /// Two regular centred lines, no icon.
    pub fn new_normal(label: [&'a str; 2]) -> (p: Page<'a>)
        ensures
            p.style == PageStyle::Normal,
            p.label == label,
            p.glyph is None,
    {
        Page::new(PageStyle::Normal, label, None)
    }

    /// Estimated pixel width of one of the page's text lines.
    pub open spec fn spec_line_width(self, i: int) -> int {
        self.label[i].spec_bytes().len() * CHAR_WIDTH
    }

    /// Both text lines are narrow enough to centre on the screen.
    pub open spec fn placeable(self) -> bool {
        self.spec_line_width(0) <= SCREEN_WIDTH && self.spec_line_width(1) <= SCREEN_WIDTH
    }

    /// Where this page's content goes, by its style: the icon styles
    /// pin the icon at a fixed spot and centre their text around it,
    /// the text styles centre a two-line stack in the middle of the
    /// screen. Lines are centred each against its own width.
    pub fn place(&self) -> (pl: PagePlacement)
        requires
            self.placeable(),
        ensures
            pl.icon == (match self.style {
                PageStyle::PictureNormal => if self.glyph is Some {
                    Some((57i16, 10i16))
                } else {
                    None
                },
                PageStyle::PictureBold => if self.glyph is Some {
                    Some((57i16, 17i16))
                } else {
                    None
                },
                _ => None,
            }),
            pl.line0 matches Some(l0) && l0.x == spec_get_x(
                Layout::Centered,
                self.spec_line_width(0),
            ),
            (pl.line0->0).bold == (self.style is PictureBold || self.style is BoldNormal),
            (pl.line0->0).y == (match self.style {
                PageStyle::PictureNormal => 28int,
                PageStyle::PictureBold => 35int,
                PageStyle::BoldNormal => spec_get_y(
                    Location::Middle,
                    2 * LINE_HEIGHT + 2 * BOLD_NORMAL_PADDING,
                ),
                PageStyle::Normal => spec_get_y(
                    Location::Middle,
                    spec_stack_height(2, LINE_HEIGHT as int, 2 * PADDING),
                ),
            }),
            self.style is PictureBold ==> pl.line1 is None,
            !(self.style is PictureBold) ==> (pl.line1 matches Some(l1) && !l1.bold && l1.x
                == spec_get_x(Layout::Centered, self.spec_line_width(1)) && l1.y == (
            pl.line0->0).y + LINE_HEIGHT + (if self.style is BoldNormal {
                2 * BOLD_NORMAL_PADDING
            } else {
                2 * PADDING as int
            })),
    {
        let w0 = crate::fonts::compute_width(self.label[0], false);
        let x0 = Layout::Centered.get_x(w0);
        let w1 = crate::fonts::compute_width(self.label[1], false);
        let x1 = Layout::Centered.get_x(w1);
        let icon: Option<(i16, i16)> = match self.style {
            PageStyle::PictureNormal => {
                match self.glyph {
                    Some(_) => Some((57, 10)),
                    None => None,
                }
            },
            PageStyle::PictureBold => {
                match self.glyph {
                    Some(_) => Some((57, 17)),
                    None => None,
                }
            },
            _ => None,
        };
        match self.style {
            PageStyle::PictureNormal => {
                let y0: usize = 28;
                PagePlacement {
                    icon,
                    line0: Some(PlacedLine { x: x0, y: y0, bold: false }),
                    line1: Some(
                        PlacedLine { x: x1, y: y0 + LINE_HEIGHT + 2 * PADDING, bold: false },
                    ),
                }
            },
            PageStyle::PictureBold => {
                PagePlacement {
                    icon,
                    line0: Some(PlacedLine { x: x0, y: 35, bold: true }),
                    line1: None,
                }
            },
            PageStyle::BoldNormal => {
                let total = 2 * LINE_HEIGHT + 2 * BOLD_NORMAL_PADDING;
                let y0 = Location::Middle.get_y(total);
                PagePlacement {
                    icon,
                    line0: Some(PlacedLine { x: x0, y: y0, bold: true }),
                    line1: Some(
                        PlacedLine {
                            x: x1,
                            y: y0 + LINE_HEIGHT + 2 * BOLD_NORMAL_PADDING,
                            bold: false,
                        },
                    ),
                }
            },
            PageStyle::Normal => {
                let total = 2 * LINE_HEIGHT + 2 * PADDING;
                let y0 = Location::Middle.get_y(total);
                PagePlacement {
                    icon,
                    line0: Some(PlacedLine { x: x0, y: y0, bold: false }),
                    line1: Some(
                        PlacedLine { x: x1, y: y0 + LINE_HEIGHT + 2 * PADDING, bold: false },
                    ),
                }
            },
        }
    }
}

/// Inter-line padding of the bold-headline page style, in pixels.
pub const BOLD_NORMAL_PADDING: usize = 1;

/// What one step of the multi-page menu asks the screen shell to do.
#[derive(Clone, Copy, Debug, PartialEq, Eq, Structural)]
pub enum MultiPageMenuAction {
    /// Nothing to draw.
    Idle,
    /// Left button armed: paint the shifted left arrow.
    HighlightLeft,
    /// Right button armed: paint the shifted right arrow.
    HighlightRight,
    /// The cursor may have moved: erase the shifted arrow and redraw
    /// the current page.
    Redraw,
    /// Both buttons released: the session is over with this page
    /// selected.
    Exit(usize),
}

/// The multi-page menu cursor after one step: left and right releases
/// move through the pages and wrap around at both ends.
pub open spec fn spec_multi_page_index(index: int, len: int, e: Option<ButtonEvent>) -> int {
    match e {
        Some(ButtonEvent::LeftButtonRelease) => if index == 0 {
            len - 1
        } else {
            index - 1
        },
        Some(ButtonEvent::RightButtonRelease) => if index + 1 < len {
            index + 1
        } else {
            0
        },
        _ => index,
    }
}

/// The action one multi-page menu step returns for each event.
pub open spec fn spec_multi_page_action(index: int, e: Option<ButtonEvent>) -> MultiPageMenuAction {
    match e {
        Some(ButtonEvent::LeftButtonPress) => MultiPageMenuAction::HighlightLeft,
        Some(ButtonEvent::RightButtonPress) => MultiPageMenuAction::HighlightRight,
        Some(ButtonEvent::BothButtonsRelease) => MultiPageMenuAction::Exit(index as usize),
        Some(_) => MultiPageMenuAction::Redraw,
        None => MultiPageMenuAction::Idle,
    }
}

/// Law: the multi-page menu wraps at both ends. A left release on the
/// first page lands on the last, and a right release on the last page
/// lands on the first.
pub proof fn lemma_multi_page_wraps(len: int)
    requires
        len > 0,
    ensures
        spec_multi_page_index(0, len, Some(ButtonEvent::LeftButtonRelease)) == len - 1,
        spec_multi_page_index(len - 1, len, Some(ButtonEvent::RightButtonRelease)) == 0,
{
}

/// Menu over a list of heterogeneous pages, one shown at a time, the
/// cursor wrapping around at both ends. The unverified shell may also
/// leave the session when the transport hands it a non-button event.
pub struct MultiPageMenu<'a> {
    pub pages: &'a [&'a Page<'a>],
    pub index: usize,
}

impl<'a> MultiPageMenu<'a> {
    /// The cursor lies inside the page list.
    pub open spec fn wf(self) -> bool {
        0 < self.pages@.len() && (self.index as int) < self.pages@.len()
    }

    /// A fresh session over a non-empty page list, at the first page.
    pub fn new(pages: &'a [&'a Page<'a>]) -> (m: MultiPageMenu<'a>)
        requires
            pages@.len() > 0,
        ensures
            m.pages == pages,
            m.index == 0,
            m.wf(),
    {
        MultiPageMenu { pages, index: 0 }
    }

    /// Feed one polled button event to the session: move the cursor
    /// (wrapping at both ends) and say what to draw. Both buttons
    /// released ends the session with the shown page's index.
    pub fn step(&mut self, e: Option<ButtonEvent>) -> (a: MultiPageMenuAction)
        requires
            old(self).wf(),
        ensures
            final(self).wf(),
            final(self).pages == old(self).pages,
            final(self).index as int == spec_multi_page_index(
                old(self).index as int,
                old(self).pages@.len() as int,
                e,
            ),
            a == spec_multi_page_action(old(self).index as int, e),
    {
        match e {
            Some(ButtonEvent::LeftButtonPress) => MultiPageMenuAction::HighlightLeft,
            Some(ButtonEvent::RightButtonPress) => MultiPageMenuAction::HighlightRight,
            Some(ButtonEvent::BothButtonsRelease) => MultiPageMenuAction::Exit(self.index),
            Some(ev) => {
                match ev {
                    ButtonEvent::LeftButtonRelease => {
                        if self.index == 0 {
                            self.index = self.pages.len() - 1;
                        } else {
                            self.index = self.index - 1;
                        }
                    },
                    ButtonEvent::RightButtonRelease => {
                        if self.index < self.pages.len() - 1 {
                            self.index = self.index + 1;
                        } else {
                            self.index = 0;
                        }
                    },
                    _ => (),
                }
                MultiPageMenuAction::Redraw
            },
            None => MultiPageMenuAction::Idle,
        }
    }

    /// The page the cursor sits on.
    pub fn current_page(&self) -> (p: &'a Page<'a>)
        requires
            self.wf(),
        ensures
            p == self.pages@[self.index as int],
    {
        self.pages[self.index]
    }
}

/// A single short message in the middle of the screen, shown until any
/// button release.
pub struct SingleMessage<'a> {
    pub message: &'a str,
}

impl<'a> SingleMessage<'a> {
    /// A fresh single-message screen.
    pub fn new(message: &'a str) -> (s: SingleMessage<'a>)
        ensures
            s.message == message,
    {
        SingleMessage { message }
    }

    /// Feed one polled event: the screen is done as soon as any
    /// release event arrives.
    pub fn step(&self, e: Option<ButtonEvent>) -> (done: bool)
        ensures
            done == (e matches Some(ev) && crate::buttons::is_release(ev)),
    {
        match e {
            Some(ButtonEvent::LeftButtonRelease) => true,
            Some(ButtonEvent::RightButtonRelease) => true,
            Some(ButtonEvent::BothButtonsRelease) => true,
            _ => false,
        }
    }
}

} // verus!
