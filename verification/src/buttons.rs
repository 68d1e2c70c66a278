//! Button-edge state machine: turns raw 2-bit readings of which buttons
//! are physically held into discrete press/release events.
//!
//! The machine keeps a single accumulator register: bits are OR-ed in as
//! buttons are seen held, and the register resets to zero exactly when a
//! reading of zero (full release) arrives. Press events fire when a bit
//! is first seen set while the register was still empty, except that a
//! reading of both bits at once always fires a both-press. Release
//! events fire only on the transition back to zero, and report which
//! bits had been accumulated. Every other transition is silent.

use vstd::prelude::*;

verus! {

/// Bit of the raw reading that marks the left button as held.
pub const LEFT_BUTTON_BIT: u8 = 1;

/// Bit of the raw reading that marks the right button as held.
pub const RIGHT_BUTTON_BIT: u8 = 2;

/// Tag byte that marks a transport frame as a button-state frame.
pub const BUTTON_FRAME_TAG: u8 = 0x05;

/// Discrete interaction event produced by one step of the state machine.
#[derive(Clone, Copy, Debug, PartialEq, Eq, Structural)]
pub enum ButtonEvent {
    LeftButtonPress,
    RightButtonPress,
    BothButtonsPress,
    LeftButtonRelease,
    RightButtonRelease,
    BothButtonsRelease,
}

/// Accumulator register of the button-edge state machine: which buttons
/// have been seen held since the last full release.
#[derive(Clone, Copy, Debug, PartialEq, Eq, Structural)]
pub struct ButtonsState {
    pub button_mask: u8,
}

/// The register after one step: a zero reading resets it, any other
/// reading is OR-ed in.
pub open spec fn next_mask(old_mask: u8, reading: u8) -> u8 {
    if reading == 0 {
        0
    } else {
        old_mask | reading
    }
}

/// The event emitted by one step, as a function of the accumulated
/// register and the new reading.
pub open spec fn event_of(old_mask: u8, reading: u8) -> Option<ButtonEvent> {
    if old_mask == 0 && reading == 1 {
        Some(ButtonEvent::LeftButtonPress)
    } else if old_mask == 0 && reading == 2 {
        Some(ButtonEvent::RightButtonPress)
    } else if reading == 3 {
        Some(ButtonEvent::BothButtonsPress)
    } else if reading == 0 {
        if old_mask == 1 {
            Some(ButtonEvent::LeftButtonRelease)
        } else if old_mask == 2 {
            Some(ButtonEvent::RightButtonRelease)
        } else if old_mask == 3 {
            Some(ButtonEvent::BothButtonsRelease)
        } else {
            None
        }
    } else {
        None
    }
}

/// True of the three release events.
pub open spec fn is_release(e: ButtonEvent) -> bool {
    e is LeftButtonRelease || e is RightButtonRelease || e is BothButtonsRelease
}

impl ButtonsState {
    /// A fresh register: nothing held, nothing accumulated.
    pub fn new() -> (s: ButtonsState)
        ensures
            s.button_mask == 0,
    {
        ButtonsState { button_mask: 0 }
    }
}

/// One step of the button-edge state machine: fold the latest reading of
/// which buttons are held into the register and report the discrete
/// event, if any, that the transition means.
pub fn get_button_event(buttons: &mut ButtonsState, reading: u8) -> (e: Option<ButtonEvent>)
    ensures
        final(buttons).button_mask == next_mask(old(buttons).button_mask, reading),
        e == event_of(old(buttons).button_mask, reading),
{
    let old_mask = buttons.button_mask;
    buttons.button_mask = old_mask | reading;
    if old_mask == 0 && reading == 1 {
        Some(ButtonEvent::LeftButtonPress)
    } else if old_mask == 0 && reading == 2 {
        Some(ButtonEvent::RightButtonPress)
    } else if reading == 3 {
        Some(ButtonEvent::BothButtonsPress)
    } else if reading == 0 {
        buttons.button_mask = 0;
        if old_mask == 1 {
            Some(ButtonEvent::LeftButtonRelease)
        } else if old_mask == 2 {
            Some(ButtonEvent::RightButtonRelease)
        } else if old_mask == 3 {
            Some(ButtonEvent::BothButtonsRelease)
        } else {
            None
        }
    } else {
        None
    }
}

/// The register reached by feeding a whole sequence of raw readings to
/// the machine, starting from the fresh (empty) register.
pub open spec fn mask_after(readings: Seq<u8>) -> u8
    decreases readings.len(),
{
    if readings.len() == 0 {
        0
    } else {
        next_mask(mask_after(readings.drop_last()), readings.last())
    }
}

/// The register only ever holds the two button bits when it is fed
/// genuine 2-bit readings.
pub proof fn lemma_mask_after_two_bits(readings: Seq<u8>)
    requires
        forall|i: int| 0 <= i < readings.len() ==> readings[i] <= 3,
    ensures
        mask_after(readings) <= 3,
    decreases readings.len(),
{
    if readings.len() > 0 {
        lemma_mask_after_two_bits(readings.drop_last());
        let m = mask_after(readings.drop_last());
        let r = readings.last();
        assert(m <= 3 && r <= 3 ==> (m | r) <= 3) by (bit_vector);
    }
}

/// Law: however the machine got where it is — after any sequence of
/// 2-bit readings — the next step emits a release event if and only if
/// the reading drops to zero while something was accumulated, and the
/// release reports exactly the accumulated bits: left bit alone gives a
/// left release, right bit alone a right release, both bits a
/// both-release.
pub proof fn lemma_release_iff_full_clear(readings: Seq<u8>, reading: u8)
    requires
        forall|i: int| 0 <= i < readings.len() ==> readings[i] <= 3,
        reading <= 3,
    ensures
        (event_of(mask_after(readings), reading) matches Some(e) && is_release(e)) <==> (
        mask_after(readings) != 0 && reading == 0),
        mask_after(readings) == 1 && reading == 0 ==> event_of(mask_after(readings), reading)
            == Some(ButtonEvent::LeftButtonRelease),
        mask_after(readings) == 2 && reading == 0 ==> event_of(mask_after(readings), reading)
            == Some(ButtonEvent::RightButtonRelease),
        mask_after(readings) == 3 && reading == 0 ==> event_of(mask_after(readings), reading)
            == Some(ButtonEvent::BothButtonsRelease),
{
    lemma_mask_after_two_bits(readings);
}

/// Law: events fire only on edges. A step of the machine emits an
/// event only when a button is first seen held from the empty
/// register, when the reading returns fully to zero, or when the
/// reading shows both buttons at once (which by design fires a
/// both-press on every step it is seen).
pub proof fn lemma_event_only_on_edges(old_mask: u8, reading: u8)
    ensures
        event_of(old_mask, reading) is Some ==> ((old_mask == 0 && reading != 0) || (old_mask != 0
            && reading == 0) || reading == 3),
{
}

/// Law: a repeated identical single-button reading is silent. Once a
/// reading has been folded into the register, feeding the same reading
/// again emits no event, whatever had been accumulated before. (A
/// reading of both buttons at once is the deliberate exception: it
/// fires a both-press on every step it is seen.)
pub proof fn lemma_repeated_reading_silent(old_mask: u8, reading: u8)
    requires
        reading == 1 || reading == 2,
    ensures
        event_of(next_mask(old_mask, reading), reading) is None,
{
    assert((old_mask | reading) != 0) by (bit_vector)
        requires
            reading == 1 || reading == 2,
    ;
}

/// What a received transport frame holds for the state machine: the
/// 2-bit button reading if the frame's tag byte marks it as a
/// button-state frame, nothing otherwise.
pub open spec fn spec_decode_button_frame(frame: Seq<u8>) -> Option<u8> {
    if frame[0] == BUTTON_FRAME_TAG {
        Some(frame[3] >> 1)
    } else {
        None
    }
}

/// Inspect one received frame: a button-state frame (tag byte 0x05)
/// yields the raw reading carried in its fourth byte, shifted down past
/// its low flag bit; any other frame is to be discarded.
pub fn decode_button_frame(frame: &[u8]) -> (r: Option<u8>)
    requires
        frame@.len() >= 4,
    ensures
        r == spec_decode_button_frame(frame@),
{
    if frame[0] == BUTTON_FRAME_TAG {
        Some(frame[3] >> 1)
    } else {
        None
    }
}

/// Tag byte of the set-ticker housekeeping frame sent to the host
/// side.
pub const TICKER_FRAME_TAG: u8 = 0x4e;

/// The housekeeping frame that asks the host side for a periodic
/// ticker: the tag byte, a two-byte length of 2, and the interval in
/// milliseconds, most significant byte first.
pub fn ticker_frame(interval_ms: u16) -> (frame: [u8; 5])
    ensures
        frame@ == seq![
            TICKER_FRAME_TAG,
            0u8,
            2u8,
            (interval_ms >> 8) as u8,
            (interval_ms & 0xff) as u8,
        ],
{
    let hi = (interval_ms >> 8) as u8;
    let lo = (interval_ms & 0xff) as u8;
    [TICKER_FRAME_TAG, 0, 2, hi, lo]
}

} // verus!
