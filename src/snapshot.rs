use vstd::prelude::*;

verus! {

/// Digital-input bit of the d-pad's up direction.
pub const BUTTON_DPAD_UP: u16 = 0x0001;
/// Digital-input bit of the d-pad's down direction.
pub const BUTTON_DPAD_DOWN: u16 = 0x0002;
/// Digital-input bit of the d-pad's left direction.
pub const BUTTON_DPAD_LEFT: u16 = 0x0004;
/// Digital-input bit of the d-pad's right direction.
pub const BUTTON_DPAD_RIGHT: u16 = 0x0008;
/// Digital-input bit of the start button.
pub const BUTTON_START: u16 = 0x0010;
/// Digital-input bit of the back button.
pub const BUTTON_BACK: u16 = 0x0020;
/// Digital-input bit of the left stick's button.
pub const BUTTON_LEFT_THUMB: u16 = 0x0040;
/// Digital-input bit of the right stick's button.
pub const BUTTON_RIGHT_THUMB: u16 = 0x0080;
/// Digital-input bit of the left shoulder button.
pub const BUTTON_LEFT_SHOULDER: u16 = 0x0100;
/// Digital-input bit of the right shoulder button.
pub const BUTTON_RIGHT_SHOULDER: u16 = 0x0200;
/// Digital-input bit of the A button.
pub const BUTTON_A: u16 = 0x1000;
/// Digital-input bit of the B button.
pub const BUTTON_B: u16 = 0x2000;
/// Digital-input bit of the X button.
pub const BUTTON_X: u16 = 0x4000;
/// Digital-input bit of the Y button.
pub const BUTTON_Y: u16 = 0x8000;

/// The output of one observed state query: a packet counter, the mask of
/// digital inputs, two trigger magnitudes and two pairs of analog axes.
#[derive(Clone, Copy, PartialEq, Eq, Structural, Debug)]
pub struct GamepadSnapshot {
    pub packet_number: u32,
    pub buttons: u16,
    pub left_trigger: u8,
    pub right_trigger: u8,
    pub thumb_lx: i16,
    pub thumb_ly: i16,
    pub thumb_rx: i16,
    pub thumb_ry: i16,
}

/// The all-zero snapshot that the store holds before anything is observed.
pub open spec fn zeroed_snapshot() -> GamepadSnapshot {
    GamepadSnapshot {
        packet_number: 0,
        buttons: 0,
        left_trigger: 0,
        right_trigger: 0,
        thumb_lx: 0,
        thumb_ly: 0,
        thumb_rx: 0,
        thumb_ry: 0,
    }
}

impl GamepadSnapshot {
    /// The all-zero snapshot.
    pub fn zeroed() -> (r: GamepadSnapshot)
        ensures
            r == zeroed_snapshot(),
    {
        GamepadSnapshot {
            packet_number: 0,
            buttons: 0,
            left_trigger: 0,
            right_trigger: 0,
            thumb_lx: 0,
            thumb_ly: 0,
            thumb_rx: 0,
            thumb_ry: 0,
        }
    }

    /// Whether every bit of `flag` is held in this snapshot's button mask.
    pub fn is_pressed(&self, flag: u16) -> (r: bool)
        ensures
            r == spec_has_button(self.buttons, flag),
    {
        has_button(self.buttons, flag)
    }
}

/// Whether every bit of `flag` is set in `buttons`.
pub open spec fn spec_has_button(buttons: u16, flag: u16) -> bool {
    buttons & flag == flag
}

/// Tests whether the buttons named by `flag` are all held in `buttons`.
pub fn has_button(buttons: u16, flag: u16) -> (r: bool)
    ensures
        r == spec_has_button(buttons, flag),
{
    buttons & flag == flag
}

} // verus!
