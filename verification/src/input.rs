//! Input-event handling.
//!
//! The windowing backend delivers discrete press/release events for a fixed
//! key set; each maps to setting or clearing specific port register bits.
//! Three keys mutate dip-switch bits directly instead of through held
//! state: lives-count cycling, the bonus-threshold toggle and the
//! pricing-display toggle act once per press.

use vstd::prelude::*;

use crate::dispatch::Devices;
use crate::ports::Port1Flag;
use crate::ports::Port2Flag;

verus! {

/// One key of the machine's fixed input set.
#[derive(Clone, Copy, Debug, PartialEq, Eq, Structural)]
pub enum InputKey {
    /// Moves both players left while held.
    Left,
    /// Moves both players right while held.
    Right,
    /// Fires for both players while held.
    Fire,
    /// The coin switch.
    Coin,
    /// The tilt switch.
    Tilt,
    /// The one-player start button.
    OnePlayerStart,
    /// The two-player start button.
    TwoPlayerStart,
    /// Steps the lives-count dip switches on each press.
    CycleLives,
    /// Toggles the extra-life threshold dip switch on each press.
    ToggleExtraLife,
    /// Toggles the pricing-display dip switch on each press.
    TogglePricingDisplay,
}

/// How one key event moves the devices: only the port registers change,
/// and only the bits the key names.
pub open spec fn input_transition(pre: Devices, post: Devices, key: InputKey, pressed: bool) -> bool {
    &&& post.triggers == pre.triggers
    &&& post.video_shifter == pre.video_shifter
    &&& match key {
        InputKey::Left => {
            &&& held_bit(pre.port1.spec_bits(), post.port1.spec_bits(),
                    Port1Flag::Player1Left.spec_mask(), pressed)
            &&& held_bit(pre.port2.spec_bits(), post.port2.spec_bits(),
                    Port2Flag::Player2Left.spec_mask(), pressed)
        },
        InputKey::Right => {
            &&& held_bit(pre.port1.spec_bits(), post.port1.spec_bits(),
                    Port1Flag::Player1Right.spec_mask(), pressed)
            &&& held_bit(pre.port2.spec_bits(), post.port2.spec_bits(),
                    Port2Flag::Player2Right.spec_mask(), pressed)
        },
        InputKey::Fire => {
            &&& held_bit(pre.port1.spec_bits(), post.port1.spec_bits(),
                    Port1Flag::Player1Fire.spec_mask(), pressed)
            &&& held_bit(pre.port2.spec_bits(), post.port2.spec_bits(),
                    Port2Flag::Player2Fire.spec_mask(), pressed)
        },
        InputKey::Coin => {
            &&& held_bit(pre.port1.spec_bits(), post.port1.spec_bits(),
                    Port1Flag::Coin.spec_mask(), pressed)
            &&& post.port2 == pre.port2
        },
        InputKey::Tilt => {
            &&& post.port1 == pre.port1
            &&& held_bit(pre.port2.spec_bits(), post.port2.spec_bits(),
                    Port2Flag::Tilt.spec_mask(), pressed)
        },
        InputKey::OnePlayerStart => {
            &&& held_bit(pre.port1.spec_bits(), post.port1.spec_bits(),
                    Port1Flag::Player1Start.spec_mask(), pressed)
            &&& post.port2 == pre.port2
        },
        InputKey::TwoPlayerStart => {
            &&& held_bit(pre.port1.spec_bits(), post.port1.spec_bits(),
                    Port1Flag::Player2Start.spec_mask(), pressed)
            &&& post.port2 == pre.port2
        },
        InputKey::CycleLives => {
            &&& post.port1 == pre.port1
            &&& if pressed {
                post.port2.spec_bits() == (pre.port2.spec_bits() & 0b1111_1100)
                    | (((pre.port2.spec_bits() & 0b0000_0011) + 1) % 4) as u8
            } else {
                post.port2 == pre.port2
            }
        },
        InputKey::ToggleExtraLife => {
            &&& post.port1 == pre.port1
            &&& if pressed {
                post.port2.spec_bits()
                    == pre.port2.spec_bits() ^ Port2Flag::ExtraLifeAt.spec_mask()
            } else {
                post.port2 == pre.port2
            }
        },
        InputKey::TogglePricingDisplay => {
            &&& post.port1 == pre.port1
            &&& if pressed {
                post.port2.spec_bits()
                    == pre.port2.spec_bits() ^ Port2Flag::PricingDisplay.spec_mask()
            } else {
                post.port2 == pre.port2
            }
        },
    }
}

/// A held switch: its bit is set while the key is pressed and cleared when
/// it is released; the other bits keep their value.
pub open spec fn held_bit(pre_bits: u8, post_bits: u8, mask: u8, pressed: bool) -> bool {
    if pressed {
        post_bits == pre_bits | mask
    } else {
        post_bits == pre_bits & !mask
    }
}

impl Devices {
    /// Applies one key event to the port registers.
    pub fn handle_input(&mut self, key: InputKey, pressed: bool)
        ensures
            input_transition(*old(self), *final(self), key, pressed),
    {
        match key {
            InputKey::Left => {
                if pressed {
                    self.port1.insert(Port1Flag::Player1Left);
                    self.port2.insert(Port2Flag::Player2Left);
                } else {
                    self.port1.remove(Port1Flag::Player1Left);
                    self.port2.remove(Port2Flag::Player2Left);
                }
            }
            InputKey::Right => {
                if pressed {
                    self.port1.insert(Port1Flag::Player1Right);
                    self.port2.insert(Port2Flag::Player2Right);
                } else {
                    self.port1.remove(Port1Flag::Player1Right);
                    self.port2.remove(Port2Flag::Player2Right);
                }
            }
            InputKey::Fire => {
                if pressed {
                    self.port1.insert(Port1Flag::Player1Fire);
                    self.port2.insert(Port2Flag::Player2Fire);
                } else {
                    self.port1.remove(Port1Flag::Player1Fire);
                    self.port2.remove(Port2Flag::Player2Fire);
                }
            }
            InputKey::Coin => {
                if pressed {
                    self.port1.insert(Port1Flag::Coin);
                } else {
                    self.port1.remove(Port1Flag::Coin);
                }
            }
            InputKey::Tilt => {
                if pressed {
                    self.port2.insert(Port2Flag::Tilt);
                } else {
                    self.port2.remove(Port2Flag::Tilt);
                }
            }
            InputKey::OnePlayerStart => {
                if pressed {
                    self.port1.insert(Port1Flag::Player1Start);
                } else {
                    self.port1.remove(Port1Flag::Player1Start);
                }
            }
            InputKey::TwoPlayerStart => {
                if pressed {
                    self.port1.insert(Port1Flag::Player2Start);
                } else {
                    self.port1.remove(Port1Flag::Player2Start);
                }
            }
            InputKey::CycleLives => {
                if pressed {
                    self.port2.cycle_lives();
                }
            }
            InputKey::ToggleExtraLife => {
                if pressed {
                    self.port2.toggle(Port2Flag::ExtraLifeAt);
                }
            }
            InputKey::TogglePricingDisplay => {
                if pressed {
                    self.port2.toggle(Port2Flag::PricingDisplay);
                }
            }
        }
    }
}

} // verus!
