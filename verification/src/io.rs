//! What a host plugs into the machine: keys, a screen and a speaker.

use vstd::prelude::*;

verus! {

/// The keys of the host.
pub trait Input {
    /// Whether the key for up is down.
    fn up(&self) -> bool;

    /// Whether the key for down is down.
    fn down(&self) -> bool;

    /// Whether the key for left is down.
    fn left(&self) -> bool;

    /// Whether the key for right is down.
    fn right(&self) -> bool;

    /// The hexadecimal digit of the key that is down.
    fn hex_digit(&self) -> u8;
}

/// A screen that is handed the whole display, 32 rows of 64 pixels in
/// row-major order.
pub trait GraphicsOutput {
    /// Shows `pixels`.
    fn display(&self, pixels: [bool; 2048]);
}

/// A speaker that is told whether to sound.
pub trait SoundOutput {
    /// Sounds while `on`.
    fn beep(&self, on: bool);
}

} // verus!
