//! Graphics and keyboard support.

use vstd::prelude::*;

use super::error::VmError;

verus! {

/// Describes a virtual machine graphics and keyboard support type: the
/// interface a host backend implements to present the display and the
/// keypad. The core makes no promises about an implementation's
/// behaviour; it belongs to the driver around the machine.
pub trait Support {
    /// Clears the graphics display.
    fn clear(&mut self) -> Result<(), VmError>;

    /// Draws a sprite at the specified coordinates and gets a value
    /// indicating whether the sprite collided with already drawn pixels.
    fn draw(&mut self, sprite: &[u8], x: u8, y: u8) -> Result<bool, VmError>;

    /// Gets a value indicating if the given hexadecimal key is currently
    /// pressed.
    fn is_key_pressed(&self, key: u8) -> Result<bool, VmError>;

    /// Waits until a key is pressed and returns the hexadecimal key code.
    fn wait_key_pressed(&mut self) -> Result<u8, VmError>;
}

} // verus!
