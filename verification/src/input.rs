//! The keyboard and mouse state that the host shows its guest during a
//! frame. Keys are identified by their key code number.
use vstd::prelude::*;

verus! {

/// A mouse button.
#[derive(Clone, Copy, Debug, PartialEq, Eq, Structural)]
pub enum PointerButton {
    Left,
    Right,
    Middle,
    Other(u16),
}

/// The input state of one frame.
pub struct Inputs {
    pub keys_just_pressed: Vec<u32>,
    pub keys_pressed: Vec<u32>,
    pub keys_just_released: Vec<u32>,
    pub mouse_buttons_just_pressed: Vec<PointerButton>,
    pub mouse_buttons_just_released: Vec<PointerButton>,
    pub mouse_buttons_pressed: Vec<PointerButton>,
}

fn has_key(keys: &Vec<u32>, key: u32) -> (r: bool)
    ensures
        r == keys@.contains(key),
{
    let mut i: usize = 0;
    while i < keys.len()
        invariant
            i <= keys.len(),
            forall|k: int| 0 <= k < i ==> keys@[k] != key,
        decreases keys.len() - i,
    {
        if keys[i] == key {
            assert(keys@[i as int] == key);
            return true;
        }
        i = i + 1;
    }
    false
}

fn has_button(buttons: &Vec<PointerButton>, button: PointerButton) -> (r: bool)
    ensures
        r == buttons@.contains(button),
{
    let mut i: usize = 0;
    while i < buttons.len()
        invariant
            i <= buttons.len(),
            forall|k: int| 0 <= k < i ==> buttons@[k] != button,
        decreases buttons.len() - i,
    {
        if buttons[i] == button {
            assert(buttons@[i as int] == button);
            return true;
        }
        i = i + 1;
    }
    false
}

impl Inputs {
    /// No key and no button held or changed.
    pub fn new() -> (s: Inputs)
        ensures
            s.keys_just_pressed@.len() == 0,
            s.keys_pressed@.len() == 0,
            s.keys_just_released@.len() == 0,
            s.mouse_buttons_just_pressed@.len() == 0,
            s.mouse_buttons_just_released@.len() == 0,
            s.mouse_buttons_pressed@.len() == 0,
    {
        Inputs {
            keys_just_pressed: Vec::new(),
            keys_pressed: Vec::new(),
            keys_just_released: Vec::new(),
            mouse_buttons_just_pressed: Vec::new(),
            mouse_buttons_just_released: Vec::new(),
            mouse_buttons_pressed: Vec::new(),
        }
    }

    /// Replaces the state of the last frame by that of the new one.
    pub fn refresh(
        &mut self,
        keys_just_pressed: Vec<u32>,
        keys_pressed: Vec<u32>,
        keys_just_released: Vec<u32>,
        mouse_buttons_just_pressed: Vec<PointerButton>,
        mouse_buttons_pressed: Vec<PointerButton>,
        mouse_buttons_just_released: Vec<PointerButton>,
    )
        ensures
            final(self).keys_just_pressed@ == keys_just_pressed@,
            final(self).keys_pressed@ == keys_pressed@,
            final(self).keys_just_released@ == keys_just_released@,
            final(self).mouse_buttons_just_pressed@ == mouse_buttons_just_pressed@,
            final(self).mouse_buttons_pressed@ == mouse_buttons_pressed@,
            final(self).mouse_buttons_just_released@ == mouse_buttons_just_released@,
    {
        self.keys_just_pressed = keys_just_pressed;
        self.keys_pressed = keys_pressed;
        self.keys_just_released = keys_just_released;
        self.mouse_buttons_just_pressed = mouse_buttons_just_pressed;
        self.mouse_buttons_pressed = mouse_buttons_pressed;
        self.mouse_buttons_just_released = mouse_buttons_just_released;
    }

    /// Whether the key went down in this frame.
    pub fn key_just_pressed(&self, key: u32) -> (r: bool)
        ensures
            r == self.keys_just_pressed@.contains(key),
    {
        has_key(&self.keys_just_pressed, key)
    }

    /// Whether the key is held in this frame.
    pub fn key_pressed(&self, key: u32) -> (r: bool)
        ensures
            r == self.keys_pressed@.contains(key),
    {
        has_key(&self.keys_pressed, key)
    }

    /// Whether the key went up in this frame.
    pub fn key_just_released(&self, key: u32) -> (r: bool)
        ensures
            r == self.keys_just_released@.contains(key),
    {
        has_key(&self.keys_just_released, key)
    }

    /// Whether the button went down in this frame.
    pub fn mouse_button_just_pressed(&self, button: PointerButton) -> (r: bool)
        ensures
            r == self.mouse_buttons_just_pressed@.contains(button),
    {
        has_button(&self.mouse_buttons_just_pressed, button)
    }

    /// Whether the button went up in this frame.
    pub fn mouse_button_just_released(&self, button: PointerButton) -> (r: bool)
        ensures
            r == self.mouse_buttons_just_released@.contains(button),
    {
        has_button(&self.mouse_buttons_just_released, button)
    }

    /// Whether the button is held in this frame.
    pub fn mouse_button_pressed(&self, button: PointerButton) -> (r: bool)
        ensures
            r == self.mouse_buttons_pressed@.contains(button),
    {
        has_button(&self.mouse_buttons_pressed, button)
    }
}

} // verus!
