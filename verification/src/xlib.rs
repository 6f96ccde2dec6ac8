use vstd::prelude::*;

use crate::backends::xlib::{clean_mask_of, numlock_mask};

verus! {

/// A key (keycode and modifier mask) or a pointer button (button, modifier mask and the
/// pointer events to report) to grab.
#[derive(Clone, Copy, Debug, PartialEq, Eq, Structural)]
pub enum KeyOrButton {
    Key(i32, u32),
    Button(u32, u32, u64),
}

impl KeyOrButton {
    pub fn key(keycode: i32, modmask: u32) -> (r: Self)
        ensures
            r == KeyOrButton::Key(keycode, modmask),
    {
        Self::Key(keycode, modmask)
    }

    /// A button grab; the event mask is kept as the unsigned value of its bits.
    pub fn button(button: u32, modmask: u32, buttonmask: i64) -> (r: Self)
        ensures
            r == KeyOrButton::Button(button, modmask, buttonmask as u64),
    {
        Self::Button(button, modmask, buttonmask as u64)
    }
}

/// The Num Lock modifier's mask bit from the server's modifier map, or no bit if Num
/// Lock is bound to no modifier.
pub fn get_numlock_mask(modmap: &Vec<u8>, per_modifier: usize, numlock: u8) -> (r: u32)
    requires
        8 * per_modifier <= modmap@.len(),
    ensures
        r == match crate::backends::xlib::numlock_mask_from(modmap@, per_modifier as int, numlock, 0) {
            Some(m) => m,
            None => 0u32,
        },
{
    match numlock_mask(modmap, per_modifier, numlock) {
        Some(m) => m,
        None => 0,
    }
}

/// The modifier bits that count in a key binding: all but Caps Lock and Num Lock.
pub fn get_clean_mask(numlock_mask: u32) -> (r: u32)
    ensures
        r == clean_mask_of(numlock_mask),
{
    !(numlock_mask | crate::backends::xlib::LOCK_MASK) & (crate::backends::xlib::SHIFT_MASK
        | crate::backends::xlib::CONTROL_MASK | crate::backends::xlib::MOD1_MASK | crate::backends::xlib::MOD2_MASK
        | crate::backends::xlib::MOD3_MASK | crate::backends::xlib::MOD4_MASK | crate::backends::xlib::MOD5_MASK)
}

/// `mask` without the lock keys' bits.
pub fn clean_mask(numlock_mask: u32, mask: u32) -> (r: u32)
    ensures
        r == mask & clean_mask_of(numlock_mask),
{
    mask & get_clean_mask(numlock_mask)
}

/// The two masks agree but for the lock keys.
pub fn are_masks_equal(numlock_mask: u32, rhs: u32, lhs: u32) -> (r: bool)
    ensures
        r == (rhs & clean_mask_of(numlock_mask) == lhs & clean_mask_of(numlock_mask)),
{
    let clean = get_clean_mask(numlock_mask);
    rhs & clean == lhs & clean
}

/// Caps Lock and Num Lock never make two masks differ.
pub proof fn lemma_lock_bits_ignored(numlock_mask: u32, mask: u32)
    ensures
        (mask | crate::backends::xlib::LOCK_MASK) & clean_mask_of(numlock_mask) == mask & clean_mask_of(numlock_mask),
        (mask | numlock_mask) & clean_mask_of(numlock_mask) == mask & clean_mask_of(numlock_mask),
{
    assert((1u32 | 4u32 | 8u32 | 16u32 | 32u32 | 64u32 | 128u32) == 253u32) by (bit_vector);
    assert((mask | 2u32) & (!(numlock_mask | 2u32) & 253u32) == mask & (!(numlock_mask | 2u32) & 253u32)) by (bit_vector);
    assert((mask | numlock_mask) & (!(numlock_mask | 2u32) & 253u32) == mask & (!(numlock_mask | 2u32) & 253u32))
        by (bit_vector);
}

} // verus!
