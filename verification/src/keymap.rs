//! Static key-code mapping between the host's native key codes and the
//! UI library's own key identifiers.
//!
//! The host delivers key events with a numeric key code. Only a fixed
//! finite set of keys has a UI-library equivalent; those go through
//! the table below, and every other code is silently dropped
//! (no error, no state change). Each supported key also owns a distinct
//! slot in the adapter's key-state table.

use vstd::prelude::*;

verus! {

/// Number of keys the UI library distinguishes; also the length of the
/// adapter's key-state table.
pub const KEY_COUNT: usize = 22;

/// The UI library's key identifiers, one per supported key.
#[derive(Clone, Copy, Debug, PartialEq, Eq, Structural)]
pub enum UiKey {
    Tab,
    LeftArrow,
    RightArrow,
    UpArrow,
    DownArrow,
    PageUp,
    PageDown,
    Home,
    End,
    Insert,
    Delete,
    Backspace,
    Space,
    Enter,
    Escape,
    KeyPadEnter,
    A,
    C,
    V,
    X,
    Y,
    Z,
}

/// The host's native key code for each supported key.
pub open spec fn spec_host_code(key: UiKey) -> u32 {
    match key {
        UiKey::Tab => 144,
        UiKey::LeftArrow => 70,
        UiKey::RightArrow => 72,
        UiKey::UpArrow => 71,
        UiKey::DownArrow => 73,
        UiKey::PageUp => 69,
        UiKey::PageDown => 68,
        UiKey::Home => 65,
        UiKey::End => 67,
        UiKey::Insert => 64,
        UiKey::Delete => 66,
        UiKey::Backspace => 74,
        UiKey::Space => 76,
        UiKey::Enter => 75,
        UiKey::Escape => 36,
        UiKey::KeyPadEnter => 126,
        UiKey::A => 10,
        UiKey::C => 12,
        UiKey::V => 31,
        UiKey::X => 33,
        UiKey::Y => 34,
        UiKey::Z => 35,
    }
}

/// The UI-library key identifier, if any, for a host key code; codes
/// outside the supported set map to `None` and are dropped.
pub open spec fn spec_ui_key_of(code: u32) -> Option<UiKey> {
    match code {
        144u32 => Some(UiKey::Tab),
        70u32 => Some(UiKey::LeftArrow),
        72u32 => Some(UiKey::RightArrow),
        71u32 => Some(UiKey::UpArrow),
        73u32 => Some(UiKey::DownArrow),
        69u32 => Some(UiKey::PageUp),
        68u32 => Some(UiKey::PageDown),
        65u32 => Some(UiKey::Home),
        67u32 => Some(UiKey::End),
        64u32 => Some(UiKey::Insert),
        66u32 => Some(UiKey::Delete),
        74u32 => Some(UiKey::Backspace),
        76u32 => Some(UiKey::Space),
        75u32 => Some(UiKey::Enter),
        36u32 => Some(UiKey::Escape),
        126u32 => Some(UiKey::KeyPadEnter),
        10u32 => Some(UiKey::A),
        12u32 => Some(UiKey::C),
        31u32 => Some(UiKey::V),
        33u32 => Some(UiKey::X),
        34u32 => Some(UiKey::Y),
        35u32 => Some(UiKey::Z),
        _ => None,
    }
}

/// The slot each supported key owns in the adapter's key-state table.
pub open spec fn spec_key_slot(key: UiKey) -> int {
    match key {
        UiKey::Tab => 0,
        UiKey::LeftArrow => 1,
        UiKey::RightArrow => 2,
        UiKey::UpArrow => 3,
        UiKey::DownArrow => 4,
        UiKey::PageUp => 5,
        UiKey::PageDown => 6,
        UiKey::Home => 7,
        UiKey::End => 8,
        UiKey::Insert => 9,
        UiKey::Delete => 10,
        UiKey::Backspace => 11,
        UiKey::Space => 12,
        UiKey::Enter => 13,
        UiKey::Escape => 14,
        UiKey::KeyPadEnter => 15,
        UiKey::A => 16,
        UiKey::C => 17,
        UiKey::V => 18,
        UiKey::X => 19,
        UiKey::Y => 20,
        UiKey::Z => 21,
    }
}

/// The key-state slot, if any, that a host key code addresses.
pub open spec fn spec_slot_of(code: u32) -> Option<usize> {
    match spec_ui_key_of(code) {
        Some(key) => Some(spec_key_slot(key) as usize),
        None => None,
    }
}

/// Look up the UI library's key identifier for a host key code.
pub fn ui_key_of(code: u32) -> (key: Option<UiKey>)
    ensures
        key == spec_ui_key_of(code),
{
    match code {
        144u32 => Some(UiKey::Tab),
        70u32 => Some(UiKey::LeftArrow),
        72u32 => Some(UiKey::RightArrow),
        71u32 => Some(UiKey::UpArrow),
        73u32 => Some(UiKey::DownArrow),
        69u32 => Some(UiKey::PageUp),
        68u32 => Some(UiKey::PageDown),
        65u32 => Some(UiKey::Home),
        67u32 => Some(UiKey::End),
        64u32 => Some(UiKey::Insert),
        66u32 => Some(UiKey::Delete),
        74u32 => Some(UiKey::Backspace),
        76u32 => Some(UiKey::Space),
        75u32 => Some(UiKey::Enter),
        36u32 => Some(UiKey::Escape),
        126u32 => Some(UiKey::KeyPadEnter),
        10u32 => Some(UiKey::A),
        12u32 => Some(UiKey::C),
        31u32 => Some(UiKey::V),
        33u32 => Some(UiKey::X),
        34u32 => Some(UiKey::Y),
        35u32 => Some(UiKey::Z),
        _ => None,
    }
}

/// The host's native key code for a supported key, for wiring the UI
/// library's key map at renderer initialization.
pub fn host_code_of(key: UiKey) -> (code: u32)
    ensures
        code == spec_host_code(key),
{
    match key {
        UiKey::Tab => 144,
        UiKey::LeftArrow => 70,
        UiKey::RightArrow => 72,
        UiKey::UpArrow => 71,
        UiKey::DownArrow => 73,
        UiKey::PageUp => 69,
        UiKey::PageDown => 68,
        UiKey::Home => 65,
        UiKey::End => 67,
        UiKey::Insert => 64,
        UiKey::Delete => 66,
        UiKey::Backspace => 74,
        UiKey::Space => 76,
        UiKey::Enter => 75,
        UiKey::Escape => 36,
        UiKey::KeyPadEnter => 126,
        UiKey::A => 10,
        UiKey::C => 12,
        UiKey::V => 31,
        UiKey::X => 33,
        UiKey::Y => 34,
        UiKey::Z => 35,
    }
}

/// The key-state slot a supported key owns.
pub fn key_slot(key: UiKey) -> (slot: usize)
    ensures
        slot as int == spec_key_slot(key),
        slot < KEY_COUNT,
{
    match key {
        UiKey::Tab => 0,
        UiKey::LeftArrow => 1,
        UiKey::RightArrow => 2,
        UiKey::UpArrow => 3,
        UiKey::DownArrow => 4,
        UiKey::PageUp => 5,
        UiKey::PageDown => 6,
        UiKey::Home => 7,
        UiKey::End => 8,
        UiKey::Insert => 9,
        UiKey::Delete => 10,
        UiKey::Backspace => 11,
        UiKey::Space => 12,
        UiKey::Enter => 13,
        UiKey::Escape => 14,
        UiKey::KeyPadEnter => 15,
        UiKey::A => 16,
        UiKey::C => 17,
        UiKey::V => 18,
        UiKey::X => 19,
        UiKey::Y => 20,
        UiKey::Z => 21,
    }
}

/// Law: every supported key owns a slot inside the key-state table.
pub proof fn lemma_key_slot_in_range(key: UiKey)
    ensures
        0 <= spec_key_slot(key) < KEY_COUNT as int,
{
}

/// Law: distinct keys own distinct slots in the key-state table.
pub proof fn lemma_key_slots_distinct(a: UiKey, b: UiKey)
    requires
        a != b,
    ensures
        spec_key_slot(a) != spec_key_slot(b),
{
}

/// Law: the host code assigned to each supported key maps back to
/// exactly that key, so the two directions of the table agree.
pub proof fn lemma_host_code_maps_back(key: UiKey)
    ensures
        spec_ui_key_of(spec_host_code(key)) == Some(key),
{
}

/// Law: distinct keys are reported to the host under distinct codes.
pub proof fn lemma_host_codes_distinct(a: UiKey, b: UiKey)
    requires
        a != b,
    ensures
        spec_host_code(a) != spec_host_code(b),
{
    lemma_host_code_maps_back(a);
    lemma_host_code_maps_back(b);
}

} // verus!
