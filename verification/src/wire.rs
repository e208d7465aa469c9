//! Decoding of the state list that a toplevel configure event carries: an
//! array of 32-bit numbers in the byte order of the machine.

use vstd::prelude::*;
use wayrs_protocols::xdg_shell::xdg_toplevel;

verus! {

/// The number that four bytes spell with the least significant byte first.
pub open spec fn le_u32(b0: u8, b1: u8, b2: u8, b3: u8) -> int {
    b0 + b1 * 0x100 + b2 * 0x1_0000 + b3 * 0x100_0000
}

/// The number that four bytes spell with the most significant byte first.
pub open spec fn be_u32(b0: u8, b1: u8, b2: u8, b3: u8) -> int {
    b3 + b2 * 0x100 + b1 * 0x1_0000 + b0 * 0x100_0000
}

/// Whether `value` is what the `i`th whole group of four bytes spells in one
/// of the two byte orders.
pub open spec fn spells(bytes: Seq<u8>, i: int, value: u32) -> bool {
    ||| value == le_u32(bytes[4 * i], bytes[4 * i + 1], bytes[4 * i + 2], bytes[4 * i + 3])
    ||| value == be_u32(bytes[4 * i], bytes[4 * i + 1], bytes[4 * i + 2], bytes[4 * i + 3])
}

/// Whether `states` holds, in order, what each whole group of four bytes
/// spells in one of the two byte orders.
pub open spec fn decodes(bytes: Seq<u8>, states: Seq<u32>) -> bool {
    &&& states.len() == bytes.len() / 4
    &&& forall|i: int| 0 <= i < states.len() ==> spells(bytes, i, #[trigger] states[i])
}

/// `u32::from_ne_bytes` of std: the number that the four bytes spell in the
/// byte order of the machine, which is one of the two orders there are.
#[verifier::external_body]
fn u32_from_ne_bytes(b0: u8, b1: u8, b2: u8, b3: u8) -> (r: u32)
    ensures
        r == le_u32(b0, b1, b2, b3) || r == be_u32(b0, b1, b2, b3),
{
    u32::from_ne_bytes([b0, b1, b2, b3])
}

/// `xdg_toplevel::State::try_from` of wayrs-protocols, asked whether it yields
/// the `Fullscreen` variant: it does for the number 2 and for no other.
#[verifier::external_body]
fn is_fullscreen_state(value: u32) -> (r: bool)
    ensures
        r == (value == 2),
{
    matches!(xdg_toplevel::State::try_from(value), Ok(xdg_toplevel::State::Fullscreen))
}

/// The numbers of a state list: one for each whole group of four bytes, in
/// order. Bytes after the last whole group are ignored.
pub fn decode_states(bytes: &[u8]) -> (states: Vec<u32>)
    ensures
        decodes(bytes@, states@),
{
    let n: usize = bytes.len() / 4;
    let mut states: Vec<u32> = Vec::new();
    let mut i: usize = 0;
    while i < n
        invariant
            n == bytes.len() / 4,
            i <= n,
            states.len() == i,
            forall|k: int| 0 <= k < i ==> spells(bytes@, k, #[trigger] states[k]),
        decreases n - i,
    {
        let v: u32 = u32_from_ne_bytes(bytes[4 * i], bytes[4 * i + 1], bytes[4 * i + 2], bytes[4 * i + 3]);
        states.push(v);
        i += 1;
    }
    states
}

/// Whether a decoded state list names the fullscreen state.
pub fn has_fullscreen(states: &Vec<u32>) -> (r: bool)
    ensures
        r == states@.contains(2u32),
{
    let mut i: usize = 0;
    while i < states.len()
        invariant
            i <= states.len(),
            forall|k: int| 0 <= k < i ==> states[k] != 2,
        decreases states.len() - i,
    {
        if is_fullscreen_state(states[i]) {
            return true;
        }
        i += 1;
    }
    false
}

} // verus!
