use vstd::prelude::*;

verus! {

/// The keyboard key for each key of the pad, by its character code. The pad
/// is laid out on the keyboard as
///
/// ```text
/// 1 2 3 C        1 2 3 4
/// 4 5 6 D   on   q w e r
/// 7 8 9 E        a s d f
/// A 0 B F        z x c v
/// ```
pub const KEYBOARD_KEYS: [i32; 16] = [
    0x78, 0x31, 0x32, 0x33,
    0x71, 0x77, 0x65, 0x61,
    0x73, 0x64, 0x7A, 0x63,
    0x34, 0x72, 0x66, 0x76,
];

/// Finds the key of the pad that the keyboard key with the character code
/// `code` stands for, if it stands for one.
pub fn keypress_to_button_code(code: i32) -> (button: Option<usize>)
    ensures
        match button {
            Some(b) => b < 16 && KEYBOARD_KEYS@[b as int] == code,
            None => forall|b: int| 0 <= b < 16 ==> KEYBOARD_KEYS@[b] != code,
        },
{
    let mut b: usize = 0;
    while b < 16
        invariant
            b <= 16,
            forall|k: int| 0 <= k < b ==> KEYBOARD_KEYS@[k] != code,
        decreases 16 - b,
    {
        if KEYBOARD_KEYS[b] == code {
            return Some(b);
        }
        b = b + 1;
    }
    None
}

/// No two keys of the pad share a keyboard key, so a keyboard key stands for
/// at most one of them.
pub proof fn lemma_keyboard_keys_distinct(a: int, b: int)
    requires
        0 <= a < 16,
        0 <= b < 16,
        KEYBOARD_KEYS@[a] == KEYBOARD_KEYS@[b],
    ensures
        a == b,
{
}

} // verus!
