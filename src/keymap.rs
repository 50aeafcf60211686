use vstd::prelude::*;

verus! {

/// The pad key that a keyboard character stands for, in the usual layout
/// where the left four columns of a QWERTY keyboard form the 4x4 pad:
///
/// ```text
/// 1 2 3 4      1 2 3 C
/// q w e r      4 5 6 D
/// a s d f  ->  7 8 9 E
/// z x c v      A 0 B F
/// ```
pub open spec fn pad_key_of(c: char) -> Option<u8> {
    match c {
        '1' => Some(0x1u8),
        '2' => Some(0x2u8),
        '3' => Some(0x3u8),
        '4' => Some(0xCu8),
        'q' => Some(0x4u8),
        'w' => Some(0x5u8),
        'e' => Some(0x6u8),
        'r' => Some(0xDu8),
        'a' => Some(0x7u8),
        's' => Some(0x8u8),
        'd' => Some(0x9u8),
        'f' => Some(0xEu8),
        'z' => Some(0xAu8),
        'x' => Some(0x0u8),
        'c' => Some(0xBu8),
        'v' => Some(0xFu8),
        _ => None,
    }
}

/// The pad key bound to character `c`, or `None` for an unbound character.
pub fn pad_key(c: char) -> (r: Option<u8>)
    ensures
        r == pad_key_of(c),
        r matches Some(k) ==> k < 16,
{
    match c {
        '1' => Some(0x1),
        '2' => Some(0x2),
        '3' => Some(0x3),
        '4' => Some(0xC),
        'q' => Some(0x4),
        'w' => Some(0x5),
        'e' => Some(0x6),
        'r' => Some(0xD),
        'a' => Some(0x7),
        's' => Some(0x8),
        'd' => Some(0x9),
        'f' => Some(0xE),
        'z' => Some(0xA),
        'x' => Some(0x0),
        'c' => Some(0xB),
        'v' => Some(0xF),
        _ => None,
    }
}

} // verus!
