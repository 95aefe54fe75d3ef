use vstd::prelude::*;

verus! {

/// The injection delimiters that send a request to the keyword scan:
/// the bytes of ``'"<>/\-;{}$#`=(),*%+|&[]``.
pub open spec fn spec_is_risky_byte(b: u8) -> bool {
    ||| b == 0x27 // '
    ||| b == 0x22 // "
    ||| b == 0x3c // <
    ||| b == 0x3e // >
    ||| b == 0x2f // /
    ||| b == 0x5c // \
    ||| b == 0x2d // -
    ||| b == 0x3b // ;
    ||| b == 0x7b // {
    ||| b == 0x7d // }
    ||| b == 0x24 // $
    ||| b == 0x23 // #
    ||| b == 0x60 // `
    ||| b == 0x3d // =
    ||| b == 0x28 // (
    ||| b == 0x29 // )
    ||| b == 0x2c // ,
    ||| b == 0x2a // *
    ||| b == 0x25 // %
    ||| b == 0x2b // +
    ||| b == 0x7c // |
    ||| b == 0x26 // &
    ||| b == 0x5b // [
    ||| b == 0x5d // ]
}

/// A byte string holds at least one injection delimiter.
pub open spec fn spec_has_risky(s: Seq<u8>) -> bool {
    exists|i: int| 0 <= i < s.len() && #[trigger] spec_is_risky_byte(s[i])
}

/// The delimiter table: whether one byte is an injection delimiter.
pub fn is_risky_byte(b: u8) -> (r: bool)
    ensures
        r == spec_is_risky_byte(b),
{
    match b {
        0x27 | 0x22 | 0x3c | 0x3e | 0x2f | 0x5c | 0x2d | 0x3b | 0x7b | 0x7d | 0x24 | 0x23
        | 0x60 | 0x3d | 0x28 | 0x29 | 0x2c | 0x2a | 0x25 | 0x2b | 0x7c | 0x26 | 0x5b
        | 0x5d => true,
        _ => false,
    }
}

/// Whether the payload holds any injection delimiter.
pub fn has_risky_characters(bytes: &[u8]) -> (r: bool)
    ensures
        r == spec_has_risky(bytes@),
{
    let n = bytes.len();
    let mut i: usize = 0;
    while i < n
        invariant
            n == bytes@.len(),
            0 <= i <= n,
            forall|j: int| 0 <= j < i ==> !spec_is_risky_byte(#[trigger] bytes@[j]),
        decreases n - i,
    {
        if is_risky_byte(bytes[i]) {
            return true;
        }
        i = i + 1;
    }
    false
}

} // verus!
