use vstd::prelude::*;

verus! {

/// How a byte is shown in the character column of a memory dump: printable
/// ASCII as itself, anything else as a dot.
pub open spec fn shown_char(byte: u8) -> char {
    if 32 <= byte < 126 {
        byte as char
    } else {
        '.'
    }
}

/// The character shown for `byte` in a memory dump.
pub fn byte_to_ascii(byte: u8) -> (r: char)
    ensures
        r == shown_char(byte),
{
    if 32 <= byte && byte < 126 {
        byte as char
    } else {
        '.'
    }
}

/// The addresses `[start, end)` of program memory shown around the program
/// counter: `half_window` bytes before it, the byte at it and `half_window`
/// after it, cut to `[0, flash_len)`.
pub fn get_memory_window_boundary(pc: u16, half_window: usize, flash_len: usize) -> (r: (
    usize,
    usize,
))
    ensures
        r.0 == if pc >= half_window {
            pc - half_window
        } else {
            0
        },
        r.1 == if pc + half_window + 1 <= flash_len {
            pc + half_window + 1
        } else {
            flash_len as int
        },
{
    let pc = pc as usize;
    let start = if pc >= half_window {
        pc - half_window
    } else {
        0
    };
    let end = if half_window < flash_len && pc < flash_len - half_window {
        pc + half_window + 1
    } else {
        flash_len
    };
    (start, end)
}

} // verus!
