//! The text of a hexadecimal listing of memory.

use crate::hex::{hex_byte, hex_digits};
use vstd::prelude::*;

verus! {

/// The bytes as text: two hexadecimal digits and a space for each.
pub open spec fn hex_cells(bytes: Seq<u8>) -> Seq<char>
    decreases bytes.len(),
{
    if bytes.len() == 0 {
        Seq::empty()
    } else {
        hex_cells(bytes.drop_last()) + hex_byte(bytes.last()) + " "@
    }
}

/// One line of a memory listing: the address `at` in hexadecimal after
/// `0x`, a colon and a tab, then the bytes from `at` on, `width` of them or
/// as many as the memory still holds.
pub open spec fn dump_line(mem: Seq<u8>, at: int, width: int) -> Seq<char> {
    let stop = if at + width <= mem.len() {
        at + width
    } else {
        mem.len() as int
    };
    "0x"@ + hex_digits(at as nat) + ":\t"@ + hex_cells(mem.subrange(at, stop))
}

/// The lines of a memory listing from address `at` on: one line for each
/// `width` bytes, the last line shorter where the memory ends before it is
/// full.
pub open spec fn dump_text(mem: Seq<u8>, at: int, width: int) -> Seq<Seq<char>>
    decreases
        if at < mem.len() {
            mem.len() - at
        } else {
            0
        },
{
    if width <= 0 || at < 0 || at >= mem.len() {
        Seq::empty()
    } else {
        seq![dump_line(mem, at, width)] + dump_text(mem, at + width, width)
    }
}

/// The number of bytes on a line of a listing: 8 unless the caller chose.
pub open spec fn dump_width(lim: Option<usize>) -> int {
    match lim {
        Some(width) => width as int,
        None => 8,
    }
}

} // verus!
