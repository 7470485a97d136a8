//! Bringing the heap up at boot, the line that reports it, and the errors
//! that end the boot.

use vstd::prelude::*;
use vstd::string::StringExecFns;

use crate::allocator::BumpAllocator;
use crate::selector::HeapArea;

verus! {

/// An error from which the kernel cannot recover: it reports the message and
/// halts.
#[derive(Clone, Copy, Debug, PartialEq, Eq, Structural)]
pub enum FatalError {
    /// The loader gave no memory map, or no region of it can hold the heap.
    NoHeapRegion,
    /// A request did not fit into what is left of the arena.
    OutOfMemory,
}

impl FatalError {
    /// The message that reports the error.
    pub open spec fn text(self) -> Seq<char> {
        match self {
            FatalError::NoHeapRegion => "No suitable mapped heap region found"@,
            FatalError::OutOfMemory => "Out of memory in bump allocator"@,
        }
    }

    /// The message that reports the error.
    pub fn message(&self) -> (message: &'static str)
        ensures
            message@ == self.text(),
    {
        match self {
            FatalError::NoHeapRegion => "No suitable mapped heap region found",
            FatalError::OutOfMemory => "Out of memory in bump allocator",
        }
    }
}

/// The error that follows when a request of `size` bytes at a multiple of
/// `align` could not be served: whatever was asked for, the arena is
/// exhausted and the kernel cannot go on.
pub fn oom(size: usize, align: usize) -> (error: FatalError)
    ensures
        error == FatalError::OutOfMemory,
{
    FatalError::OutOfMemory
}

/// Sets the allocator up on the arena that selection chose. Without an arena
/// there is no heap, and the boot ends.
pub fn init_heap(choice: Option<HeapArea>) -> (r: Result<BumpAllocator, FatalError>)
    requires
        choice matches Some(area) ==> area.addressable(),
    ensures
        match r {
            Ok(allocator) => allocator.wf() && choice == Some(allocator.arena()),
            Err(error) => choice is None && error == FatalError::NoHeapRegion,
        },
{
    match choice {
        Some(area) => Ok(BumpAllocator::new(area)),
        None => Err(FatalError::NoHeapRegion),
    }
}

/// The character of one hexadecimal digit, in lower case.
pub open spec fn hex_char(digit: nat) -> char {
    if digit < 10 {
        (('0' as u8) + digit) as char
    } else {
        (('a' as u8) + digit - 10) as char
    }
}

/// The hexadecimal digits of `value`, most significant first, without
/// leading zeros.
pub open spec fn hex_digits(value: nat) -> Seq<char>
    decreases value,
{
    if value < 16 {
        seq![hex_char(value)]
    } else {
        hex_digits(value / 16).push(hex_char(value % 16))
    }
}

/// The line that reports the heap: `heap at 0x<base>, size 0x<size>`, both
/// numbers in hexadecimal.
pub open spec fn status_text(area: HeapArea) -> Seq<char> {
    "heap at 0x"@ + hex_digits(area.base as nat) + ", size 0x"@ + hex_digits(area.size as nat)
}

fn hex_digit_str(digit: usize) -> (s: &'static str)
    requires
        digit < 16,
    ensures
        s@ == seq![hex_char(digit as nat)],
{
    proof {
        reveal_strlit("0");
        reveal_strlit("1");
        reveal_strlit("2");
        reveal_strlit("3");
        reveal_strlit("4");
        reveal_strlit("5");
        reveal_strlit("6");
        reveal_strlit("7");
        reveal_strlit("8");
        reveal_strlit("9");
        reveal_strlit("a");
        reveal_strlit("b");
        reveal_strlit("c");
        reveal_strlit("d");
        reveal_strlit("e");
        reveal_strlit("f");
    }
    match digit {
        0 => "0",
        1 => "1",
        2 => "2",
        3 => "3",
        4 => "4",
        5 => "5",
        6 => "6",
        7 => "7",
        8 => "8",
        9 => "9",
        10 => "a",
        11 => "b",
        12 => "c",
        13 => "d",
        14 => "e",
        _ => "f",
    }
}

fn push_hex(line: &mut String, value: usize)
    ensures
        final(line)@ == old(line)@ + hex_digits(value as nat),
    decreases value,
{
    if value >= 16 {
        push_hex(line, value / 16);
    }
    line.append(hex_digit_str(value % 16));
}

/// The line that reports where the heap lies.
pub fn status_line(area: &HeapArea) -> (line: String)
    ensures
        line@ == status_text(*area),
{
    let mut line = String::from_str("heap at 0x");
    push_hex(&mut line, area.base);
    line.append(", size 0x");
    push_hex(&mut line, area.size);
    line
}

} // verus!
