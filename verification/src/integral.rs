//! The integer types whose values a counter can carry.
use vstd::prelude::*;
use crate::decimal::{push_decimal, push_signed_decimal, signed_decimal_text};

verus! {

/// An integer of one of the machine's widths, signed or unsigned.
pub trait Integral {
    /// The number that the value stands for.
    spec fn value(&self) -> int;

    /// Appends the decimal text of the value to `buf`.
    fn push_text(&self, buf: &mut String)
        ensures
            final(buf)@ == old(buf)@ + signed_decimal_text(self.value()),
    ;
}

impl Integral for u8 {
    open spec fn value(&self) -> int {
        *self as int
    }

    fn push_text(&self, buf: &mut String) {
        push_decimal(buf, *self as u128);
    }
}

impl Integral for u16 {
    open spec fn value(&self) -> int {
        *self as int
    }

    fn push_text(&self, buf: &mut String) {
        push_decimal(buf, *self as u128);
    }
}

impl Integral for u32 {
    open spec fn value(&self) -> int {
        *self as int
    }

    fn push_text(&self, buf: &mut String) {
        push_decimal(buf, *self as u128);
    }
}

impl Integral for u64 {
    open spec fn value(&self) -> int {
        *self as int
    }

    fn push_text(&self, buf: &mut String) {
        push_decimal(buf, *self as u128);
    }
}

impl Integral for u128 {
    open spec fn value(&self) -> int {
        *self as int
    }

    fn push_text(&self, buf: &mut String) {
        push_decimal(buf, *self);
    }
}

impl Integral for usize {
    open spec fn value(&self) -> int {
        *self as int
    }

    fn push_text(&self, buf: &mut String) {
        push_decimal(buf, *self as u128);
    }
}

impl Integral for i8 {
    open spec fn value(&self) -> int {
        *self as int
    }

    fn push_text(&self, buf: &mut String) {
        push_signed_decimal(buf, *self as i128);
    }
}

impl Integral for i16 {
    open spec fn value(&self) -> int {
        *self as int
    }

    fn push_text(&self, buf: &mut String) {
        push_signed_decimal(buf, *self as i128);
    }
}

impl Integral for i32 {
    open spec fn value(&self) -> int {
        *self as int
    }

    fn push_text(&self, buf: &mut String) {
        push_signed_decimal(buf, *self as i128);
    }
}

impl Integral for i64 {
    open spec fn value(&self) -> int {
        *self as int
    }

    fn push_text(&self, buf: &mut String) {
        push_signed_decimal(buf, *self as i128);
    }
}

impl Integral for i128 {
    open spec fn value(&self) -> int {
        *self as int
    }

    fn push_text(&self, buf: &mut String) {
        push_signed_decimal(buf, *self);
    }
}

impl Integral for isize {
    open spec fn value(&self) -> int {
        *self as int
    }

    fn push_text(&self, buf: &mut String) {
        push_signed_decimal(buf, *self as i128);
    }
}

} // verus!
