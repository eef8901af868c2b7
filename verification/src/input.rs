//! The number that the user types while a menu waits for one.

use vstd::prelude::*;

verus! {

/// The digit that a character stands for, if it is one of `0` to `9`.
pub open spec fn digit_of(c: char) -> Option<int> {
    if '0' as int <= c as int <= '9' as int {
        Some(c as int - '0' as int)
    } else {
        None
    }
}

/// The number typed so far. A character that is no digit spoils the input
/// for good: it stays malformed until it is dropped.
#[derive(Clone, Copy, Debug, PartialEq, Eq, Structural)]
pub struct NumericInput {
    /// The digits typed so far, read as a decimal number.
    pub value: u32,
    /// Whether a character that is no digit was typed.
    pub malformed: bool,
}

impl NumericInput {
    /// The input before anything was typed: well-formed, and zero.
    pub open spec fn empty() -> NumericInput {
        NumericInput { value: 0, malformed: false }
    }

    /// The input after `c` was typed. A digit is appended to the number,
    /// which stops growing at the largest number of bytes a request can
    /// name; any other character makes the input malformed.
    pub open spec fn appended(self, c: char) -> NumericInput {
        match digit_of(c) {
            Some(d) => NumericInput {
                value: if self.value * 10 + d > i32::MAX {
                    i32::MAX as u32
                } else {
                    (self.value * 10 + d) as u32
                },
                ..self
            },
            None => NumericInput { malformed: true, ..self },
        }
    }

    /// The input after the last digit was taken back.
    pub open spec fn shortened(self) -> NumericInput {
        NumericInput { value: self.value / 10, ..self }
    }

    /// The number of bytes that the input names, or nothing where it is
    /// malformed.
    pub open spec fn amount(self) -> Option<i32> {
        if self.malformed {
            None
        } else if self.value > i32::MAX {
            Some(i32::MAX)
        } else {
            Some(self.value as i32)
        }
    }

    /// Starts an input.
    pub fn new() -> (input: NumericInput)
        ensures
            input == NumericInput::empty(),
    {
        NumericInput { value: 0, malformed: false }
    }

    /// Takes the character `c` into the input.
    pub fn push(&mut self, c: char)
        ensures
            *final(self) == old(self).appended(c),
    {
        let code: u32 = c as u32;
        if 48 <= code && code <= 57 {
            let digit: u64 = (code - 48) as u64;
            let wide: u64 = self.value as u64 * 10 + digit;
            if wide > i32::MAX as u64 {
                self.value = i32::MAX as u32;
            } else {
                self.value = wide as u32;
            }
        } else {
            self.malformed = true;
        }
    }

    /// Takes the last digit back.
    pub fn backspace(&mut self)
        ensures
            *final(self) == old(self).shortened(),
    {
        self.value = self.value / 10;
    }

    /// Reads the input as a number of bytes.
    pub fn read(&self) -> (n: Option<i32>)
        ensures
            n == self.amount(),
    {
        if self.malformed {
            None
        } else if self.value > i32::MAX as u32 {
            Some(i32::MAX)
        } else {
            Some(self.value as i32)
        }
    }
}

} // verus!
