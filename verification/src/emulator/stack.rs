//! The call stack: at most sixteen return addresses, last in, first out.
//!
//! The stack's view is the sequence of its live entries, bottom first.

use crate::error::{EmulatorError, Result};
use crate::text::{decimal_text, hex_text, push_decimal, push_hex};
use vstd::prelude::*;
use vstd::slice::slice_subrange;
use vstd::std_specs::slice::{axiom_spec_slice_iter, into_iter_elts};
use vstd::string::StringExecFns;

verus! {

/// Greatest number of entries.
pub const STACK_SIZE: usize = 16;

/// The entries of a stack in hexadecimal, bottom first, with an arrow
/// between neighbours.
pub open spec fn entries_text(entries: Seq<u16>) -> Seq<char>
    decreases entries.len(),
{
    if entries.len() == 0 {
        Seq::empty()
    } else if entries.len() == 1 {
        hex_text(entries[0] as nat)
    } else {
        entries_text(entries.drop_last()) + " -> "@ + hex_text(entries.last() as nat)
    }
}

/// What a dump of a stack with these entries reads.
pub open spec fn dump_text(entries: Seq<u16>) -> Seq<char> {
    if entries.len() == 0 {
        "Stack: [empty]"@
    } else {
        "Stack (depth "@ + decimal_text(entries.len()) + "): "@ + entries_text(entries)
            + " (top)"@
    }
}

/// The call stack.
pub struct Stack {
    data: [u16; STACK_SIZE],
    sp: usize,
}

impl View for Stack {
    type V = Seq<u16>;

    closed spec fn view(&self) -> Seq<u16> {
        self.data@.subrange(0, self.sp as int)
    }
}

impl Stack {
    #[verifier::type_invariant]
    spec fn well_formed(&self) -> bool {
        self.sp <= 16
    }

    /// Creates an empty stack.
    pub fn new() -> (stack: Self)
        ensures
            stack@ == Seq::<u16>::empty(),
    {
        let stack = Self { data: [0;STACK_SIZE], sp: 0 };
        assert(stack@ =~= Seq::<u16>::empty());
        stack
    }

    /// Empties the stack.
    pub fn reset(&mut self)
        ensures
            final(self)@ == Seq::<u16>::empty(),
    {
        self.sp = 0;
        self.data = [0;STACK_SIZE];
        assert(self@ =~= Seq::<u16>::empty());
    }

    /// Puts `value` on top. A full stack refuses and stays as it is.
    pub fn push(&mut self, value: u16) -> (result: Result<()>)
        ensures
            old(self)@.len() < 16 ==> result == Ok::<(), EmulatorError>(()) && final(self)@ == old(
                self,
            )@.push(value),
            old(self)@.len() >= 16 ==> result == Err::<(), EmulatorError>(
                EmulatorError::StackOverflow,
            ) && final(self)@ == old(self)@,
    {
        proof {
            use_type_invariant(&*self);
        }
        if self.sp >= STACK_SIZE {
            return Err(EmulatorError::StackOverflow);
        }
        self.data[self.sp] = value;
        self.sp += 1;
        assert(self@ =~= old(self)@.push(value));
        Ok(())
    }

    /// Takes the top entry off. An empty stack refuses.
    pub fn pop(&mut self) -> (result: Result<u16>)
        ensures
            old(self)@.len() > 0 ==> result == Ok::<u16, EmulatorError>(old(self)@.last())
                && final(self)@ == old(self)@.drop_last(),
            old(self)@.len() == 0 ==> result == Err::<u16, EmulatorError>(
                EmulatorError::StackUnderflow,
            ) && final(self)@ == old(self)@,
    {
        proof {
            use_type_invariant(&*self);
        }
        if self.sp == 0 {
            return Err(EmulatorError::StackUnderflow);
        }
        self.sp -= 1;
        let value = self.data[self.sp];
        self.data[self.sp] = 0;
        assert(self@ =~= old(self)@.drop_last());
        Ok(value)
    }

    /// The top entry, which stays where it is. An empty stack refuses.
    pub fn peek(&self) -> (result: Result<u16>)
        ensures
            self@.len() > 0 ==> result == Ok::<u16, EmulatorError>(self@.last()),
            self@.len() == 0 ==> result == Err::<u16, EmulatorError>(
                EmulatorError::StackUnderflow,
            ),
    {
        proof {
            use_type_invariant(self);
        }
        if self.sp == 0 {
            return Err(EmulatorError::StackUnderflow);
        }
        Ok(self.data[self.sp - 1])
    }

    /// Number of entries.
    pub fn depth(&self) -> (depth: usize)
        ensures
            depth == self@.len(),
            depth <= 16,
    {
        proof {
            use_type_invariant(self);
        }
        self.sp
    }

    /// Whether the stack holds nothing.
    pub fn is_empty(&self) -> (empty: bool)
        ensures
            empty == (self@.len() == 0),
    {
        proof {
            use_type_invariant(self);
        }
        self.sp == 0
    }

    /// Whether the stack holds `STACK_SIZE` entries.
    pub fn is_full(&self) -> (full: bool)
        ensures
            full == (self@.len() == 16),
    {
        proof {
            use_type_invariant(self);
        }
        self.sp >= STACK_SIZE
    }

    /// Number of entries that can still be pushed.
    pub fn remaining_capacity(&self) -> (capacity: usize)
        ensures
            capacity == 16 - self@.len(),
    {
        proof {
            use_type_invariant(self);
        }
        STACK_SIZE - self.sp
    }

    /// A copy of the entries, bottom first.
    pub fn get_contents(&self) -> (contents: Vec<u16>)
        ensures
            contents@ == self@,
    {
        proof {
            use_type_invariant(self);
        }
        let mut contents: Vec<u16> = Vec::new();
        let mut k: usize = 0;
        while k < self.sp
            invariant
                k <= self.sp <= 16,
                contents@ == self.data@.subrange(0, k as int),
            decreases self.sp - k,
        {
            contents.push(self.data[k]);
            k += 1;
            assert(contents@ =~= self.data@.subrange(0, k as int));
        }
        contents
    }

    /// The entries as a slice, bottom first.
    pub fn as_slice(&self) -> (entries: &[u16])
        ensures
            entries@ == self@,
    {
        proof {
            use_type_invariant(self);
        }
        slice_subrange(self.data.as_slice(), 0, self.sp)
    }

    /// Replaces the entries by `values`, bottom first. More than
    /// `STACK_SIZE` values are refused and leave the stack as it is.
    pub fn load_values(&mut self, values: &[u16]) -> (result: Result<()>)
        ensures
            values@.len() <= 16 ==> result == Ok::<(), EmulatorError>(()) && final(self)@
                == values@,
            values@.len() > 16 ==> result == Err::<(), EmulatorError>(
                EmulatorError::StackOverflow,
            ) && final(self)@ == old(self)@,
    {
        if values.len() > STACK_SIZE {
            return Err(EmulatorError::StackOverflow);
        }
        self.reset();
        let mut k: usize = 0;
        while k < values.len()
            invariant
                k <= values@.len() <= 16,
                self@ == values@.subrange(0, k as int),
            decreases values@.len() - k,
        {
            let pushed = self.push(values[k]);
            assert(pushed is Ok);
            k += 1;
            assert(self@ =~= values@.subrange(0, k as int));
        }
        assert(self@ =~= values@);
        Ok(())
    }

    /// The deepest the stack is known to have been, which is its present
    /// depth: no history is kept.
    pub fn max_depth_reached(&self) -> (depth: usize)
        ensures
            depth == self@.len(),
    {
        proof {
            use_type_invariant(self);
        }
        self.sp
    }

    /// The stack as a line of text for debugging: its depth and its
    /// entries, bottom first.
    pub fn dump(&self) -> (text: String)
        ensures
            text@ == dump_text(self@),
    {
        proof {
            use_type_invariant(self);
        }
        if self.sp == 0 {
            return String::from_str("Stack: [empty]");
        }
        let mut text = String::from_str("Stack (depth ");
        push_decimal(&mut text, self.sp as u64);
        text.append("): ");
        let ghost head = text@;
        let mut k: usize = 0;
        while k < self.sp
            invariant
                k <= self.sp <= 16,
                text@ == head + entries_text(self.data@.subrange(0, k as int)),
            decreases self.sp - k,
        {
            let ghost before = self.data@.subrange(0, k as int);
            let ghost now = self.data@.subrange(0, k + 1);
            proof {
                assert(now.drop_last() =~= before);
                assert(now.last() == self.data@[k as int]);
            }
            if k > 0 {
                text.append(" -> ");
            }
            push_hex(&mut text, self.data[k]);
            proof {
                if k == 0 {
                    assert(entries_text(before) =~= Seq::<char>::empty());
                    assert(now[0] == self.data@[0]);
                }
                assert(text@ =~= head + entries_text(now));
            }
            k += 1;
        }
        text.append(" (top)");
        assert(text@ =~= dump_text(self@));
        text
    }
}

impl<'a> IntoIterator for &'a Stack {
    type Item = &'a u16;

    type IntoIter = std::slice::Iter<'a, u16>;

    /// Walks the entries, bottom first.
    fn into_iter(self) -> (entries: std::slice::Iter<'a, u16>)
        ensures
            into_iter_elts(entries) == self@,
    {
        let slice = self.as_slice();
        let entries = slice.iter();
        proof {
            axiom_spec_slice_iter(slice);
            assert(into_iter_elts(entries) =~= slice@);
        }
        entries
    }
}

impl Default for Stack {
    fn default() -> (stack: Self)
        ensures
            stack@ == Seq::<u16>::empty(),
    {
        Self::new()
    }
}

} // verus!
