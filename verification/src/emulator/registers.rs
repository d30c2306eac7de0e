//! The register file: sixteen 8-bit registers `V0..VF`, the index register
//! `I`, the program counter and the stack-pointer shadow.
//!
//! `VF` doubles as the flag of the fused arithmetic operations. Each of
//! them writes its result first and the flag second, so with `VF` as the
//! destination the flag is what stays.

use crate::error::{EmulatorError, Result};
use vstd::arithmetic::div_mod::lemma_mod_multiples_vanish;
use vstd::prelude::*;
use vstd::slice::slice_subrange;

verus! {

/// Number of general-purpose registers.
pub const NUM_REGISTERS: usize = 16;

/// Index of the flag register `VF`.
pub const FLAG_REGISTER: usize = 0xF;

/// The register file as a mathematical value.
pub struct RegistersView {
    /// `V0..VF`; always sixteen entries.
    pub v: Seq<u8>,
    /// The index register.
    pub i: u16,
    /// The program counter.
    pub pc: u16,
    /// The stack-pointer shadow.
    pub sp: u8,
}

impl RegistersView {
    /// The register file of a machine that was just created or reset.
    pub open spec fn initial() -> RegistersView {
        RegistersView { v: Seq::new(16, |k: int| 0u8), i: 0, pc: 0x200, sp: 0 }
    }

    /// This register file with `value` in `V[index]`.
    pub open spec fn with_v(self, index: int, value: u8) -> RegistersView {
        RegistersView { v: self.v.update(index, value), ..self }
    }

    /// This register file with `value` in `VF`.
    pub open spec fn with_flag(self, value: u8) -> RegistersView {
        self.with_v(15, value)
    }

    /// This register file with the program counter at `value`.
    pub open spec fn with_pc(self, value: u16) -> RegistersView {
        RegistersView { pc: value, ..self }
    }

    /// This register file with the index register at `value`.
    pub open spec fn with_i(self, value: u16) -> RegistersView {
        RegistersView { i: value, ..self }
    }

    /// This register file with the program counter two bytes further,
    /// wrapping at the end of the 16-bit range.
    pub open spec fn advanced(self) -> RegistersView {
        self.with_pc(((self.pc + 2) % 0x10000) as u16)
    }

    /// `V[x] += V[y]` modulo 256; flag 1 on overflow, else 0.
    pub open spec fn add_with_carry(self, x: int, y: int) -> RegistersView {
        let sum = self.v[x] + self.v[y];
        self.with_v(x, (sum % 256) as u8).with_flag(
            if sum > 255 {
                1u8
            } else {
                0u8
            },
        )
    }

    /// `V[x] -= V[y]` modulo 256; flag 1 when no borrow occurred, else 0.
    pub open spec fn sub_with_borrow(self, x: int, y: int) -> RegistersView {
        let diff = self.v[x] - self.v[y];
        self.with_v(x, (diff % 256) as u8).with_flag(
            if diff < 0 {
                0u8
            } else {
                1u8
            },
        )
    }

    /// `V[x] = V[y] - V[x]` modulo 256; flag 1 when no borrow occurred,
    /// else 0.
    pub open spec fn sub_reverse_with_borrow(self, x: int, y: int) -> RegistersView {
        let diff = self.v[y] - self.v[x];
        self.with_v(x, (diff % 256) as u8).with_flag(
            if diff < 0 {
                0u8
            } else {
                1u8
            },
        )
    }

    /// `V[x]` halved; the flag takes the bit shifted out.
    pub open spec fn shift_right(self, x: int) -> RegistersView {
        self.with_v(x, (self.v[x] / 2) as u8).with_flag((self.v[x] % 2) as u8)
    }

    /// `V[x]` doubled modulo 256; the flag takes the bit shifted out.
    pub open spec fn shift_left(self, x: int) -> RegistersView {
        self.with_v(x, ((self.v[x] * 2) % 256) as u8).with_flag((self.v[x] / 128) as u8)
    }

    /// This register file with `values` in `V[start..start + values.len()]`.
    pub open spec fn with_v_range(self, start: int, values: Seq<u8>) -> RegistersView {
        RegistersView {
            v: Seq::new(
                16,
                |k: int|
                    if start <= k < start + values.len() {
                        values[k - start]
                    } else {
                        self.v[k]
                    },
            ),
            ..self
        }
    }
}

/// Law: result and flag of an addition together hold the sum. Unless the
/// destination is the flag register itself, the new `V[x]` plus 256 times
/// the flag is the sum of the old `V[x]` and `V[y]`, and the flag is 0 or
/// 1.
pub proof fn lemma_add_keeps_the_sum(registers: RegistersView, x: int, y: int)
    requires
        registers.v.len() == 16,
        0 <= x < 15,
        0 <= y < 16,
    ensures
        registers.add_with_carry(x, y).v[x] + 256 * registers.add_with_carry(x, y).v[15]
            == registers.v[x] + registers.v[y],
        registers.add_with_carry(x, y).v[15] <= 1,
{
}

/// Law: result and flag of a subtraction together hold the difference.
/// Unless the destination is the flag register itself, the new `V[x]`
/// minus 256 times the borrow is the old `V[x]` minus `V[y]`, where the
/// borrow is 1 exactly when the flag is 0.
pub proof fn lemma_sub_keeps_the_difference(registers: RegistersView, x: int, y: int)
    requires
        registers.v.len() == 16,
        0 <= x < 15,
        0 <= y < 16,
    ensures
        registers.sub_with_borrow(x, y).v[x] - 256 * (1 - registers.sub_with_borrow(x, y).v[15])
            == registers.v[x] - registers.v[y],
        registers.sub_with_borrow(x, y).v[15] == (if registers.v[x] >= registers.v[y] {
            1u8
        } else {
            0u8
        }),
{
}

/// Law: a shift to the right and a shift to the left lose no bit: the
/// flag holds the bit that left the register.
pub proof fn lemma_shifts_keep_the_bits(registers: RegistersView, x: int)
    requires
        registers.v.len() == 16,
        0 <= x < 15,
    ensures
        2 * registers.shift_right(x).v[x] + registers.shift_right(x).v[15] == registers.v[x],
        registers.shift_left(x).v[x] + 256 * registers.shift_left(x).v[15] == 2 * registers.v[x],
{
}

/// The index that a refused range reports: its last register's number,
/// cut to eight bits.
pub open spec fn range_error_index(start: int, count: int) -> u8 {
    ((start + count - 1) % 256) as u8
}

/// The index that a refused range reports.
fn range_error(start_index: u8, count: usize) -> (index: u8)
    ensures
        index == range_error_index(start_index as int, count as int),
{
    let low = (count % 256) as u16;
    let sum = start_index as u16 + low + 255;
    proof {
        let whole = (count / 256) as int;
        assert(start_index + count - 1 + 256 == 256 * whole + sum);
        lemma_mod_multiples_vanish(whole, sum as int, 256);
        lemma_mod_multiples_vanish(1, start_index + count - 1, 256);
    }
    (sum % 256) as u8
}

/// The register file.
pub struct Registers {
    v: [u8; NUM_REGISTERS],
    i: u16,
    pc: u16,
    sp: u8,
}

impl View for Registers {
    type V = RegistersView;

    closed spec fn view(&self) -> RegistersView {
        RegistersView { v: self.v@, i: self.i, pc: self.pc, sp: self.sp }
    }
}

impl Registers {
    /// A register file always holds exactly sixteen `V` registers.
    pub proof fn lemma_len(&self)
        ensures
            self@.v.len() == 16,
    {
    }

    /// Creates a register file: everything zero, the program counter at
    /// `0x200`.
    pub fn new() -> (registers: Self)
        ensures
            registers@ == RegistersView::initial(),
    {
        let registers = Self { v: [0;NUM_REGISTERS], i: 0, pc: 0x200, sp: 0 };
        assert(registers@.v =~= RegistersView::initial().v);
        registers
    }

    /// Puts the register file back into its initial state.
    pub fn reset(&mut self)
        ensures
            final(self)@ == RegistersView::initial(),
    {
        self.v = [0;NUM_REGISTERS];
        self.i = 0;
        self.pc = 0x200;
        self.sp = 0;
        assert(self@.v =~= RegistersView::initial().v);
    }

    /// Reads `V[index]`.
    pub fn get_v(&self, index: u8) -> (result: Result<u8>)
        ensures
            index < 16 ==> result == Ok::<u8, EmulatorError>(self@.v[index as int]),
            index >= 16 ==> result == Err::<u8, EmulatorError>(
                (EmulatorError::InvalidRegister { index }),
            ),
    {
        if index as usize >= NUM_REGISTERS {
            return Err(EmulatorError::InvalidRegister { index });
        }
        Ok(self.v[index as usize])
    }

    /// Writes `V[index]`.
    pub fn set_v(&mut self, index: u8, value: u8) -> (result: Result<()>)
        ensures
            index < 16 ==> result == Ok::<(), EmulatorError>(()) && final(self)@ == old(
                self,
            )@.with_v(index as int, value),
            index >= 16 ==> result == Err::<(), EmulatorError>(
                (EmulatorError::InvalidRegister { index }),
            ) && final(self)@ == old(self)@,
    {
        if index as usize >= NUM_REGISTERS {
            return Err(EmulatorError::InvalidRegister { index });
        }
        self.v[index as usize] = value;
        Ok(())
    }

    /// Reads the flag register `VF`.
    pub fn get_flag(&self) -> (value: u8)
        ensures
            value == self@.v[15],
    {
        self.v[FLAG_REGISTER]
    }

    /// Writes the flag register `VF`.
    pub fn set_flag(&mut self, value: u8)
        ensures
            final(self)@ == old(self)@.with_flag(value),
    {
        self.v[FLAG_REGISTER] = value;
    }

    /// Reads the index register.
    pub fn get_i(&self) -> (value: u16)
        ensures
            value == self@.i,
    {
        self.i
    }

    /// Writes the index register.
    pub fn set_i(&mut self, value: u16)
        ensures
            final(self)@ == old(self)@.with_i(value),
    {
        self.i = value;
    }

    /// Reads the program counter.
    pub fn get_pc(&self) -> (value: u16)
        ensures
            value == self@.pc,
    {
        self.pc
    }

    /// Writes the program counter.
    pub fn set_pc(&mut self, value: u16)
        ensures
            final(self)@ == old(self)@.with_pc(value),
    {
        self.pc = value;
    }

    /// Moves the program counter to the next instruction.
    pub fn increment_pc(&mut self)
        ensures
            final(self)@ == old(self)@.advanced(),
    {
        self.pc = self.pc.wrapping_add(2);
    }

    /// Skips the next instruction.
    pub fn skip_instruction(&mut self)
        ensures
            final(self)@ == old(self)@.advanced(),
    {
        self.pc = self.pc.wrapping_add(2);
    }

    /// Reads the stack-pointer shadow.
    pub fn get_sp(&self) -> (value: u8)
        ensures
            value == self@.sp,
    {
        self.sp
    }

    /// Writes the stack-pointer shadow.
    pub fn set_sp(&mut self, value: u8)
        ensures
            final(self)@ == (RegistersView { sp: value, ..old(self)@ }),
    {
        self.sp = value;
    }

    /// Raises the stack-pointer shadow by one; it never passes 15.
    pub fn increment_sp(&mut self) -> (result: Result<()>)
        ensures
            old(self)@.sp < 15 ==> result == Ok::<(), EmulatorError>(()) && final(self)@ == (
            RegistersView { sp: (old(self)@.sp + 1) as u8, ..old(self)@ }),
            old(self)@.sp >= 15 ==> result == Err::<(), EmulatorError>(
                EmulatorError::StackOverflow,
            ) && final(self)@ == old(self)@,
    {
        if self.sp >= 15 {
            return Err(EmulatorError::StackOverflow);
        }
        self.sp += 1;
        Ok(())
    }

    /// Lowers the stack-pointer shadow by one; it never passes 0.
    pub fn decrement_sp(&mut self) -> (result: Result<()>)
        ensures
            old(self)@.sp > 0 ==> result == Ok::<(), EmulatorError>(()) && final(self)@ == (
            RegistersView { sp: (old(self)@.sp - 1) as u8, ..old(self)@ }),
            old(self)@.sp == 0 ==> result == Err::<(), EmulatorError>(
                EmulatorError::StackUnderflow,
            ) && final(self)@ == old(self)@,
    {
        if self.sp == 0 {
            return Err(EmulatorError::StackUnderflow);
        }
        self.sp -= 1;
        Ok(())
    }

    /// `V[vx] += V[vy]` with the carry in `VF`. A bad `vx` is reported
    /// before a bad `vy`; either leaves the registers unchanged.
    pub fn add_with_carry(&mut self, vx: u8, vy: u8) -> (result: Result<()>)
        ensures
            vx < 16 && vy < 16 ==> result == Ok::<(), EmulatorError>(()) && final(self)@ == old(
                self,
            )@.add_with_carry(vx as int, vy as int),
            vx >= 16 ==> result == Err::<(), EmulatorError>(
                (EmulatorError::InvalidRegister { index: vx }),
            ) && final(self)@ == old(self)@,
            vx < 16 && vy >= 16 ==> result == Err::<(), EmulatorError>(
                (EmulatorError::InvalidRegister { index: vy }),
            ) && final(self)@ == old(self)@,
    {
        let val_x = self.get_v(vx)?;
        let val_y = self.get_v(vy)?;
        let sum: u16 = val_x as u16 + val_y as u16;
        let carry = sum > 255;
        let result = (sum % 256) as u8;
        self.set_v(vx, result)?;
        self.set_flag(
            if carry {
                1
            } else {
                0
            },
        );
        Ok(())
    }

    /// `V[vx] -= V[vy]` with the inverted borrow in `VF`: 1 when nothing
    /// was borrowed.
    pub fn sub_with_borrow(&mut self, vx: u8, vy: u8) -> (result: Result<()>)
        ensures
            vx < 16 && vy < 16 ==> result == Ok::<(), EmulatorError>(()) && final(self)@ == old(
                self,
            )@.sub_with_borrow(vx as int, vy as int),
            vx >= 16 ==> result == Err::<(), EmulatorError>(
                (EmulatorError::InvalidRegister { index: vx }),
            ) && final(self)@ == old(self)@,
            vx < 16 && vy >= 16 ==> result == Err::<(), EmulatorError>(
                (EmulatorError::InvalidRegister { index: vy }),
            ) && final(self)@ == old(self)@,
    {
        let val_x = self.get_v(vx)?;
        let val_y = self.get_v(vy)?;
        let borrow = val_x < val_y;
        let result = val_x.wrapping_sub(val_y);
        self.set_v(vx, result)?;
        self.set_flag(
            if borrow {
                0
            } else {
                1
            },
        );
        Ok(())
    }

    /// `V[vx] = V[vy] - V[vx]` with the inverted borrow in `VF`.
    pub fn sub_reverse_with_borrow(&mut self, vx: u8, vy: u8) -> (result: Result<()>)
        ensures
            vx < 16 && vy < 16 ==> result == Ok::<(), EmulatorError>(()) && final(self)@ == old(
                self,
            )@.sub_reverse_with_borrow(vx as int, vy as int),
            vx >= 16 ==> result == Err::<(), EmulatorError>(
                (EmulatorError::InvalidRegister { index: vx }),
            ) && final(self)@ == old(self)@,
            vx < 16 && vy >= 16 ==> result == Err::<(), EmulatorError>(
                (EmulatorError::InvalidRegister { index: vy }),
            ) && final(self)@ == old(self)@,
    {
        let val_x = self.get_v(vx)?;
        let val_y = self.get_v(vy)?;
        let borrow = val_y < val_x;
        let result = val_y.wrapping_sub(val_x);
        self.set_v(vx, result)?;
        self.set_flag(
            if borrow {
                0
            } else {
                1
            },
        );
        Ok(())
    }

    /// Shifts `V[vx]` right by one bit; `VF` takes the bit shifted out.
    pub fn shift_right(&mut self, vx: u8) -> (result: Result<()>)
        ensures
            vx < 16 ==> result == Ok::<(), EmulatorError>(()) && final(self)@ == old(
                self,
            )@.shift_right(vx as int),
            vx >= 16 ==> result == Err::<(), EmulatorError>(
                (EmulatorError::InvalidRegister { index: vx }),
            ) && final(self)@ == old(self)@,
    {
        let val = self.get_v(vx)?;
        let lsb = val & 0x1;
        let shifted = val >> 1;
        assert(lsb == val % 2 && shifted == val / 2) by (bit_vector)
            requires
                lsb == val & 0x1,
                shifted == val >> 1,
        ;
        self.set_v(vx, shifted)?;
        self.set_flag(lsb);
        Ok(())
    }

    /// Shifts `V[vx]` left by one bit; `VF` takes the bit shifted out.
    pub fn shift_left(&mut self, vx: u8) -> (result: Result<()>)
        ensures
            vx < 16 ==> result == Ok::<(), EmulatorError>(()) && final(self)@ == old(
                self,
            )@.shift_left(vx as int),
            vx >= 16 ==> result == Err::<(), EmulatorError>(
                (EmulatorError::InvalidRegister { index: vx }),
            ) && final(self)@ == old(self)@,
    {
        let val = self.get_v(vx)?;
        let msb = (val & 0x80) >> 7;
        let shifted = val << 1;
        assert(msb == val / 128 && shifted == (val * 2) % 256) by (bit_vector)
            requires
                msb == (val & 0x80) >> 7,
                shifted == val << 1,
        ;
        self.set_v(vx, shifted)?;
        self.set_flag(msb);
        Ok(())
    }

    /// All sixteen `V` registers.
    pub fn get_all_v(&self) -> (values: &[u8])
        ensures
            values@ == self@.v,
    {
        self.v.as_slice()
    }

    /// Writes `values` to the registers from `start_index` on. A range
    /// that leaves the register file is refused as a whole.
    pub fn set_v_range(&mut self, start_index: u8, values: &[u8]) -> (result: Result<()>)
        ensures
            start_index + values@.len() <= 16 ==> result == Ok::<(), EmulatorError>(())
                && final(self)@ == old(self)@.with_v_range(start_index as int, values@),
            start_index + values@.len() > 16 ==> result == Err::<(), EmulatorError>(
                (EmulatorError::InvalidRegister {
                    index: range_error_index(start_index as int, values@.len() as int),
                }),
            ) && final(self)@ == old(self)@,
    {
        let start = start_index as usize;
        let count = values.len();
        if count > NUM_REGISTERS || start + count > NUM_REGISTERS {
            return Err(EmulatorError::InvalidRegister { index: range_error(start_index, count) });
        }
        let mut k: usize = 0;
        while k < count
            invariant
                k <= count,
                count == values@.len(),
                start + count <= 16,
                self.i == old(self).i,
                self.pc == old(self).pc,
                self.sp == old(self).sp,
                forall|j: int|
                    0 <= j < 16 ==> #[trigger] self.v@[j] == if start <= j < start + k {
                        values@[j - start]
                    } else {
                        old(self).v@[j]
                    },
            decreases count - k,
        {
            self.v[start + k] = values[k];
            k += 1;
        }
        assert(self@.v =~= old(self)@.with_v_range(start_index as int, values@).v);
        Ok(())
    }

    /// The `count` registers from `start_index` on. A range that leaves
    /// the register file is refused.
    pub fn get_v_range(&self, start_index: u8, count: usize) -> (result: Result<&[u8]>)
        ensures
            start_index + count <= 16 ==> result is Ok && result->Ok_0@ == self@.v.subrange(
                start_index as int,
                start_index + count,
            ),
            start_index + count > 16 ==> result == Err::<&[u8], EmulatorError>(
                (EmulatorError::InvalidRegister {
                    index: range_error_index(start_index as int, count as int),
                }),
            ),
    {
        let start = start_index as usize;
        if count > NUM_REGISTERS || start + count > NUM_REGISTERS {
            return Err(EmulatorError::InvalidRegister { index: range_error(start_index, count) });
        }
        Ok(slice_subrange(self.v.as_slice(), start, start + count))
    }
}

impl Default for Registers {
    fn default() -> (registers: Self)
        ensures
            registers@ == RegistersView::initial(),
    {
        Self::new()
    }
}

} // verus!
