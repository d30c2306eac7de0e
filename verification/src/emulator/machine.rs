//! The machine as a mathematical value, and what one cycle makes of it.
//!
//! `CpuView` holds everything that an instruction can read or change.
//! Whatever the machine cannot know beforehand (how much time has passed,
//! the random byte, the keys that are down, whether the peripherals accept
//! a call) is gathered in `Outcomes`. Given the outcomes, a cycle is a
//! function: `CpuView::cycled`. The engine's contracts say that the
//! executable machine follows it.

use crate::emulator::memory::{read_at, read_word_at, resolve, write_at};
use crate::emulator::registers::RegistersView;
use crate::emulator::timers::TimersView;
use crate::error::{EmulatorError, Result};
use crate::hardware::display::{blank, drawn, lemma_draw_bits_len};
use crate::hardware::input::ChipKey;
use vstd::prelude::*;

verus! {

/// Whether the machine is halted by a wait-for-key instruction, and how
/// far the wait has come.
#[derive(Debug, Clone, Copy, PartialEq, Eq, Structural)]
pub enum KeyWait {
    /// Instructions are executed.
    NotWaiting,
    /// Waiting for any key to go down; its number is meant for `register`.
    Press { register: u8 },
    /// `key` went down; waiting for it to go up again.
    Release { register: u8, key: ChipKey },
}

impl KeyWait {
    /// Whether the register that the key's number is meant for exists. A
    /// machine only ever waits for a register that the wait-for-key
    /// instruction names, and that is one of the sixteen.
    pub open spec fn names_a_register(self) -> bool {
        match self {
            KeyWait::NotWaiting => true,
            KeyWait::Press { register } => register < 16,
            KeyWait::Release { register, key } => register < 16,
        }
    }
}

/// The attached display as a mathematical value.
pub struct ScreenView {
    /// 2048 pixels, row by row.
    pub pixels: Seq<bool>,
    /// Whether the pixels have changed since they were last rendered.
    pub dirty: bool,
}

/// What the world decides in the course of one cycle.
pub struct Outcomes {
    /// The time that the clock shows to have passed since the timers were
    /// last updated.
    pub elapsed_nanos: nat,
    /// The byte that the random number generator yields.
    pub random_byte: u8,
    /// The keys that are down, if a keypad is attached and can be read.
    pub keys: Option<spec_fn(ChipKey) -> bool>,
    /// Whether the display accepts a draw.
    pub draw_accepted: bool,
    /// Whether the audio sink accepts being switched.
    pub audio_accepted: bool,
    /// Whether the tone is on after the audio sink has refused to be
    /// switched.
    pub tone_if_refused: bool,
}

impl Outcomes {
    /// Outcomes in which nothing is seen and nothing is accepted; they
    /// stand for any outcomes where a cycle does not ask the world.
    pub open spec fn none() -> Outcomes {
        Outcomes {
            elapsed_nanos: 0,
            random_byte: 0,
            keys: None,
            draw_accepted: false,
            audio_accepted: false,
            tone_if_refused: false,
        }
    }
}

/// The key with the lowest number among those for which `keys` holds.
pub open spec fn first_pressed(keys: spec_fn(ChipKey) -> bool) -> Option<ChipKey> {
    if exists|k: ChipKey| #[trigger] keys(k) {
        Some(
            choose|k: ChipKey|
                #[trigger] keys(k) && forall|j: ChipKey|
                    j.index() < k.index() ==> !#[trigger] keys(j),
        )
    } else {
        None
    }
}

/// The sum of two addresses, wrapping at the end of the 16-bit range.
pub open spec fn address_plus(address: u16, offset: int) -> u16 {
    ((address + offset) % 0x10000) as u16
}

/// The memory after the first `count` registers are stored from address
/// `i` on, one after the other, and whether all of them could be stored.
/// The registers before a refused address stay stored.
pub open spec fn store_registers(
    mem: Seq<u8>,
    wraparound: bool,
    v: Seq<u8>,
    i: u16,
    count: nat,
) -> (Seq<u8>, Result<()>)
    decreases count,
{
    if count == 0 {
        (mem, Ok(()))
    } else {
        let (before, result) = store_registers(mem, wraparound, v, i, (count - 1) as nat);
        match result {
            Err(e) => (before, Err(e)),
            Ok(_) => match write_at(before, wraparound, address_plus(i, count - 1), v[count - 1]) {
                Ok(after) => (after, Ok(())),
                Err(e) => (before, Err(e)),
            },
        }
    }
}

/// The registers after the first `count` of them are loaded from address
/// `i` on, one after the other, and whether all of them could be loaded.
/// The registers before a refused address stay loaded.
pub open spec fn load_registers(
    mem: Seq<u8>,
    wraparound: bool,
    v: Seq<u8>,
    i: u16,
    count: nat,
) -> (Seq<u8>, Result<()>)
    decreases count,
{
    if count == 0 {
        (v, Ok(()))
    } else {
        let (before, result) = load_registers(mem, wraparound, v, i, (count - 1) as nat);
        match result {
            Err(e) => (before, Err(e)),
            Ok(_) => match read_at(mem, wraparound, address_plus(i, count - 1)) {
                Ok(value) => (before.update(count - 1, value), Ok(())),
                Err(e) => (before, Err(e)),
            },
        }
    }
}

/// Once a register could not be stored, storing more registers changes
/// nothing.
pub proof fn lemma_store_stops(
    mem: Seq<u8>,
    wraparound: bool,
    v: Seq<u8>,
    i: u16,
    count: nat,
    more: nat,
)
    requires
        count <= more,
        store_registers(mem, wraparound, v, i, count).1 is Err,
    ensures
        store_registers(mem, wraparound, v, i, more) == store_registers(
            mem,
            wraparound,
            v,
            i,
            count,
        ),
    decreases more,
{
    if more > count {
        lemma_store_stops(mem, wraparound, v, i, count, (more - 1) as nat);
    }
}

/// Once a register could not be loaded, loading more registers changes
/// nothing.
pub proof fn lemma_load_stops(
    mem: Seq<u8>,
    wraparound: bool,
    v: Seq<u8>,
    i: u16,
    count: nat,
    more: nat,
)
    requires
        count <= more,
        load_registers(mem, wraparound, v, i, count).1 is Err,
    ensures
        load_registers(mem, wraparound, v, i, more) == load_registers(
            mem,
            wraparound,
            v,
            i,
            count,
        ),
    decreases more,
{
    if more > count {
        lemma_load_stops(mem, wraparound, v, i, count, (more - 1) as nat);
    }
}

/// The bytes of an `n`-row sprite at address `i`: the rows that lie
/// inside memory. Rows past the end of memory are left out, whatever the
/// wraparound mode.
pub open spec fn sprite_at(mem: Seq<u8>, i: u16, n: int) -> Seq<u8> {
    if i >= 4096 {
        Seq::empty()
    } else if i + n > 4096 {
        mem.subrange(i as int, 4096)
    } else {
        mem.subrange(i as int, i + n)
    }
}

/// The machine as a mathematical value.
pub struct CpuView {
    /// The register file.
    pub registers: RegistersView,
    /// The 4096 bytes of memory.
    pub memory: Seq<u8>,
    /// Whether memory addresses wrap.
    pub wraparound: bool,
    /// The call stack, bottom first.
    pub stack: Seq<u16>,
    /// The timers.
    pub timers: TimersView,
    /// Number of instructions executed; stops counting at `u64::MAX`.
    pub instruction_count: u64,
    /// The state of a wait for a key.
    pub key_wait: KeyWait,
    /// The attached display, if there is one.
    pub screen: Option<ScreenView>,
    /// Whether the tone of the attached audio sink is on, if there is a
    /// sink.
    pub tone: Option<bool>,
    /// Whether a keypad is attached.
    pub has_input: bool,
}

impl CpuView {
    /// This machine with other registers.
    pub open spec fn with_registers(self, registers: RegistersView) -> CpuView {
        CpuView { registers, ..self }
    }

    /// This machine with other memory contents.
    pub open spec fn with_memory(self, memory: Seq<u8>) -> CpuView {
        CpuView { memory, ..self }
    }

    /// This machine with the next instruction skipped.
    pub open spec fn skipping(self, skip: bool) -> CpuView {
        if skip {
            self.with_registers(self.registers.advanced())
        } else {
            self
        }
    }

    /// `00E0`: clears the display, if one is attached.
    pub open spec fn op_cls(self) -> CpuView {
        match self.screen {
            Some(_) => CpuView { screen: Some(ScreenView { pixels: blank(), dirty: true }), ..self },
            None => self,
        }
    }

    /// `00EE`: returns from a subroutine.
    pub open spec fn op_ret(self) -> (CpuView, Result<()>) {
        if self.stack.len() == 0 {
            (self, Err(EmulatorError::StackUnderflow))
        } else {
            (
                CpuView {
                    stack: self.stack.drop_last(),
                    registers: self.registers.with_pc(self.stack.last()),
                    ..self
                },
                Ok(()),
            )
        }
    }

    /// `2nnn`: calls the subroutine at `nnn`.
    pub open spec fn op_call(self, nnn: u16) -> (CpuView, Result<()>) {
        if self.stack.len() >= 16 {
            (self, Err(EmulatorError::StackOverflow))
        } else {
            (
                CpuView {
                    stack: self.stack.push(self.registers.pc),
                    registers: self.registers.with_pc(nnn),
                    ..self
                },
                Ok(()),
            )
        }
    }

    /// `Dxyn`: draws the `n`-row sprite at `I` at `(Vx, Vy)` and puts the
    /// collision into `VF`. Without a display, or with one that refuses
    /// the draw, nothing is drawn and `VF` becomes 0.
    pub open spec fn op_drw(self, x: int, y: int, n: int, accepted: bool) -> CpuView {
        match self.screen {
            Some(screen) if accepted => {
                let sprite = sprite_at(self.memory, self.registers.i, n);
                let (pixels, collision) = drawn(
                    screen.pixels,
                    self.registers.v[x],
                    self.registers.v[y],
                    sprite,
                );
                CpuView {
                    screen: Some(
                        ScreenView { pixels, dirty: screen.dirty || sprite.len() > 0 },
                    ),
                    registers: self.registers.with_flag(
                        if collision {
                            1u8
                        } else {
                            0u8
                        },
                    ),
                    ..self
                }
            },
            _ => self.with_registers(self.registers.with_flag(0)),
        }
    }

    /// Whether the key whose number is `value` is seen to be down.
    pub open spec fn key_seen_down(value: u8, keys: spec_fn(ChipKey) -> bool) -> bool {
        exists|k: ChipKey| k.index() == value && #[trigger] keys(k)
    }

    /// `Ex9E`: skips the next instruction if the key whose number is in
    /// `Vx` is down. Without a keypad nothing is skipped.
    pub open spec fn op_skp(self, x: int, keys: Option<spec_fn(ChipKey) -> bool>) -> CpuView {
        match keys {
            Some(keys) => self.skipping(Self::key_seen_down(self.registers.v[x], keys)),
            None => self,
        }
    }

    /// `ExA1`: skips the next instruction if the key whose number is in
    /// `Vx` is up. Without a keypad the instruction is always skipped; with
    /// one, a number that names no key skips nothing.
    pub open spec fn op_sknp(self, x: int, keys: Option<spec_fn(ChipKey) -> bool>) -> CpuView {
        match keys {
            Some(keys) => self.skipping(
                self.registers.v[x] <= 0xF && !Self::key_seen_down(self.registers.v[x], keys),
            ),
            None => self.skipping(true),
        }
    }

    /// `Fx1E`: adds `Vx` to `I`, wrapping at 16 bits; `VF` becomes 1 if
    /// the sum leaves the 12-bit address space, else 0.
    pub open spec fn op_add_i(self, x: int) -> CpuView {
        let sum = address_plus(self.registers.i, self.registers.v[x] as int);
        self.with_registers(
            self.registers.with_flag(
                if sum > 0x0FFF {
                    1u8
                } else {
                    0u8
                },
            ).with_i(sum),
        )
    }

    /// `Fx33`: writes the hundreds, tens and ones of `Vx` to `I`, `I + 1`
    /// and `I + 2`. Digits written before a refused address stay written.
    pub open spec fn op_bcd(self, x: int) -> (CpuView, Result<()>) {
        let value = self.registers.v[x];
        let i = self.registers.i;
        let digits = seq![(value / 100) as u8, ((value / 10) % 10) as u8, (value % 10) as u8];
        let (memory, result) = store_registers(self.memory, self.wraparound, digits, i, 3);
        (self.with_memory(memory), result)
    }

    /// `Fx55`: stores `V0..=Vx` at `I` and the addresses that follow.
    pub open spec fn op_store(self, x: int) -> (CpuView, Result<()>) {
        let (memory, result) = store_registers(
            self.memory,
            self.wraparound,
            self.registers.v,
            self.registers.i,
            (x + 1) as nat,
        );
        (self.with_memory(memory), result)
    }

    /// `Fx65`: loads `V0..=Vx` from `I` and the addresses that follow.
    pub open spec fn op_load(self, x: int) -> (CpuView, Result<()>) {
        let (v, result) = load_registers(
            self.memory,
            self.wraparound,
            self.registers.v,
            self.registers.i,
            (x + 1) as nat,
        );
        (self.with_registers(RegistersView { v, ..self.registers }), result)
    }

    /// What an instruction of the `0` family makes of this machine: `00E0`
    /// clears the display, `00EE` returns from a subroutine, and every
    /// other word is a call into the host system, which is ignored.
    pub open spec fn executed_system(self, instruction: u16) -> (CpuView, Result<()>) {
        if instruction == 0x00E0 {
            (self.op_cls(), Ok(()))
        } else if instruction == 0x00EE {
            self.op_ret()
        } else {
            (self, Ok(()))
        }
    }

    /// What the instruction `8xyn` makes of this machine: arithmetic and
    /// logic on `Vx` and `Vy`, selected by `n`.
    pub open spec fn executed_arithmetic(self, x: int, y: int, n: int, instruction: u16) -> (
        CpuView,
        Result<()>,
    ) {
        let r = self.registers;
        let vx = r.v[x];
        let vy = r.v[y];
        if n == 0x0 {
            (self.with_registers(r.with_v(x, vy)), Ok(()))
        } else if n == 0x1 {
            (self.with_registers(r.with_v(x, vx | vy)), Ok(()))
        } else if n == 0x2 {
            (self.with_registers(r.with_v(x, vx & vy)), Ok(()))
        } else if n == 0x3 {
            (self.with_registers(r.with_v(x, vx ^ vy)), Ok(()))
        } else if n == 0x4 {
            (self.with_registers(r.add_with_carry(x, y)), Ok(()))
        } else if n == 0x5 {
            (self.with_registers(r.sub_with_borrow(x, y)), Ok(()))
        } else if n == 0x6 {
            (self.with_registers(r.shift_right(x)), Ok(()))
        } else if n == 0x7 {
            (self.with_registers(r.sub_reverse_with_borrow(x, y)), Ok(()))
        } else if n == 0xE {
            (self.with_registers(r.shift_left(x)), Ok(()))
        } else {
            (self, Err(EmulatorError::UnknownInstruction { opcode: instruction }))
        }
    }

    /// What the instruction `Exnn` makes of this machine: a skip that
    /// depends on a key, selected by `nn`.
    pub open spec fn executed_keys(
        self,
        x: int,
        nn: u8,
        instruction: u16,
        keys: Option<spec_fn(ChipKey) -> bool>,
    ) -> (CpuView, Result<()>) {
        if nn == 0x9E {
            (self.op_skp(x, keys), Ok(()))
        } else if nn == 0xA1 {
            (self.op_sknp(x, keys), Ok(()))
        } else {
            (self, Err(EmulatorError::UnknownInstruction { opcode: instruction }))
        }
    }

    /// What the instruction `Fxnn` makes of this machine: timers, the
    /// index register, the wait for a key and block transfers, selected by
    /// `nn`.
    pub open spec fn executed_misc(self, x: int, nn: u8, instruction: u16) -> (
        CpuView,
        Result<()>,
    ) {
        let r = self.registers;
        let vx = r.v[x];
        if nn == 0x07 {
            (self.with_registers(r.with_v(x, self.timers.delay)), Ok(()))
        } else if nn == 0x0A {
            (CpuView { key_wait: KeyWait::Press { register: x as u8 }, ..self }, Ok(()))
        } else if nn == 0x15 {
            (CpuView { timers: TimersView { delay: vx, ..self.timers }, ..self }, Ok(()))
        } else if nn == 0x18 {
            (CpuView { timers: TimersView { sound: vx, ..self.timers }, ..self }, Ok(()))
        } else if nn == 0x1E {
            (self.op_add_i(x), Ok(()))
        } else if nn == 0x29 {
            (self.with_registers(r.with_i((0x50 + (vx % 16) * 5) as u16)), Ok(()))
        } else if nn == 0x33 {
            self.op_bcd(x)
        } else if nn == 0x55 {
            self.op_store(x)
        } else if nn == 0x65 {
            self.op_load(x)
        } else {
            (self, Err(EmulatorError::UnknownInstruction { opcode: instruction }))
        }
    }

    /// What the instruction word `instruction` makes of this machine, and
    /// whether it could be executed. The program counter already points
    /// behind the instruction.
    ///
    /// The word is read as four nibbles: the first selects the
    /// instruction, `x` and `y` name registers, `n`, `nn` and `nnn` are the
    /// last one, two and three nibbles. A word that matches no
    /// instruction is refused and changes nothing.
    pub open spec fn executed(self, instruction: u16, o: Outcomes) -> (CpuView, Result<()>) {
        let kind = (instruction / 0x1000) as int;
        let x = ((instruction / 0x100) % 0x10) as int;
        let y = ((instruction / 0x10) % 0x10) as int;
        let n = (instruction % 0x10) as int;
        let nn = (instruction % 0x100) as u8;
        let nnn = (instruction % 0x1000) as u16;
        let r = self.registers;
        let vx = r.v[x];
        let vy = r.v[y];
        if kind == 0x0 {
            self.executed_system(instruction)
        } else if kind == 0x1 {
            (self.with_registers(r.with_pc(nnn)), Ok(()))
        } else if kind == 0x2 {
            self.op_call(nnn)
        } else if kind == 0x3 {
            (self.skipping(vx == nn), Ok(()))
        } else if kind == 0x4 {
            (self.skipping(vx != nn), Ok(()))
        } else if kind == 0x5 && n == 0x0 {
            (self.skipping(vx == vy), Ok(()))
        } else if kind == 0x6 {
            (self.with_registers(r.with_v(x, nn)), Ok(()))
        } else if kind == 0x7 {
            (self.with_registers(r.with_v(x, ((vx + nn) % 256) as u8)), Ok(()))
        } else if kind == 0x8 {
            self.executed_arithmetic(x, y, n, instruction)
        } else if kind == 0x9 && n == 0x0 {
            (self.skipping(vx != vy), Ok(()))
        } else if kind == 0xA {
            (self.with_registers(r.with_i(nnn)), Ok(()))
        } else if kind == 0xB {
            (self.with_registers(r.with_pc((nnn + r.v[0]) as u16)), Ok(()))
        } else if kind == 0xC {
            (self.with_registers(r.with_v(x, o.random_byte & nn)), Ok(()))
        } else if kind == 0xD {
            (self.op_drw(x, y, n, o.draw_accepted), Ok(()))
        } else if kind == 0xE {
            self.executed_keys(x, nn, instruction, o.keys)
        } else if kind == 0xF {
            self.executed_misc(x, nn, instruction)
        } else {
            (self, Err(EmulatorError::UnknownInstruction { opcode: instruction }))
        }
    }

    /// This machine after it was told which key, if any, is the first
    /// that is down. Only a machine that awaits a press takes note: from
    /// then on it awaits the release of that key.
    pub open spec fn press_noted(self, first: Option<ChipKey>) -> CpuView {
        match (self.key_wait, first) {
            (KeyWait::Press { register }, Some(key)) => CpuView {
                key_wait: KeyWait::Release { register, key },
                ..self
            },
            _ => self,
        }
    }

    /// This machine after it was told whether the key that it awaits the
    /// release of is down, and whether that went well. Only a machine
    /// that awaits a release takes note, and only of a key that is up: the
    /// key's number goes into the register and the wait is over. A
    /// register that does not exist is refused and the wait goes on.
    pub open spec fn release_noted(self, down: bool) -> (CpuView, Result<()>) {
        match self.key_wait {
            KeyWait::Release { register, key } if !down => if register < 16 {
                (
                    CpuView {
                        key_wait: KeyWait::NotWaiting,
                        registers: self.registers.with_v(register as int, key.index() as u8),
                        ..self
                    },
                    Ok(()),
                )
            } else {
                (self, Err(EmulatorError::InvalidRegister { index: register }))
            },
            _ => (self, Ok(())),
        }
    }

    /// What a cycle makes of a machine that waits for a key, given the
    /// keys that are seen to be down. No instruction is executed.
    ///
    /// While a press is awaited, the first key that is down is noted and
    /// its release awaited. While a release is awaited and the key is up,
    /// the key's number goes into the register and the wait is over.
    /// Where no keys are seen, the wait goes on.
    pub open spec fn key_wait_step(self, keys: Option<spec_fn(ChipKey) -> bool>) -> (
        CpuView,
        Result<()>,
    ) {
        match (self.key_wait, keys) {
            (KeyWait::Press { register }, Some(keys)) => (
                self.press_noted(first_pressed(keys)),
                Ok(()),
            ),
            (KeyWait::Release { register, key }, Some(keys)) => self.release_noted(keys(key)),
            _ => (self, Ok(())),
        }
    }

    /// The instruction count after one more instruction.
    pub open spec fn counted(self) -> CpuView {
        CpuView {
            instruction_count: if self.instruction_count == u64::MAX {
                self.instruction_count
            } else {
                (self.instruction_count + 1) as u64
            },
            ..self
        }
    }

    /// What fetching and executing the instruction at the program counter
    /// makes of this machine. The program counter is moved behind the
    /// instruction before the instruction is executed; the instruction is
    /// counted if it succeeded.
    pub open spec fn stepped(self, o: Outcomes) -> (CpuView, Result<()>) {
        match read_word_at(self.memory, self.wraparound, self.registers.pc) {
            Err(e) => (self, Err(e)),
            Ok(instruction) => {
                let (after, result) = self.with_registers(self.registers.advanced()).executed(
                    instruction,
                    o,
                );
                match result {
                    Ok(_) => (after.counted(), Ok(())),
                    Err(e) => (after, Err(e)),
                }
            },
        }
    }

    /// This machine after its audio sink, if it has one, was told whether
    /// the tone is due: a sink that accepts plays exactly while the sound
    /// timer is above zero.
    pub open spec fn signalled(self, accepted: bool, tone_if_refused: bool) -> CpuView {
        CpuView {
            tone: match self.tone {
                Some(_) => Some(
                    if accepted {
                        self.timers.sound > 0
                    } else {
                        tone_if_refused
                    },
                ),
                None => None,
            },
            ..self
        }
    }

    /// This machine after its timers have advanced and its audio sink was
    /// told whether the tone is due.
    pub open spec fn ticked(self, o: Outcomes) -> CpuView {
        CpuView { timers: self.timers.after(o.elapsed_nanos), ..self }.signalled(
            o.audio_accepted,
            o.tone_if_refused,
        )
    }

    /// What one cycle makes of this machine: the timers advance, the audio
    /// sink is told whether the tone is due, and then either a wait for a
    /// key goes on or one instruction is fetched and executed.
    pub open spec fn cycled(self, o: Outcomes) -> (CpuView, Result<()>) {
        let ticked = self.ticked(o);
        if ticked.key_wait == KeyWait::NotWaiting {
            ticked.stepped(o)
        } else {
            ticked.key_wait_step(o.keys)
        }
    }

    /// Whether the next instruction of this machine sets a timer: it is
    /// `Fx15` or `Fx18`, and the machine does not wait for a key.
    pub open spec fn is_about_to_set_a_timer(self) -> bool {
        self.key_wait == KeyWait::NotWaiting && (match read_word_at(
            self.memory,
            self.wraparound,
            self.registers.pc,
        ) {
            Ok(instruction) => instruction / 0x1000 == 0xF && (instruction % 0x100 == 0x15
                || instruction % 0x100 == 0x18),
            Err(_) => false,
        })
    }

    /// Whether `o` can be the outcomes of a cycle of this machine: keys
    /// are only seen where a keypad is attached.
    pub open spec fn admits(self, o: Outcomes) -> bool {
        o.keys is Some ==> self.has_input
    }
}

/// Law: a cycle neither attaches nor detaches a display, and it keeps the
/// display's size.
pub proof fn lemma_cycle_keeps_the_screen(machine: CpuView, o: Outcomes)
    ensures
        machine.cycled(o).0.screen is Some <==> machine.screen is Some,
        machine.screen is Some && machine.screen->0.pixels.len() == 2048 ==> machine.cycled(
            o,
        ).0.screen->0.pixels.len() == 2048,
{
    if machine.screen is Some && machine.screen->0.pixels.len() == 2048 {
        assert forall|x: u8, y: u8, sprite: Seq<u8>|
            (#[trigger] drawn(machine.screen->0.pixels, x, y, sprite)).0.len() == 2048 by {
            lemma_draw_bits_len(machine.screen->0.pixels, x, y, sprite, sprite.len() * 8);
        }
    }
}

/// Law: a machine that waits for a key executes nothing. Whatever the
/// outcomes, a cycle of a waiting machine leaves the program counter, the
/// instruction count, memory and stack as they were, and it changes a
/// register only when the wait ends. Where the awaited register exists,
/// as it does in every machine, the cycle succeeds, also when it ends the
/// wait.
pub proof fn lemma_waiting_machine_holds_still(machine: CpuView, o: Outcomes)
    requires
        machine.key_wait != KeyWait::NotWaiting,
    ensures
        machine.cycled(o).0.registers.pc == machine.registers.pc,
        machine.cycled(o).0.instruction_count == machine.instruction_count,
        machine.cycled(o).0.memory == machine.memory,
        machine.cycled(o).0.stack == machine.stack,
        machine.cycled(o).0.key_wait != KeyWait::NotWaiting ==> machine.cycled(o).0.registers
            == machine.registers,
        machine.key_wait.names_a_register() ==> machine.cycled(o).1 == Ok::<(), EmulatorError>(
            (),
        ),
{
}

/// Law: a machine only ever waits for a register that exists. A cycle of
/// a machine of which that holds gives a machine of which it holds,
/// whatever the outcomes and whether the cycle succeeds or fails.
pub proof fn lemma_wait_names_a_register(machine: CpuView, o: Outcomes)
    requires
        machine.key_wait.names_a_register(),
    ensures
        machine.cycled(o).0.key_wait.names_a_register(),
{
    let ticked = machine.ticked(o);
    if ticked.key_wait == KeyWait::NotWaiting {
        match read_word_at(ticked.memory, ticked.wraparound, ticked.registers.pc) {
            Ok(instruction) => {
                lemma_instruction_keeps_the_wait_valid(
                    ticked.with_registers(ticked.registers.advanced()),
                    instruction,
                    o,
                );
            },
            Err(_) => {},
        }
    }
}

/// An instruction leaves a machine that waits for nothing or for a
/// register that exists in such a state: the one instruction that starts
/// a wait names its register by a nibble.
pub proof fn lemma_instruction_keeps_the_wait_valid(
    machine: CpuView,
    instruction: u16,
    o: Outcomes,
)
    requires
        machine.key_wait.names_a_register(),
    ensures
        machine.executed(instruction, o).0.key_wait.names_a_register(),
{
}

/// Law: a wait for a key takes a press and a release. A machine that
/// awaits a press never stops waiting in the same cycle; it stops only
/// from awaiting a release, and then the register holds the number of the
/// key that was awaited.
pub proof fn lemma_wait_ends_with_release(machine: CpuView, o: Outcomes)
    requires
        machine.key_wait != KeyWait::NotWaiting,
        machine.cycled(o).0.key_wait == KeyWait::NotWaiting,
    ensures
        machine.key_wait is Release,
        machine.key_wait->Release_register < 16,
        machine.cycled(o).0.registers.v == machine.registers.v.update(
            machine.key_wait->Release_register as int,
            machine.key_wait->Release_key.index() as u8,
        ),
{
}

/// Law: the timers run by the clock, not by the instructions. Unless the
/// instruction that a cycle executes sets a timer, the timers after the
/// cycle are the timers before it, advanced by the time that has passed.
pub proof fn lemma_timers_follow_the_clock(machine: CpuView, o: Outcomes)
    ensures
        machine.cycled(o).0.timers.accumulated_nanos == machine.timers.after(
            o.elapsed_nanos,
        ).accumulated_nanos,
        machine.cycled(o).0.timers == machine.timers.after(o.elapsed_nanos)
            || machine.is_about_to_set_a_timer(),
{
}

/// Law: a jump lands on its target. The program counter is moved behind
/// an instruction before the instruction is executed, so what `1nnn` puts
/// into it is what stays.
pub proof fn lemma_jump_lands_on_target(machine: CpuView, nnn: u16, o: Outcomes)
    requires
        nnn <= 0xFFF,
        machine.key_wait == KeyWait::NotWaiting,
        read_word_at(machine.memory, machine.wraparound, machine.registers.pc) == Ok::<
            u16,
            EmulatorError,
        >((0x1000 + nnn) as u16),
    ensures
        machine.cycled(o).1 is Ok,
        machine.cycled(o).0.registers == machine.registers.with_pc(nnn),
        machine.cycled(o).0.memory == machine.memory,
        machine.cycled(o).0.stack == machine.stack,
{
}

/// Law: a subroutine returns behind its call. On a stack that is not
/// full, `2nnn` followed by `00EE` leaves program counter and stack as
/// they were before the call, and in between the program counter is
/// `nnn` and the stack is one address deeper.
pub proof fn lemma_call_then_return(machine: CpuView, nnn: u16, first: Outcomes, second: Outcomes)
    requires
        nnn <= 0xFFF,
        machine.stack.len() < 16,
    ensures
        machine.executed((0x2000 + nnn) as u16, first).1 is Ok,
        machine.executed((0x2000 + nnn) as u16, first).0.registers.pc == nnn,
        machine.executed((0x2000 + nnn) as u16, first).0.stack == machine.stack.push(
            machine.registers.pc,
        ),
        machine.executed((0x2000 + nnn) as u16, first).0.executed(0x00EE, second) == (
            machine,
            Ok::<(), EmulatorError>(()),
        ),
{
    let called = machine.executed((0x2000 + nnn) as u16, first).0;
    assert(called.stack.drop_last() =~= machine.stack);
}

/// Law: block transfers leave the index register alone. `Fx55` changes
/// nothing but memory and `Fx65` nothing but the registers `V0..=Vx`,
/// whether they succeed or fail on the way.
pub proof fn lemma_block_transfers_keep_the_index(machine: CpuView, x: int)
    requires
        0 <= x < 16,
        machine.registers.v.len() == 16,
    ensures
        machine.op_store(x).0 == machine.with_memory(machine.op_store(x).0.memory),
        machine.op_load(x).0.registers.i == machine.registers.i,
        machine.op_load(x).0.registers.pc == machine.registers.pc,
        machine.op_load(x).0.memory == machine.memory,
        machine.op_load(x).0.registers.v.len() == 16,
        forall|k: int| x < k < 16 ==> machine.op_load(x).0.registers.v[k] == machine.registers.v[k],
{
    lemma_load_keeps_the_rest(
        machine.memory,
        machine.wraparound,
        machine.registers.v,
        machine.registers.i,
        (x + 1) as nat,
    );
}

/// Loading the first `count` registers keeps the number of registers and
/// the registers from `count` on.
pub proof fn lemma_load_keeps_the_rest(
    mem: Seq<u8>,
    wraparound: bool,
    v: Seq<u8>,
    i: u16,
    count: nat,
)
    requires
        count <= v.len(),
    ensures
        load_registers(mem, wraparound, v, i, count).0.len() == v.len(),
        forall|k: int|
            count <= k < v.len() ==> load_registers(mem, wraparound, v, i, count).0[k] == v[k],
    decreases count,
{
    if count > 0 {
        lemma_load_keeps_the_rest(mem, wraparound, v, i, (count - 1) as nat);
    }
}

/// The cells of sixteen addresses in a row are all different.
pub proof fn lemma_cells_differ(wraparound: bool, i: u16, j: int, k: int)
    requires
        0 <= j < k < 16,
        resolve(wraparound, address_plus(i, j)) is Some,
        resolve(wraparound, address_plus(i, k)) is Some,
    ensures
        resolve(wraparound, address_plus(i, j)) != resolve(wraparound, address_plus(i, k)),
{
}

/// After the first `count` registers were stored, each of them stands in
/// the cell of its address.
pub proof fn lemma_stored_registers(
    mem: Seq<u8>,
    wraparound: bool,
    v: Seq<u8>,
    i: u16,
    count: nat,
)
    requires
        mem.len() == 4096,
        count <= 16,
        count <= v.len(),
        store_registers(mem, wraparound, v, i, count).1 is Ok,
    ensures
        store_registers(mem, wraparound, v, i, count).0.len() == 4096,
        forall|k: int|
            0 <= k < count ==> #[trigger] read_at(
                store_registers(mem, wraparound, v, i, count).0,
                wraparound,
                address_plus(i, k),
            ) == Ok::<u8, EmulatorError>(v[k]),
    decreases count,
{
    if count > 0 {
        lemma_stored_registers(mem, wraparound, v, i, (count - 1) as nat);
        let before = store_registers(mem, wraparound, v, i, (count - 1) as nat).0;
        let after = store_registers(mem, wraparound, v, i, count).0;
        assert forall|k: int| 0 <= k < count implies #[trigger] read_at(
            after,
            wraparound,
            address_plus(i, k),
        ) == Ok::<u8, EmulatorError>(v[k]) by {
            if k < count - 1 {
                assert(read_at(before, wraparound, address_plus(i, k)) == Ok::<u8, EmulatorError>(
                    v[k],
                ));
                lemma_cells_differ(wraparound, i, k, count - 1);
            }
        }
    }
}

/// Loading registers from cells that hold what the registers hold
/// changes nothing.
pub proof fn lemma_load_of_the_same(
    mem: Seq<u8>,
    wraparound: bool,
    v: Seq<u8>,
    i: u16,
    count: nat,
)
    requires
        count <= v.len(),
        forall|k: int|
            0 <= k < count ==> #[trigger] read_at(mem, wraparound, address_plus(i, k)) == Ok::<
                u8,
                EmulatorError,
            >(v[k]),
    ensures
        load_registers(mem, wraparound, v, i, count) == (v, Ok::<(), EmulatorError>(())),
    decreases count,
{
    if count > 0 {
        lemma_load_of_the_same(mem, wraparound, v, i, (count - 1) as nat);
        assert(read_at(mem, wraparound, address_plus(i, count - 1)) == Ok::<u8, EmulatorError>(
            v[count - 1],
        ));
        assert(v.update(count - 1, v[count - 1]) =~= v);
    }
}

/// Law: what `Fx55` stores, `Fx65` loads. After a store that succeeded,
/// loading the same registers from the same address succeeds and leaves
/// the machine as it is.
pub proof fn lemma_store_then_load(machine: CpuView, x: int)
    requires
        0 <= x < 16,
        machine.registers.v.len() == 16,
        machine.memory.len() == 4096,
        machine.op_store(x).1 is Ok,
    ensures
        machine.op_store(x).0.op_load(x) == (machine.op_store(x).0, Ok::<(), EmulatorError>(())),
{
    let stored = machine.op_store(x).0;
    lemma_stored_registers(
        machine.memory,
        machine.wraparound,
        machine.registers.v,
        machine.registers.i,
        (x + 1) as nat,
    );
    lemma_load_of_the_same(
        stored.memory,
        machine.wraparound,
        machine.registers.v,
        machine.registers.i,
        (x + 1) as nat,
    );
}

/// Law: `Fx33` writes the decimal digits of `Vx`. After the instruction
/// succeeded, the cells at `I`, `I + 1` and `I + 2` hold three decimal
/// digits, and read as hundreds, tens and ones they give `Vx`.
pub proof fn lemma_bcd_writes_the_digits(machine: CpuView, x: int)
    requires
        0 <= x < 16,
        machine.registers.v.len() == 16,
        machine.memory.len() == 4096,
        machine.op_bcd(x).1 is Ok,
    ensures
        ({
            let after = machine.op_bcd(x).0;
            let i = machine.registers.i;
            let hundreds = read_at(after.memory, after.wraparound, i);
            let tens = read_at(after.memory, after.wraparound, address_plus(i, 1));
            let ones = read_at(after.memory, after.wraparound, address_plus(i, 2));
            &&& after == machine.with_memory(after.memory)
            &&& hundreds is Ok && tens is Ok && ones is Ok
            &&& hundreds->Ok_0 <= 2 && tens->Ok_0 <= 9 && ones->Ok_0 <= 9
            &&& 100 * hundreds->Ok_0 + 10 * tens->Ok_0 + ones->Ok_0 == machine.registers.v[x]
        }),
{
    let value = machine.registers.v[x];
    let digits = seq![(value / 100) as u8, ((value / 10) % 10) as u8, (value % 10) as u8];
    lemma_stored_registers(machine.memory, machine.wraparound, digits, machine.registers.i, 3);
    let after = machine.op_bcd(x).0;
    let i = machine.registers.i;
    assert(address_plus(i, 0) == i);
    assert(read_at(after.memory, after.wraparound, address_plus(i, 0)) == Ok::<u8, EmulatorError>(
        digits[0],
    ));
    assert(read_at(after.memory, after.wraparound, address_plus(i, 1)) == Ok::<u8, EmulatorError>(
        digits[1],
    ));
    assert(read_at(after.memory, after.wraparound, address_plus(i, 2)) == Ok::<u8, EmulatorError>(
        digits[2],
    ));
}

/// Law: the instruction count never falls, and a cycle adds at most one
/// to it.
pub proof fn lemma_instruction_count_grows(machine: CpuView, o: Outcomes)
    ensures
        machine.instruction_count <= machine.cycled(o).0.instruction_count
            <= machine.instruction_count + 1,
        machine.cycled(o).1 is Err ==> machine.cycled(o).0.instruction_count
            == machine.instruction_count,
{
}

} // verus!
