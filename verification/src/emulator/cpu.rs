//! The execution engine.
//!
//! A `Cpu` owns memory, registers, call stack and timers, and may have a
//! display, an audio sink and a keypad attached. Its view is a `CpuView`;
//! `cycle` follows `CpuView::cycled` and `execute_instruction` follows
//! `CpuView::executed`, for some outcomes of what the world decides.

use crate::emulator::machine::{
    first_pressed, lemma_load_stops, lemma_store_stops, lemma_waiting_machine_holds_still,
    load_registers, sprite_at, store_registers, CpuView, KeyWait, Outcomes, ScreenView,
};
use crate::emulator::memory::{Memory, PROGRAM_START};
use crate::emulator::registers::{Registers, RegistersView};
use crate::emulator::stack::Stack;
use crate::emulator::timers::{Timers, TimersView};
use crate::error::{EmulatorError, Result};
use crate::frontend::config::EmulatorBehaviorConfig;
use crate::hardware::audio::Audio;
use crate::hardware::display::Display;
use crate::hardware::input::{
    key_numbered, lemma_every_number_has_a_key, lemma_key_numbered, ChipKey, Input,
};
use rand::rngs::ThreadRng;
use rand::Rng;
use std::cell::{Ref, RefCell};
use std::rc::Rc;
use vstd::prelude::*;

verus! {

/// `rand::rngs::ThreadRng`, the random number generator of the thread.
#[verifier::external_type_specification]
#[verifier::external_body]
pub struct ExThreadRng(ThreadRng);

/// `std::cell::RefCell`, a value that is borrowed at run time.
#[verifier::external_type_specification]
#[verifier::external_body]
#[verifier::reject_recursive_types(T)]
pub struct ExRefCell<T: ?Sized>(RefCell<T>);

/// `std::cell::Ref`, a shared borrow of what a `RefCell` holds.
#[verifier::external_type_specification]
#[verifier::external_body]
#[verifier::reject_recursive_types(T)]
pub struct ExRef<'b, T: ?Sized>(Ref<'b, T>);

/// `rand::thread_rng`: a handle to the thread's generator. Nothing is
/// claimed of it. The operating system seeds the generator when a thread
/// first asks for it, and `rand` panics if the system has no seed to give;
/// no argument could rule that out.
#[verifier::external_body]
fn thread_generator() -> (rng: ThreadRng) {
    rand::thread_rng()
}

/// `Rng::gen` for `u8`: the next random byte. Nothing is known of it.
/// From time to time the generator takes a new seed from the operating
/// system, and `rand` panics if the system then has none to give; no
/// argument could rule that out.
#[verifier::external_body]
fn random_byte(rng: &mut ThreadRng) -> (byte: u8) {
    rng.gen()
}

/// `RefCell::try_borrow`: a shared borrow of what the cell holds, or none
/// while the cell is mutably borrowed.
#[verifier::external_body]
fn try_borrow_cell<'a, T: ?Sized>(cell: &'a RefCell<T>) -> (guard: Option<Ref<'a, T>>) {
    cell.try_borrow().ok()
}

/// `Ref::deref`: what the borrow refers to.
#[verifier::external_body]
fn borrowed<'a, 'b, T: ?Sized>(guard: &'a Ref<'b, T>) -> (value: &'a T) {
    &**guard
}

/// The state of a wait for a key, in which the awaited register is always
/// one that exists.
struct Wait {
    state: KeyWait,
}

impl Wait {
    #[verifier::type_invariant]
    spec fn well_formed(&self) -> bool {
        self.state.names_a_register()
    }

    /// No wait.
    fn none() -> (wait: Self)
        ensures
            wait.state == KeyWait::NotWaiting,
    {
        Self { state: KeyWait::NotWaiting }
    }
}

/// A snapshot of the machine for debugging.
#[derive(Debug, Clone, PartialEq)]
pub struct CpuState {
    pub pc: u16,
    pub sp: u8,
    pub i: u16,
    pub v: [u8; 16],
    pub delay_timer: u8,
    pub sound_timer: u8,
    pub stack_contents: Vec<u16>,
    pub instruction_count: u64,
}

/// The machine.
pub struct Cpu {
    registers: Registers,
    memory: Memory,
    stack: Stack,
    timers: Timers,
    rng: ThreadRng,
    instruction_count: u64,
    key_wait: Wait,
    display: Option<Box<dyn Display>>,
    audio: Option<Box<dyn Audio>>,
    input: Option<Rc<RefCell<dyn Input>>>,
}

impl View for Cpu {
    type V = CpuView;

    closed spec fn view(&self) -> CpuView {
        CpuView {
            registers: self.registers@,
            memory: self.memory@,
            wraparound: self.memory.wraparound(),
            stack: self.stack@,
            timers: self.timers@,
            instruction_count: self.instruction_count,
            key_wait: self.key_wait.state,
            screen: match self.display {
                Some(display) => Some(
                    ScreenView { pixels: display.pixels(), dirty: display.dirty() },
                ),
                None => None,
            },
            tone: match self.audio {
                Some(audio) => Some(audio.playing()),
                None => None,
            },
            has_input: self.input is Some,
        }
    }
}

/// The machine right after it was created, with the given wraparound
/// mode: registers, stack and timers in their initial states, the font in
/// memory, nothing attached.
pub open spec fn initial_machine(wraparound: bool) -> CpuView {
    CpuView {
        registers: RegistersView::initial(),
        memory: crate::emulator::memory::initial_contents(),
        wraparound,
        stack: Seq::empty(),
        timers: TimersView::initial(),
        instruction_count: 0,
        key_wait: KeyWait::NotWaiting,
        screen: None,
        tone: None,
        has_input: false,
    }
}

impl Cpu {
    /// Creates a machine without wraparound and with nothing attached.
    pub fn new() -> (cpu: Self)
        ensures
            cpu@ == initial_machine(false),
    {
        Self {
            registers: Registers::new(),
            memory: Memory::new(),
            stack: Stack::new(),
            timers: Timers::new(),
            rng: thread_generator(),
            instruction_count: 0,
            key_wait: Wait::none(),
            display: None,
            audio: None,
            input: None,
        }
    }

    /// Creates a machine that behaves as `config` says.
    pub fn new_with_config(config: &EmulatorBehaviorConfig) -> (cpu: Self)
        ensures
            cpu@ == initial_machine(config.memory_wraparound),
    {
        Self {
            registers: Registers::new(),
            memory: Memory::new_with_wraparound(config.memory_wraparound),
            stack: Stack::new(),
            timers: Timers::new(),
            rng: thread_generator(),
            instruction_count: 0,
            key_wait: Wait::none(),
            display: None,
            audio: None,
            input: None,
        }
    }

    /// Makes the machine behave as `config` says.
    pub fn configure(&mut self, config: &EmulatorBehaviorConfig)
        ensures
            final(self)@ == (CpuView { wraparound: config.memory_wraparound, ..old(self)@ }),
    {
        self.memory.set_wraparound(config.memory_wraparound);
    }

    /// Attaches a display, in place of the one attached before.
    pub fn set_display(&mut self, display: Box<dyn Display>)
        ensures
            final(self)@ == (CpuView {
                screen: Some(ScreenView { pixels: display.pixels(), dirty: display.dirty() }),
                ..old(self)@
            }),
    {
        let attached = Some(display);
        self.display = attached;
    }

    /// Attaches an audio sink, in place of the one attached before.
    pub fn set_audio(&mut self, audio: Box<dyn Audio>)
        ensures
            final(self)@ == (CpuView { tone: Some(audio.playing()), ..old(self)@ }),
    {
        let attached = Some(audio);
        self.audio = attached;
    }

    /// Attaches a keypad, in place of the one attached before. The keypad
    /// is shared: whoever holds it may press and release its keys between
    /// cycles.
    pub fn set_input(&mut self, input: Rc<RefCell<dyn Input>>)
        ensures
            final(self)@ == (CpuView { has_input: true, ..old(self)@ }),
    {
        let attached = Some(input);
        self.input = attached;
    }

    /// Puts the machine back into its initial state. What is attached
    /// stays attached and is not touched; the wraparound mode stays.
    pub fn reset(&mut self)
        ensures
            final(self)@ == (CpuView {
                screen: old(self)@.screen,
                tone: old(self)@.tone,
                has_input: old(self)@.has_input,
                ..initial_machine(old(self)@.wraparound)
            }),
    {
        self.registers.reset();
        self.memory.clear();
        self.stack.reset();
        self.timers.reset();
        self.instruction_count = 0;
        self.key_wait = Wait::none();
    }

    /// Loads a program at `PROGRAM_START` and points the program counter
    /// at it. A refused program changes nothing.
    pub fn load_rom(&mut self, rom_data: &[u8]) -> (result: Result<()>)
        ensures
            rom_data@.len() == 0 ==> result == Err::<(), EmulatorError>(EmulatorError::RomEmpty)
                && final(self)@ == old(self)@,
            rom_data@.len() > 3584 ==> result == Err::<(), EmulatorError>(
                (EmulatorError::RomTooLarge { size: rom_data.len(), max_size: 3584 }),
            ) && final(self)@ == old(self)@,
            0 < rom_data@.len() <= 3584 ==> result == Ok::<(), EmulatorError>(()) && final(self)@
                == (CpuView {
                memory: crate::emulator::memory::loaded(old(self)@.memory, rom_data@, 0x200),
                registers: old(self)@.registers.with_pc(0x200),
                ..old(self)@
            }),
    {
        self.memory.load_rom(rom_data)?;
        self.registers.set_pc(PROGRAM_START);
        Ok(())
    }

    /// Loads a program at `start_address` and points the program counter
    /// at it. A refused program changes nothing.
    pub fn load_rom_at(&mut self, rom_data: &[u8], start_address: u16) -> (result: Result<()>)
        ensures
            rom_data@.len() == 0 ==> result == Err::<(), EmulatorError>(EmulatorError::RomEmpty)
                && final(self)@ == old(self)@,
            rom_data@.len() > 0 && start_address as int + rom_data@.len() > 4096 ==> result
                == Err::<(), EmulatorError>(
                (EmulatorError::RomTooLarge {
                    size: rom_data.len(),
                    max_size: if start_address <= 4096 {
                        (4096 - start_address) as usize
                    } else {
                        0
                    },
                }),
            ) && final(self)@ == old(self)@,
            rom_data@.len() > 0 && start_address as int + rom_data@.len() <= 4096 ==> result
                == Ok::<(), EmulatorError>(()) && final(self)@ == (CpuView {
                memory: crate::emulator::memory::loaded(
                    old(self)@.memory,
                    rom_data@,
                    start_address as int,
                ),
                registers: old(self)@.registers.with_pc(start_address),
                ..old(self)@
            }),
    {
        self.memory.load_rom_at(rom_data, start_address)?;
        self.registers.set_pc(start_address);
        Ok(())
    }

    /// Tells a waiting machine that `key` went down, for drivers that
    /// have no keypad attached. Only a machine that awaits a press, and
    /// only the number of a key, changes anything: the press is noted and
    /// the key's release awaited.
    pub fn handle_key_press(&mut self, key: u8) -> (result: Result<()>)
        ensures
            result == Ok::<(), EmulatorError>(()),
            final(self)@ == (match old(self)@.key_wait {
                KeyWait::Press { register } if key <= 0xF => CpuView {
                    key_wait: KeyWait::Release { register, key: key_numbered(key) },
                    ..old(self)@
                },
                _ => old(self)@,
            }),
    {
        let first = ChipKey::from_u8(key);
        proof {
            if first is Some {
                lemma_key_numbered(key, first->0);
            }
        }
        self.note_press(first);
        Ok(())
    }

    /// Tells a waiting machine which key, if any, is the first that the
    /// keypad showed to be down. Only a machine that awaits a press takes
    /// note: from then on it awaits the release of that key.
    pub fn note_press(&mut self, first: Option<ChipKey>)
        ensures
            final(self)@ == old(self)@.press_noted(first),
    {
        proof {
            use_type_invariant(&self.key_wait);
        }
        match (self.key_wait.state, first) {
            (KeyWait::Press { register }, Some(key)) => {
                self.key_wait = Wait { state: KeyWait::Release { register, key } };
            },
            _ => {},
        }
    }

    /// Tells a waiting machine whether the keypad showed the key to be
    /// down whose release the machine awaits. Only a machine that awaits a
    /// release takes note, and only of a key that is up: the key's number
    /// goes into the awaited register and the wait is over.
    pub fn note_release(&mut self, down: bool) -> (result: Result<()>)
        ensures
            (final(self)@, result) == old(self)@.release_noted(down),
            result is Ok,
    {
        proof {
            use_type_invariant(&self.key_wait);
        }
        match self.key_wait.state {
            KeyWait::Release { register, key } => {
                if !down {
                    self.registers.set_v(register, key.to_u8())?;
                    self.key_wait = Wait::none();
                }
            },
            _ => {},
        }
        Ok(())
    }

    /// `Ex9E`, given what the keypad showed of the key whose number is in
    /// `Vx`: the next instruction is skipped if the key was seen to be
    /// down. Where nothing was seen, nothing is skipped.
    pub fn skip_if_down(&mut self, x: u8, seen: Option<bool>) -> (result: Result<()>)
        ensures
            x < 16 ==> result == Ok::<(), EmulatorError>(()) && final(self)@ == old(
                self,
            )@.skipping(seen == Some(true)),
            x >= 16 ==> result == Err::<(), EmulatorError>(
                (EmulatorError::InvalidRegister { index: x }),
            ) && final(self)@ == old(self)@,
    {
        self.registers.get_v(x)?;
        match seen {
            Some(true) => {
                self.registers.skip_instruction();
            },
            _ => {},
        }
        Ok(())
    }

    /// `ExA1`, given what the keypad showed of the key whose number is in
    /// `Vx`: the next instruction is skipped unless the key was seen to be
    /// down. Without a keypad it is always skipped; with one, a number
    /// that names no key skips nothing.
    pub fn skip_if_up(&mut self, x: u8, seen: Option<bool>) -> (result: Result<()>)
        ensures
            x < 16 ==> result == Ok::<(), EmulatorError>(()) && final(self)@ == old(
                self,
            )@.skipping(
                !old(self)@.has_input || (old(self)@.registers.v[x as int] <= 0xF && seen != Some(
                    true,
                )),
            ),
            x >= 16 ==> result == Err::<(), EmulatorError>(
                (EmulatorError::InvalidRegister { index: x }),
            ) && final(self)@ == old(self)@,
    {
        let key_value = self.registers.get_v(x)?;
        let down = match seen {
            Some(true) => true,
            _ => false,
        };
        if !self.has_input() || (key_value <= 0xF && !down) {
            self.registers.skip_instruction();
        }
        Ok(())
    }

    /// Whether the machine is halted by a wait for a key.
    pub fn is_waiting_for_key(&self) -> (waiting: bool)
        ensures
            waiting == (self@.key_wait != KeyWait::NotWaiting),
    {
        match self.key_wait.state {
            KeyWait::NotWaiting => false,
            _ => true,
        }
    }

    /// Whether the machine waits for a key, and how far the wait has
    /// come.
    pub fn key_wait(&self) -> (state: KeyWait)
        ensures
            state == self@.key_wait,
            state.names_a_register(),
    {
        proof {
            use_type_invariant(&self.key_wait);
        }
        self.key_wait.state
    }

    /// A snapshot of the machine.
    pub fn get_state(&self) -> (state: CpuState)
        ensures
            state.pc == self@.registers.pc,
            state.sp == self@.registers.sp,
            state.i == self@.registers.i,
            state.v@ == self@.registers.v,
            state.delay_timer == self@.timers.delay,
            state.sound_timer == self@.timers.sound,
            state.stack_contents@ == self@.stack,
            state.instruction_count == self@.instruction_count,
    {
        let all = self.registers.get_all_v();
        proof {
            self.registers.lemma_len();
        }
        let mut v: [u8; 16] = [0;16];
        let mut k: usize = 0;
        while k < 16
            invariant
                k <= 16,
                all@.len() == 16,
                forall|j: int| 0 <= j < k ==> #[trigger] v@[j] == all@[j],
            decreases 16 - k,
        {
            v[k] = all[k];
            k += 1;
        }
        assert(v@ =~= self@.registers.v);
        CpuState {
            pc: self.registers.get_pc(),
            sp: self.registers.get_sp(),
            i: self.registers.get_i(),
            v,
            delay_timer: self.timers.get_delay_timer(),
            sound_timer: self.timers.get_sound_timer(),
            stack_contents: self.stack.get_contents(),
            instruction_count: self.instruction_count,
        }
    }

    /// The memory.
    pub fn get_memory(&self) -> (memory: &Memory)
        ensures
            memory@ == self@.memory,
            memory.wraparound() == self@.wraparound,
    {
        &self.memory
    }

    /// The registers.
    pub fn get_registers(&self) -> (registers: &Registers)
        ensures
            registers@ == self@.registers,
    {
        &self.registers
    }

    /// The call stack.
    pub fn get_stack(&self) -> (stack: &Stack)
        ensures
            stack@ == self@.stack,
    {
        &self.stack
    }

    /// The timers.
    pub fn get_timers(&self) -> (timers: &Timers)
        ensures
            timers@ == self@.timers,
    {
        &self.timers
    }

    /// The timers, to be changed in place.
    pub fn timers_mut(&mut self) -> (timers: &mut Timers)
        ensures
            timers@ == old(self)@.timers,
            final(self)@ == (CpuView { timers: final(timers)@, ..old(self)@ }),
    {
        &mut self.timers
    }

    /// The registers, to be changed in place.
    pub fn registers_mut(&mut self) -> (registers: &mut Registers)
        ensures
            registers@ == old(self)@.registers,
            final(self)@ == (CpuView { registers: final(registers)@, ..old(self)@ }),
    {
        &mut self.registers
    }

    /// Whether the tone is due: the sound timer is above zero.
    pub fn should_play_sound(&self) -> (playing: bool)
        ensures
            playing == (self@.timers.sound > 0),
    {
        self.timers.should_play_sound()
    }
}

impl Default for Cpu {
    fn default() -> (cpu: Self)
        ensures
            cpu@ == initial_machine(false),
    {
        Self::new()
    }
}

impl Cpu {
    /// Whether a display is attached.
    fn has_display(&self) -> (attached: bool)
        ensures
            attached == (self@.screen is Some),
    {
        match &self.display {
            Some(_) => true,
            None => false,
        }
    }

    /// Whether a keypad is attached.
    fn has_input(&self) -> (attached: bool)
        ensures
            attached == self@.has_input,
    {
        match &self.input {
            Some(_) => true,
            None => false,
        }
    }

    /// Looks whether `key` is down. Sees nothing without a keypad, and
    /// nothing while somebody else is changing the keypad.
    fn poll_key(&self, key: ChipKey) -> (seen: Option<bool>)
        ensures
            seen is Some ==> self@.has_input,
    {
        match &self.input {
            Some(shared) => match try_borrow_cell(shared) {
                Some(guard) => Some(borrowed(&guard).is_key_pressed(key)),
                None => None,
            },
            None => None,
        }
    }

    /// Looks for the first key that is down. Sees nothing without a
    /// keypad, and nothing while somebody else is changing the keypad.
    fn poll_first_key(&self) -> (seen: Option<Option<ChipKey>>)
        ensures
            seen is Some ==> self@.has_input,
    {
        match &self.input {
            Some(shared) => match try_borrow_cell(shared) {
                Some(guard) => Some(borrowed(&guard).get_first_pressed_key()),
                None => None,
            },
            None => None,
        }
    }

    /// `00E0`
    fn cls(&mut self) -> (result: Result<()>)
        ensures
            result == Ok::<(), EmulatorError>(()),
            final(self)@ == old(self)@.op_cls(),
    {
        match &mut self.display {
            Some(display) => {
                display.clear();
            },
            None => {},
        }
        Ok(())
    }

    /// `00EE`
    fn ret(&mut self) -> (result: Result<()>)
        ensures
            (final(self)@, result) == old(self)@.op_ret(),
    {
        let addr = self.stack.pop()?;
        self.registers.set_pc(addr);
        Ok(())
    }

    /// `1nnn`
    fn jp(&mut self, addr: u16) -> (result: Result<()>)
        ensures
            result == Ok::<(), EmulatorError>(()),
            final(self)@ == old(self)@.with_registers(old(self)@.registers.with_pc(addr)),
    {
        self.registers.set_pc(addr);
        Ok(())
    }

    /// `2nnn`
    fn call(&mut self, addr: u16) -> (result: Result<()>)
        ensures
            (final(self)@, result) == old(self)@.op_call(addr),
    {
        self.stack.push(self.registers.get_pc())?;
        self.registers.set_pc(addr);
        Ok(())
    }

    /// `3xnn`
    fn se_vx_nn(&mut self, x: u8, nn: u8) -> (result: Result<()>)
        requires
            x < 16,
        ensures
            result == Ok::<(), EmulatorError>(()),
            final(self)@ == old(self)@.skipping(old(self)@.registers.v[x as int] == nn),
    {
        if self.registers.get_v(x)? == nn {
            self.registers.skip_instruction();
        }
        Ok(())
    }

    /// `4xnn`
    fn sne_vx_nn(&mut self, x: u8, nn: u8) -> (result: Result<()>)
        requires
            x < 16,
        ensures
            result == Ok::<(), EmulatorError>(()),
            final(self)@ == old(self)@.skipping(old(self)@.registers.v[x as int] != nn),
    {
        if self.registers.get_v(x)? != nn {
            self.registers.skip_instruction();
        }
        Ok(())
    }

    /// `5xy0`
    fn se_vx_vy(&mut self, x: u8, y: u8) -> (result: Result<()>)
        requires
            x < 16,
            y < 16,
        ensures
            result == Ok::<(), EmulatorError>(()),
            final(self)@ == old(self)@.skipping(
                old(self)@.registers.v[x as int] == old(self)@.registers.v[y as int],
            ),
    {
        if self.registers.get_v(x)? == self.registers.get_v(y)? {
            self.registers.skip_instruction();
        }
        Ok(())
    }

    /// `9xy0`
    fn sne_vx_vy(&mut self, x: u8, y: u8) -> (result: Result<()>)
        requires
            x < 16,
            y < 16,
        ensures
            result == Ok::<(), EmulatorError>(()),
            final(self)@ == old(self)@.skipping(
                old(self)@.registers.v[x as int] != old(self)@.registers.v[y as int],
            ),
    {
        if self.registers.get_v(x)? != self.registers.get_v(y)? {
            self.registers.skip_instruction();
        }
        Ok(())
    }

    /// `6xnn`, and every other instruction that only puts a value into
    /// `Vx`.
    fn ld_vx_nn(&mut self, x: u8, nn: u8) -> (result: Result<()>)
        requires
            x < 16,
        ensures
            result == Ok::<(), EmulatorError>(()),
            final(self)@ == old(self)@.with_registers(
                old(self)@.registers.with_v(x as int, nn),
            ),
    {
        self.registers.set_v(x, nn)
    }

    /// `7xnn`
    fn add_vx_nn(&mut self, x: u8, nn: u8) -> (result: Result<()>)
        requires
            x < 16,
        ensures
            result == Ok::<(), EmulatorError>(()),
            final(self)@ == old(self)@.with_registers(
                old(self)@.registers.with_v(
                    x as int,
                    ((old(self)@.registers.v[x as int] + nn) % 256) as u8,
                ),
            ),
    {
        let vx = self.registers.get_v(x)?;
        self.registers.set_v(x, vx.wrapping_add(nn))
    }

    /// `8xy0`
    fn ld_vx_vy(&mut self, x: u8, y: u8) -> (result: Result<()>)
        requires
            x < 16,
            y < 16,
        ensures
            result == Ok::<(), EmulatorError>(()),
            final(self)@ == old(self)@.with_registers(
                old(self)@.registers.with_v(x as int, old(self)@.registers.v[y as int]),
            ),
    {
        let vy = self.registers.get_v(y)?;
        self.registers.set_v(x, vy)
    }

    /// `8xy1`
    fn or_vx_vy(&mut self, x: u8, y: u8) -> (result: Result<()>)
        requires
            x < 16,
            y < 16,
        ensures
            result == Ok::<(), EmulatorError>(()),
            final(self)@ == old(self)@.with_registers(
                old(self)@.registers.with_v(
                    x as int,
                    old(self)@.registers.v[x as int] | old(self)@.registers.v[y as int],
                ),
            ),
    {
        let vx = self.registers.get_v(x)?;
        let vy = self.registers.get_v(y)?;
        self.registers.set_v(x, vx | vy)
    }

    /// `8xy2`
    fn and_vx_vy(&mut self, x: u8, y: u8) -> (result: Result<()>)
        requires
            x < 16,
            y < 16,
        ensures
            result == Ok::<(), EmulatorError>(()),
            final(self)@ == old(self)@.with_registers(
                old(self)@.registers.with_v(
                    x as int,
                    old(self)@.registers.v[x as int] & old(self)@.registers.v[y as int],
                ),
            ),
    {
        let vx = self.registers.get_v(x)?;
        let vy = self.registers.get_v(y)?;
        self.registers.set_v(x, vx & vy)
    }

    /// `8xy3`
    fn xor_vx_vy(&mut self, x: u8, y: u8) -> (result: Result<()>)
        requires
            x < 16,
            y < 16,
        ensures
            result == Ok::<(), EmulatorError>(()),
            final(self)@ == old(self)@.with_registers(
                old(self)@.registers.with_v(
                    x as int,
                    old(self)@.registers.v[x as int] ^ old(self)@.registers.v[y as int],
                ),
            ),
    {
        let vx = self.registers.get_v(x)?;
        let vy = self.registers.get_v(y)?;
        self.registers.set_v(x, vx ^ vy)
    }

    /// `8xy4`
    fn add_vx_vy(&mut self, x: u8, y: u8) -> (result: Result<()>)
        requires
            x < 16,
            y < 16,
        ensures
            result == Ok::<(), EmulatorError>(()),
            final(self)@ == old(self)@.with_registers(
                old(self)@.registers.add_with_carry(x as int, y as int),
            ),
    {
        self.registers.add_with_carry(x, y)
    }

    /// `8xy5`
    fn sub_vx_vy(&mut self, x: u8, y: u8) -> (result: Result<()>)
        requires
            x < 16,
            y < 16,
        ensures
            result == Ok::<(), EmulatorError>(()),
            final(self)@ == old(self)@.with_registers(
                old(self)@.registers.sub_with_borrow(x as int, y as int),
            ),
    {
        self.registers.sub_with_borrow(x, y)
    }

    /// `8xy6`
    fn shr_vx(&mut self, x: u8) -> (result: Result<()>)
        requires
            x < 16,
        ensures
            result == Ok::<(), EmulatorError>(()),
            final(self)@ == old(self)@.with_registers(old(self)@.registers.shift_right(x as int)),
    {
        self.registers.shift_right(x)
    }

    /// `8xy7`
    fn subn_vx_vy(&mut self, x: u8, y: u8) -> (result: Result<()>)
        requires
            x < 16,
            y < 16,
        ensures
            result == Ok::<(), EmulatorError>(()),
            final(self)@ == old(self)@.with_registers(
                old(self)@.registers.sub_reverse_with_borrow(x as int, y as int),
            ),
    {
        self.registers.sub_reverse_with_borrow(x, y)
    }

    /// `8xyE`
    fn shl_vx(&mut self, x: u8) -> (result: Result<()>)
        requires
            x < 16,
        ensures
            result == Ok::<(), EmulatorError>(()),
            final(self)@ == old(self)@.with_registers(old(self)@.registers.shift_left(x as int)),
    {
        self.registers.shift_left(x)
    }

    /// `Annn`
    fn ld_i_nnn(&mut self, nnn: u16) -> (result: Result<()>)
        ensures
            result == Ok::<(), EmulatorError>(()),
            final(self)@ == old(self)@.with_registers(old(self)@.registers.with_i(nnn)),
    {
        self.registers.set_i(nnn);
        Ok(())
    }

    /// `Bnnn`
    fn jp_v0_nnn(&mut self, nnn: u16) -> (result: Result<()>)
        requires
            nnn <= 0xFFF,
        ensures
            result == Ok::<(), EmulatorError>(()),
            final(self)@ == old(self)@.with_registers(
                old(self)@.registers.with_pc((nnn + old(self)@.registers.v[0]) as u16),
            ),
    {
        let v0 = self.registers.get_v(0)? as u16;
        self.registers.set_pc(nnn + v0);
        Ok(())
    }

    /// `Cxnn`, given the random byte.
    pub fn rnd_vx_nn(&mut self, x: u8, nn: u8, random_byte: u8) -> (result: Result<()>)
        ensures
            x < 16 ==> result == Ok::<(), EmulatorError>(()) && final(self)@ == old(
                self,
            )@.with_registers(old(self)@.registers.with_v(x as int, random_byte & nn)),
            x >= 16 ==> result == Err::<(), EmulatorError>(
                (EmulatorError::InvalidRegister { index: x }),
            ) && final(self)@ == old(self)@,
    {
        self.registers.set_v(x, random_byte & nn)
    }

    /// The rows of the `n`-row sprite at `I` that lie inside memory.
    fn sprite_rows(&self, n: u8) -> (rows: Vec<u8>)
        ensures
            rows@ == sprite_at(self@.memory, self@.registers.i, n as int),
    {
        let sprite_addr = self.registers.get_i() as usize;
        let mut rows: Vec<u8> = Vec::new();
        let mut k: u8 = 0;
        proof {
            self.memory.lemma_len();
        }
        while k < n
            invariant
                k <= n,
                sprite_addr == self@.registers.i,
                self@.memory.len() == 4096,
                rows@ == sprite_at(self@.memory, self@.registers.i, k as int),
            decreases n - k,
        {
            let addr = sprite_addr + k as usize;
            if addr < 4096 {
                match self.memory.read_byte(addr as u16) {
                    Ok(byte) => {
                        rows.push(byte);
                    },
                    Err(_) => {},
                }
            }
            k += 1;
            assert(rows@ =~= sprite_at(self@.memory, self@.registers.i, k as int));
        }
        rows
    }

    /// `Dxyn`
    fn drw(&mut self, x: u8, y: u8, n: u8) -> (result: Result<()>)
        requires
            x < 16,
            y < 16,
        ensures
            result == Ok::<(), EmulatorError>(()),
            exists|accepted: bool|
                final(self)@ == #[trigger] old(self)@.op_drw(
                    x as int,
                    y as int,
                    n as int,
                    accepted,
                ),
    {
        let x_pos = self.registers.get_v(x)?;
        let y_pos = self.registers.get_v(y)?;
        let mut collision = false;
        let ghost mut accepted = false;
        if self.has_display() {
            let rows = self.sprite_rows(n);
            match &mut self.display {
                Some(display) => {
                    match display.draw_sprite(x_pos, y_pos, rows.as_slice()) {
                        Ok(hit) => {
                            collision = hit;
                            proof {
                                accepted = true;
                            }
                        },
                        Err(_) => {},
                    }
                },
                None => {},
            }
        }
        self.registers.set_flag(
            if collision {
                1
            } else {
                0
            },
        );
        assert(self@ == old(self)@.op_drw(x as int, y as int, n as int, accepted));
        Ok(())
    }

    /// What the keypad shows of the key whose number is `value`: nothing
    /// where the number names no key, and nothing where the keypad cannot
    /// be read.
    fn poll_key_numbered(&self, value: u8) -> (seen: Option<bool>)
        ensures
            seen is Some ==> self@.has_input && value <= 0xF,
    {
        match ChipKey::from_u8(value) {
            Some(chip_key) => self.poll_key(chip_key),
            None => None,
        }
    }

    /// `Ex9E`
    fn skp_vx(&mut self, x: u8) -> (result: Result<()>)
        requires
            x < 16,
        ensures
            result == Ok::<(), EmulatorError>(()),
            exists|keys: Option<spec_fn(ChipKey) -> bool>|
                (keys is Some ==> old(self)@.has_input) && final(self)@ == #[trigger] old(
                    self,
                )@.op_skp(x as int, keys),
    {
        let key_value = self.registers.get_v(x)?;
        let seen = self.poll_key_numbered(key_value);
        let ghost keys: Option<spec_fn(ChipKey) -> bool> = match seen {
            Some(down) => Some(|k: ChipKey| down),
            None => None,
        };
        proof {
            if seen == Some(true) {
                lemma_every_number_has_a_key(key_value);
                assert(keys->0(key_numbered(key_value)));
            }
        }
        let result = self.skip_if_down(x, seen);
        assert(self@ == old(self)@.op_skp(x as int, keys));
        result
    }

    /// `ExA1`
    fn sknp_vx(&mut self, x: u8) -> (result: Result<()>)
        requires
            x < 16,
        ensures
            result == Ok::<(), EmulatorError>(()),
            exists|keys: Option<spec_fn(ChipKey) -> bool>|
                (keys is Some ==> old(self)@.has_input) && final(self)@ == #[trigger] old(
                    self,
                )@.op_sknp(x as int, keys),
    {
        let key_value = self.registers.get_v(x)?;
        let seen = self.poll_key_numbered(key_value);
        let attached = self.has_input();
        let ghost keys: Option<spec_fn(ChipKey) -> bool> = match seen {
            Some(down) => Some(|k: ChipKey| down),
            None => if attached && key_value > 0xF {
                Some(|k: ChipKey| false)
            } else {
                None
            },
        };
        proof {
            if seen == Some(true) {
                lemma_every_number_has_a_key(key_value);
                assert(keys->0(key_numbered(key_value)));
            }
        }
        let result = self.skip_if_up(x, seen);
        assert(self@ == old(self)@.op_sknp(x as int, keys));
        result
    }

    /// `Fx07`
    fn ld_vx_dt(&mut self, x: u8) -> (result: Result<()>)
        requires
            x < 16,
        ensures
            result == Ok::<(), EmulatorError>(()),
            final(self)@ == old(self)@.with_registers(
                old(self)@.registers.with_v(x as int, old(self)@.timers.delay),
            ),
    {
        let dt = self.timers.get_delay_timer();
        self.registers.set_v(x, dt)
    }

    /// `Fx0A`
    fn ld_vx_k(&mut self, x: u8) -> (result: Result<()>)
        requires
            x < 16,
        ensures
            result == Ok::<(), EmulatorError>(()),
            final(self)@ == (CpuView { key_wait: KeyWait::Press { register: x }, ..old(self)@ }),
    {
        self.key_wait = Wait { state: KeyWait::Press { register: x } };
        Ok(())
    }

    /// `Fx15`
    fn ld_dt_vx(&mut self, x: u8) -> (result: Result<()>)
        requires
            x < 16,
        ensures
            result == Ok::<(), EmulatorError>(()),
            final(self)@ == (CpuView {
                timers: TimersView {
                    delay: old(self)@.registers.v[x as int],
                    ..old(self)@.timers
                },
                ..old(self)@
            }),
    {
        let vx = self.registers.get_v(x)?;
        self.timers.set_delay_timer(vx);
        Ok(())
    }

    /// `Fx18`
    fn ld_st_vx(&mut self, x: u8) -> (result: Result<()>)
        requires
            x < 16,
        ensures
            result == Ok::<(), EmulatorError>(()),
            final(self)@ == (CpuView {
                timers: TimersView {
                    sound: old(self)@.registers.v[x as int],
                    ..old(self)@.timers
                },
                ..old(self)@
            }),
    {
        let vx = self.registers.get_v(x)?;
        self.timers.set_sound_timer(vx);
        Ok(())
    }

    /// `Fx1E`
    fn add_i_vx(&mut self, x: u8) -> (result: Result<()>)
        requires
            x < 16,
        ensures
            result == Ok::<(), EmulatorError>(()),
            final(self)@ == old(self)@.op_add_i(x as int),
    {
        let vx = self.registers.get_v(x)? as u16;
        let i = self.registers.get_i();
        let sum = i.wrapping_add(vx);
        self.registers.set_flag(
            if sum > 0x0FFF {
                1
            } else {
                0
            },
        );
        self.registers.set_i(sum);
        Ok(())
    }

    /// `Fx29`
    fn ld_f_vx(&mut self, x: u8) -> (result: Result<()>)
        requires
            x < 16,
        ensures
            result == Ok::<(), EmulatorError>(()),
            final(self)@ == old(self)@.with_registers(
                old(self)@.registers.with_i(
                    (0x50 + (old(self)@.registers.v[x as int] % 16) * 5) as u16,
                ),
            ),
    {
        let vx = self.registers.get_v(x)?;
        let digit = vx & 0xF;
        assert(digit == vx % 16) by (bit_vector)
            requires
                digit == vx & 0xF,
        ;
        let font_addr = self.memory.get_font_address(digit)?;
        self.registers.set_i(font_addr);
        Ok(())
    }

    /// `Fx33`
    fn ld_b_vx(&mut self, x: u8) -> (result: Result<()>)
        requires
            x < 16,
        ensures
            (final(self)@, result) == old(self)@.op_bcd(x as int),
    {
        let vx = self.registers.get_v(x)?;
        let i = self.registers.get_i();
        let hundreds = vx / 100;
        let tens = (vx / 10) % 10;
        let ones = vx % 10;
        proof {
            reveal_with_fuel(store_registers, 4);
        }
        self.memory.write_byte(i, hundreds)?;
        self.memory.write_byte(i.wrapping_add(1), tens)?;
        self.memory.write_byte(i.wrapping_add(2), ones)?;
        Ok(())
    }

    /// `Fx55`
    fn ld_i_vx(&mut self, x: u8) -> (result: Result<()>)
        requires
            x < 16,
        ensures
            (final(self)@, result) == old(self)@.op_store(x as int),
    {
        let i = self.registers.get_i();
        let mut reg: u8 = 0;
        while reg <= x
            invariant
                reg <= x + 1,
                x < 16,
                i == old(self)@.registers.i,
                self@ == old(self)@.with_memory(self@.memory),
                (self@.memory, Ok::<(), EmulatorError>(())) == store_registers(
                    old(self)@.memory,
                    old(self)@.wraparound,
                    old(self)@.registers.v,
                    i,
                    reg as nat,
                ),
            decreases x + 1 - reg,
        {
            let value = self.registers.get_v(reg)?;
            match self.memory.write_byte(i.wrapping_add(reg as u16), value) {
                Ok(_) => {},
                Err(e) => {
                    proof {
                        lemma_store_stops(
                            old(self)@.memory,
                            old(self)@.wraparound,
                            old(self)@.registers.v,
                            i,
                            (reg + 1) as nat,
                            (x + 1) as nat,
                        );
                    }
                    return Err(e);
                },
            }
            reg += 1;
        }
        Ok(())
    }

    /// `Fx65`
    fn ld_vx_i(&mut self, x: u8) -> (result: Result<()>)
        requires
            x < 16,
        ensures
            (final(self)@, result) == old(self)@.op_load(x as int),
    {
        let i = self.registers.get_i();
        let mut reg: u8 = 0;
        proof {
            old(self).registers.lemma_len();
        }
        while reg <= x
            invariant
                reg <= x + 1,
                x < 16,
                i == old(self)@.registers.i,
                old(self)@.registers.v.len() == 16,
                self@ == old(self)@.with_registers(
                    (RegistersView { v: self@.registers.v, ..old(self)@.registers }),
                ),
                (self@.registers.v, Ok::<(), EmulatorError>(())) == load_registers(
                    old(self)@.memory,
                    old(self)@.wraparound,
                    old(self)@.registers.v,
                    i,
                    reg as nat,
                ),
            decreases x + 1 - reg,
        {
            match self.memory.read_byte(i.wrapping_add(reg as u16)) {
                Ok(value) => {
                    self.registers.set_v(reg, value)?;
                },
                Err(e) => {
                    proof {
                        lemma_load_stops(
                            old(self)@.memory,
                            old(self)@.wraparound,
                            old(self)@.registers.v,
                            i,
                            (reg + 1) as nat,
                            (x + 1) as nat,
                        );
                    }
                    return Err(e);
                },
            }
            reg += 1;
        }
        Ok(())
    }
}

impl Cpu {
    /// Executes an instruction of the `0` family.
    fn execute_system(&mut self, instruction: u16) -> (result: Result<()>)
        ensures
            (final(self)@, result) == old(self)@.executed_system(instruction),
    {
        if instruction == 0x00E0 {
            self.cls()
        } else if instruction == 0x00EE {
            self.ret()
        } else {
            Ok(())
        }
    }

    /// Executes the instruction `8xyn`.
    fn execute_arithmetic(&mut self, x: u8, y: u8, n: u8, instruction: u16) -> (result: Result<
        (),
    >)
        requires
            x < 16,
            y < 16,
        ensures
            (final(self)@, result) == old(self)@.executed_arithmetic(
                x as int,
                y as int,
                n as int,
                instruction,
            ),
    {
        match n {
            0x0 => self.ld_vx_vy(x, y),
            0x1 => self.or_vx_vy(x, y),
            0x2 => self.and_vx_vy(x, y),
            0x3 => self.xor_vx_vy(x, y),
            0x4 => self.add_vx_vy(x, y),
            0x5 => self.sub_vx_vy(x, y),
            0x6 => self.shr_vx(x),
            0x7 => self.subn_vx_vy(x, y),
            0xE => self.shl_vx(x),
            _ => Err(EmulatorError::UnknownInstruction { opcode: instruction }),
        }
    }

    /// Executes the instruction `Exnn`.
    fn execute_keys(&mut self, x: u8, nn: u8, instruction: u16) -> (result: Result<()>)
        requires
            x < 16,
        ensures
            exists|keys: Option<spec_fn(ChipKey) -> bool>|
                (keys is Some ==> old(self)@.has_input) && (final(self)@, result)
                    == #[trigger] old(self)@.executed_keys(x as int, nn, instruction, keys),
    {
        let ghost mut keys: Option<spec_fn(ChipKey) -> bool> = None;
        let result = match nn {
            0x9E => {
                let skipped = self.skp_vx(x);
                proof {
                    keys = choose|keys: Option<spec_fn(ChipKey) -> bool>|
                        (keys is Some ==> old(self)@.has_input) && self@ == #[trigger] old(
                            self,
                        )@.op_skp(x as int, keys);
                }
                skipped
            },
            0xA1 => {
                let skipped = self.sknp_vx(x);
                proof {
                    keys = choose|keys: Option<spec_fn(ChipKey) -> bool>|
                        (keys is Some ==> old(self)@.has_input) && self@ == #[trigger] old(
                            self,
                        )@.op_sknp(x as int, keys);
                }
                skipped
            },
            _ => Err(EmulatorError::UnknownInstruction { opcode: instruction }),
        };
        assert((self@, result) == old(self)@.executed_keys(x as int, nn, instruction, keys));
        result
    }

    /// Executes the instruction `Fxnn`.
    fn execute_misc(&mut self, x: u8, nn: u8, instruction: u16) -> (result: Result<()>)
        requires
            x < 16,
        ensures
            (final(self)@, result) == old(self)@.executed_misc(x as int, nn, instruction),
    {
        match nn {
            0x07 => self.ld_vx_dt(x),
            0x0A => self.ld_vx_k(x),
            0x15 => self.ld_dt_vx(x),
            0x18 => self.ld_st_vx(x),
            0x1E => self.add_i_vx(x),
            0x29 => self.ld_f_vx(x),
            0x33 => self.ld_b_vx(x),
            0x55 => self.ld_i_vx(x),
            0x65 => self.ld_vx_i(x),
            _ => Err(EmulatorError::UnknownInstruction { opcode: instruction }),
        }
    }

    /// Executes one instruction word. The program counter must already
    /// point behind the instruction.
    ///
    /// The machine follows `CpuView::executed`, for some outcomes of the
    /// random number generator, the keypad and the display; a word that is
    /// no instruction is refused with `UnknownInstruction`.
    pub fn execute_instruction(&mut self, instruction: u16) -> (result: Result<()>)
        ensures
            exists|o: Outcomes|
                old(self)@.admits(o) && (final(self)@, result) == #[trigger] old(self)@.executed(
                    instruction,
                    o,
                ),
    {
        let kind = ((instruction & 0xF000) >> 12) as u8;
        let x = ((instruction & 0x0F00) >> 8) as u8;
        let y = ((instruction & 0x00F0) >> 4) as u8;
        let n = (instruction & 0x000F) as u8;
        let nnn = instruction & 0x0FFF;
        let nn = (instruction & 0x00FF) as u8;
        assert(kind == instruction / 0x1000 && x == (instruction / 0x100) % 0x10 && y == (
        instruction / 0x10) % 0x10 && n == instruction % 0x10 && nn == instruction % 0x100 && nnn
            == instruction % 0x1000) by (bit_vector)
            requires
                kind == ((instruction & 0xF000) >> 12) as u8,
                x == ((instruction & 0x0F00) >> 8) as u8,
                y == ((instruction & 0x00F0) >> 4) as u8,
                n == (instruction & 0x000F) as u8,
                nn == (instruction & 0x00FF) as u8,
                nnn == instruction & 0x0FFF,
        ;
        let ghost mut o = Outcomes::none();
        let result = match (kind, n) {
            (0x0, _) => self.execute_system(instruction),
            (0x1, _) => self.jp(nnn),
            (0x2, _) => self.call(nnn),
            (0x3, _) => self.se_vx_nn(x, nn),
            (0x4, _) => self.sne_vx_nn(x, nn),
            (0x5, 0x0) => self.se_vx_vy(x, y),
            (0x6, _) => self.ld_vx_nn(x, nn),
            (0x7, _) => self.add_vx_nn(x, nn),
            (0x8, _) => self.execute_arithmetic(x, y, n, instruction),
            (0x9, 0x0) => self.sne_vx_vy(x, y),
            (0xA, _) => self.ld_i_nnn(nnn),
            (0xB, _) => self.jp_v0_nnn(nnn),
            (0xC, _) => {
                let byte = random_byte(&mut self.rng);
                proof {
                    o = Outcomes { random_byte: byte, ..o };
                }
                self.rnd_vx_nn(x, nn, byte)
            },
            (0xD, _) => {
                let drawn = self.drw(x, y, n);
                proof {
                    let accepted = choose|accepted: bool|
                        self@ == #[trigger] old(self)@.op_drw(
                            x as int,
                            y as int,
                            n as int,
                            accepted,
                        );
                    o = Outcomes { draw_accepted: accepted, ..o };
                }
                drawn
            },
            (0xE, _) => {
                let done = self.execute_keys(x, nn, instruction);
                proof {
                    let keys = choose|keys: Option<spec_fn(ChipKey) -> bool>|
                        (keys is Some ==> old(self)@.has_input) && (self@, done)
                            == #[trigger] old(self)@.executed_keys(
                            x as int,
                            nn,
                            instruction,
                            keys,
                        );
                    o = Outcomes { keys, ..o };
                }
                done
            },
            (0xF, _) => self.execute_misc(x, nn, instruction),
            _ => Err(EmulatorError::UnknownInstruction { opcode: instruction }),
        };
        assert(old(self)@.admits(o) && (self@, result) == old(self)@.executed(instruction, o));
        result
    }

    /// What a cycle does while the machine waits for a key: it looks at
    /// the keypad and tells the machine what it saw, so that the wait goes
    /// on as `CpuView::key_wait_step` says. No instruction is executed.
    fn await_key(&mut self) -> (result: Result<()>)
        ensures
            result == Ok::<(), EmulatorError>(()),
            exists|keys: Option<spec_fn(ChipKey) -> bool>|
                (keys is Some ==> old(self)@.has_input) && (final(self)@, result)
                    == #[trigger] old(self)@.key_wait_step(keys),
    {
        let ghost mut keys: Option<spec_fn(ChipKey) -> bool> = None;
        let result = match self.key_wait.state {
            KeyWait::NotWaiting => Ok(()),
            KeyWait::Press { register } => {
                match self.poll_first_key() {
                    Some(first) => {
                        proof {
                            let seen = |k: ChipKey| first == Some(k);
                            keys = Some(seen);
                            match first {
                                Some(key) => {
                                    assert(seen(key));
                                    let found = first_pressed(seen)->0;
                                    assert(seen(found));
                                },
                                None => {
                                    assert forall|k: ChipKey| !#[trigger] seen(k) by {}
                                },
                            }
                        }
                        self.note_press(first);
                    },
                    None => {},
                }
                Ok(())
            },
            KeyWait::Release { register, key } => {
                match self.poll_key(key) {
                    Some(down) => {
                        proof {
                            keys = Some(|k: ChipKey| down);
                        }
                        self.note_release(down)
                    },
                    None => Ok(()),
                }
            },
        };
        assert((self@, result) == old(self)@.key_wait_step(keys));
        result
    }

    /// Tells the audio sink, if there is one, whether the tone is due.
    /// What the sink answers is of no consequence to the machine.
    fn signal_audio(&mut self)
        ensures
            exists|accepted: bool, tone_if_refused: bool|
                final(self)@ == #[trigger] old(self)@.signalled(accepted, tone_if_refused),
    {
        let due = self.timers.get_sound_timer() > 0;
        let ghost mut accepted = false;
        let ghost mut tone_if_refused = false;
        match &mut self.audio {
            Some(audio) => {
                let answer = if due {
                    audio.play_beep()
                } else {
                    audio.stop_beep()
                };
                proof {
                    accepted = answer is Ok;
                    tone_if_refused = audio.playing();
                }
            },
            None => {},
        }
        assert(self@ == old(self)@.signalled(accepted, tone_if_refused));
    }

    /// Fetches the instruction at the program counter, moves the program
    /// counter behind it, executes it and counts it.
    fn step(&mut self) -> (result: Result<()>)
        ensures
            exists|o: Outcomes|
                old(self)@.admits(o) && (final(self)@, result) == #[trigger] old(self)@.stepped(o),
    {
        let pc = self.registers.get_pc();
        let instruction = match self.memory.read_word(pc) {
            Ok(word) => word,
            Err(e) => {
                assert(old(self)@.admits(Outcomes::none()) && (self@, Err::<(), EmulatorError>(e))
                    == old(self)@.stepped(Outcomes::none()));
                return Err(e);
            },
        };
        self.registers.increment_pc();
        let ghost fetched = self@;
        let result = self.execute_instruction(instruction);
        let ghost o = choose|o: Outcomes|
            fetched.admits(o) && (self@, result) == #[trigger] fetched.executed(instruction, o);
        match result {
            Ok(_) => {
                if self.instruction_count < u64::MAX {
                    self.instruction_count += 1;
                }
            },
            Err(_) => {},
        }
        assert(old(self)@.admits(o) && (self@, result) == old(self)@.stepped(o));
        result
    }

    /// Runs one cycle: the timers advance by the time that has passed, the
    /// audio sink is told whether the tone is due, and then either a wait
    /// for a key goes on or one instruction is fetched and executed.
    ///
    /// The machine follows `CpuView::cycled`, for some outcomes of the
    /// clock, the random number generator and the peripherals. The first
    /// failure is returned; what the instruction did before it failed
    /// stays done.
    ///
    /// A cycle of a machine that waits for a key never fails and executes
    /// nothing: program counter, instruction count, memory and stack stay
    /// as they are, also in the cycle that ends the wait. What the keypad
    /// showed is handed to `note_press` and `note_release`.
    pub fn cycle(&mut self) -> (result: Result<()>)
        ensures
            exists|o: Outcomes|
                old(self)@.admits(o) && (final(self)@, result) == #[trigger] old(self)@.cycled(o),
            old(self)@.key_wait.names_a_register(),
            final(self)@.key_wait.names_a_register(),
            old(self)@.key_wait != KeyWait::NotWaiting ==> result == Ok::<(), EmulatorError>(())
                && final(self)@.registers.pc == old(self)@.registers.pc
                && final(self)@.instruction_count == old(self)@.instruction_count
                && final(self)@.memory == old(self)@.memory && final(self)@.stack == old(
                self,
            )@.stack,
    {
        proof {
            use_type_invariant(&self.key_wait);
        }
        let changed = self.timers.update();
        let ghost elapsed = choose|elapsed: nat|
            self.timers@ == old(self)@.timers.after(elapsed) && changed == old(
                self,
            )@.timers.decrements(#[trigger] old(self)@.timers.ticks_due(elapsed));
        let ghost updated = self@;
        self.signal_audio();
        let ghost (accepted, tone_if_refused) = choose|accepted: bool, tone_if_refused: bool|
            self@ == #[trigger] updated.signalled(accepted, tone_if_refused);
        let ghost ticked = self@;
        let waiting = self.is_waiting_for_key();
        if waiting {
            let result = self.await_key();
            proof {
                let keys = choose|keys: Option<spec_fn(ChipKey) -> bool>|
                    (keys is Some ==> ticked.has_input) && (self@, result)
                        == #[trigger] ticked.key_wait_step(keys);
                let o = Outcomes {
                    elapsed_nanos: elapsed,
                    audio_accepted: accepted,
                    tone_if_refused,
                    keys,
                    ..Outcomes::none()
                };
                assert(ticked == old(self)@.ticked(o));
                assert(old(self)@.admits(o) && (self@, result) == old(self)@.cycled(o));
                lemma_waiting_machine_holds_still(old(self)@, o);
                use_type_invariant(&self.key_wait);
            }
            result
        } else {
            let result = self.step();
            proof {
                let stepped = choose|o: Outcomes|
                    ticked.admits(o) && (self@, result) == #[trigger] ticked.stepped(o);
                let o = Outcomes {
                    elapsed_nanos: elapsed,
                    audio_accepted: accepted,
                    tone_if_refused,
                    ..stepped
                };
                assert(ticked == old(self)@.ticked(o));
                assert(ticked.stepped(o) == ticked.stepped(stepped));
                assert(old(self)@.admits(o) && (self@, result) == old(self)@.cycled(o));
                use_type_invariant(&self.key_wait);
            }
            result
        }
    }

    /// The pixels of the attached display, row by row; nothing without a
    /// display.
    pub fn get_display_buffer(&self) -> (buffer: &[bool])
        ensures
            buffer@ == (match self@.screen {
                Some(screen) => screen.pixels,
                None => Seq::empty(),
            }),
    {
        match &self.display {
            Some(display) => display.get_buffer(),
            None => &[],
        }
    }
}

} // verus!
