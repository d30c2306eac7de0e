//! A machine with a speed and a running flag, for drivers that only want
//! to load a program and run it.

use crate::emulator::cpu::{initial_machine, Cpu};
use crate::emulator::machine::{
    lemma_cycle_keeps_the_screen, CpuView, KeyWait, Outcomes, ScreenView,
};
use crate::emulator::memory::{initial_contents, loaded};
use crate::error::{EmulatorError, Result};
use crate::frontend::cli::{color_written, is_invalid_color, parse_hex_color, without_number_signs};
use crate::frontend::config::EmulatorBehaviorConfig;
use crate::graphics::renderer::{rendered, GraphicsConfig, PixelRenderer};
use crate::hardware::display::{blank, SoftwareDisplay};
use vstd::prelude::*;
use vstd::utf8::encode_utf8;

verus! {

/// Whether `count` cycles that all succeed can lead from the machine
/// `from` to the machine `to`.
pub open spec fn runs_to(from: CpuView, to: CpuView, count: nat) -> bool
    decreases count,
{
    if count == 0 {
        from == to
    } else {
        exists|before: CpuView, o: Outcomes|
            runs_to(from, before, (count - 1) as nat) && before.admits(o)
                && #[trigger] before.cycled(o) == (to, Ok::<(), EmulatorError>(()))
    }
}

/// Whether fewer than `limit` cycles that succeed, followed by one that
/// fails with `error`, can lead from the machine `from` to the machine
/// `to`.
pub open spec fn fails_at(from: CpuView, to: CpuView, limit: nat, error: EmulatorError) -> bool {
    exists|done: nat, before: CpuView, o: Outcomes|
        done < limit && #[trigger] runs_to(from, before, done) && before.admits(o)
            && #[trigger] before.cycled(o) == (to, Err::<(), EmulatorError>(error))
}

/// A machine, the speed at which it is meant to run, and whether it runs.
pub struct SimpleEmulator {
    cpu: Cpu,
    running: bool,
    target_cps: u32,
}

impl SimpleEmulator {
    /// The machine.
    pub closed spec fn machine(&self) -> CpuView {
        self.cpu@
    }

    /// Whether the emulator runs.
    pub closed spec fn running(&self) -> bool {
        self.running
    }

    /// The cycles per second that the emulator is meant to run at.
    pub closed spec fn speed(&self) -> u32 {
        self.target_cps
    }

    /// Creates an emulator with a new machine, at rest, meant to run at 700
    /// cycles per second.
    pub fn new() -> (emulator: Self)
        ensures
            emulator.machine() == initial_machine(false),
            !emulator.running(),
            emulator.speed() == 700,
    {
        Self { cpu: Cpu::new(), running: false, target_cps: 700 }
    }

    /// Creates an emulator with a new machine that behaves as `config`
    /// says and is meant to run at the speed that `config` gives.
    pub fn new_with_config(config: &EmulatorBehaviorConfig) -> (emulator: Self)
        ensures
            emulator.machine() == initial_machine(config.memory_wraparound),
            !emulator.running(),
            emulator.speed() == config.cpu_speed,
    {
        Self { cpu: Cpu::new_with_config(config), running: false, target_cps: config.cpu_speed }
    }

    /// Makes machine and speed follow `config`.
    pub fn configure(&mut self, config: &EmulatorBehaviorConfig)
        ensures
            final(self).machine() == (CpuView {
                wraparound: config.memory_wraparound,
                ..old(self).machine()
            }),
            final(self).speed() == config.cpu_speed,
            final(self).running() == old(self).running(),
    {
        self.cpu.configure(config);
        self.target_cps = config.cpu_speed;
    }

    /// Loads a program into the machine, as `Cpu::load_rom` does. Reading
    /// the program from a file is the caller's affair.
    pub fn load_rom(&mut self, rom_data: &[u8]) -> (result: Result<()>)
        ensures
            final(self).running() == old(self).running(),
            final(self).speed() == old(self).speed(),
            rom_data@.len() == 0 ==> result == Err::<(), EmulatorError>(EmulatorError::RomEmpty)
                && final(self).machine() == old(self).machine(),
            rom_data@.len() > 3584 ==> result == Err::<(), EmulatorError>(
                (EmulatorError::RomTooLarge { size: rom_data.len(), max_size: 3584 }),
            ) && final(self).machine() == old(self).machine(),
            0 < rom_data@.len() <= 3584 ==> result == Ok::<(), EmulatorError>(())
                && final(self).machine() == (CpuView {
                memory: loaded(old(self).machine().memory, rom_data@, 0x200),
                registers: old(self).machine().registers.with_pc(0x200),
                ..old(self).machine()
            }),
    {
        self.cpu.load_rom(rom_data)
    }

    /// Runs one cycle of the machine, as `Cpu::cycle` does; the emulator
    /// runs from then on.
    pub fn step(&mut self) -> (result: Result<()>)
        ensures
            final(self).running(),
            final(self).speed() == old(self).speed(),
            exists|o: Outcomes|
                old(self).machine().admits(o) && (final(self).machine(), result)
                    == #[trigger] old(self).machine().cycled(o),
            old(self).machine().key_wait != KeyWait::NotWaiting ==> result == Ok::<
                (),
                EmulatorError,
            >(()) && final(self).machine().registers.pc == old(self).machine().registers.pc
                && final(self).machine().instruction_count == old(
                self,
            ).machine().instruction_count && final(self).machine().memory == old(
                self,
            ).machine().memory && final(self).machine().stack == old(self).machine().stack,
    {
        self.running = true;
        self.cpu.cycle()
    }

    /// Runs `cycles` cycles, or as many as succeed: the first failure ends
    /// the run and is returned. The emulator runs from the first cycle on.
    pub fn run_cycles(&mut self, cycles: u32) -> (result: Result<()>)
        ensures
            final(self).speed() == old(self).speed(),
            final(self).running() == (old(self).running() || cycles > 0),
            result is Ok ==> runs_to(old(self).machine(), final(self).machine(), cycles as nat),
            result matches Err(error) ==> fails_at(
                old(self).machine(),
                final(self).machine(),
                cycles as nat,
                error,
            ),
    {
        let mut done: u32 = 0;
        while done < cycles
            invariant
                done <= cycles,
                self.speed() == old(self).speed(),
                self.running() == (old(self).running() || done > 0),
                runs_to(old(self).machine(), self.machine(), done as nat),
            decreases cycles - done,
        {
            let ghost before = self.machine();
            match self.step() {
                Ok(_) => {
                    proof {
                        let o = choose|o: Outcomes|
                            before.admits(o) && (self.machine(), Ok::<(), EmulatorError>(()))
                                == #[trigger] before.cycled(o);
                        assert(before.cycled(o) == (self.machine(), Ok::<(), EmulatorError>(())));
                    }
                },
                Err(error) => {
                    proof {
                        let o = choose|o: Outcomes|
                            before.admits(o) && (self.machine(), Err::<(), EmulatorError>(error))
                                == #[trigger] before.cycled(o);
                        assert(before.cycled(o) == (
                            self.machine(),
                            Err::<(), EmulatorError>(error),
                        ));
                    }
                    return Err(error);
                },
            }
            done += 1;
        }
        Ok(())
    }

    /// The machine.
    pub fn cpu(&self) -> (cpu: &Cpu)
        ensures
            cpu@ == self.machine(),
    {
        &self.cpu
    }

    /// The machine, to be changed in place.
    pub fn cpu_mut(&mut self) -> (cpu: &mut Cpu)
        ensures
            cpu@ == old(self).machine(),
            final(self).machine() == final(cpu)@,
            final(self).running() == old(self).running(),
            final(self).speed() == old(self).speed(),
    {
        &mut self.cpu
    }

    /// Sets the cycles per second that the emulator is meant to run at.
    pub fn set_target_cps(&mut self, cps: u32)
        ensures
            final(self).speed() == cps,
            final(self).machine() == old(self).machine(),
            final(self).running() == old(self).running(),
    {
        self.target_cps = cps;
    }

    /// The cycles per second that the emulator is meant to run at.
    pub fn target_cps(&self) -> (cps: u32)
        ensures
            cps == self.speed(),
    {
        self.target_cps
    }

    /// Whether the emulator runs.
    pub fn is_running(&self) -> (running: bool)
        ensures
            running == self.running(),
    {
        self.running
    }

    /// Stops the emulator.
    pub fn stop(&mut self)
        ensures
            !final(self).running(),
            final(self).machine() == old(self).machine(),
            final(self).speed() == old(self).speed(),
    {
        self.running = false;
    }

    /// The pixels of the machine's display, row by row; nothing without a
    /// display.
    pub fn get_display_buffer(&self) -> (buffer: &[bool])
        ensures
            buffer@ == (match self.machine().screen {
                Some(screen) => screen.pixels,
                None => Seq::empty(),
            }),
    {
        self.cpu.get_display_buffer()
    }
}

impl Default for SimpleEmulator {
    fn default() -> (emulator: Self)
        ensures
            emulator.machine() == initial_machine(false),
            !emulator.running(),
            emulator.speed() == 700,
    {
        Self::new()
    }
}

/// Law: a run neither attaches nor detaches a display, and it keeps the
/// display's size.
pub proof fn lemma_run_keeps_the_screen(from: CpuView, to: CpuView, count: nat)
    requires
        runs_to(from, to, count),
        from.screen is Some,
        from.screen->0.pixels.len() == 2048,
    ensures
        to.screen is Some,
        to.screen->0.pixels.len() == 2048,
    decreases count,
{
    if count > 0 {
        let (before, o) = choose|before: CpuView, o: Outcomes|
            runs_to(from, before, (count - 1) as nat) && before.admits(o)
                && #[trigger] before.cycled(o) == (to, Ok::<(), EmulatorError>(()));
        lemma_run_keeps_the_screen(from, before, (count - 1) as nat);
        lemma_cycle_keeps_the_screen(before, o);
    }
}

/// A frame with its width and its height in frame pixels.
pub struct Screenshot {
    /// The frame: four bytes for each frame pixel, row by row.
    pub frame: Vec<u8>,
    /// Width in frame pixels.
    pub width: u32,
    /// Height in frame pixels.
    pub height: u32,
}

/// The machine on which a program runs for a capture: a new machine with
/// a blank display attached and the program loaded.
pub open spec fn ready_machine(rom: Seq<u8>) -> CpuView {
    CpuView {
        screen: Some(ScreenView { pixels: blank(), dirty: false }),
        memory: loaded(initial_contents(), rom, 0x200),
        ..initial_machine(false)
    }
}

/// What a text says as a colour.
pub open spec fn color_of(text: Seq<char>) -> Option<crate::graphics::renderer::Color> {
    color_written(encode_utf8(without_number_signs(text)))
}

/// Runs a program on a new machine with a display for `cycles` cycles and
/// renders what the display shows then, in the given colours and at the
/// given scale. The scale must not be above `MAX_SCALE_FACTOR`.
///
/// The colours are read first, the foreground before the background; then
/// the program is loaded; then it runs. A failure of any of these ends the
/// capture and is returned.
pub fn capture_frame(
    rom_data: &[u8],
    cycles: u32,
    scale: u32,
    foreground: &str,
    background: &str,
) -> (result: Result<Screenshot>)
    requires
        scale <= 724,
    ensures
        color_of(foreground@) is None ==> result is Err && is_invalid_color(
            result->Err_0,
            without_number_signs(foreground@),
        ),
        color_of(foreground@) is Some && color_of(background@) is None ==> result is Err
            && is_invalid_color(result->Err_0, without_number_signs(background@)),
        color_of(foreground@) is Some && color_of(background@) is Some && rom_data@.len() == 0
            ==> result == Err::<Screenshot, EmulatorError>(EmulatorError::RomEmpty),
        color_of(foreground@) is Some && color_of(background@) is Some && rom_data@.len() > 3584
            ==> result == Err::<Screenshot, EmulatorError>(
            (EmulatorError::RomTooLarge { size: rom_data.len(), max_size: 3584 }),
        ),
        color_of(foreground@) is Some && color_of(background@) is Some && 0 < rom_data@.len()
            <= 3584 ==> match result {
            Ok(shot) => shot.width == 64 * scale && shot.height == 32 * scale && exists|
                end: CpuView,
            |
                #[trigger] runs_to(ready_machine(rom_data@), end, cycles as nat) && end.screen
                    is Some && shot.frame@ == rendered(
                    end.screen->0.pixels,
                    scale as nat,
                    color_of(foreground@)->0,
                    color_of(background@)->0,
                ),
            Err(error) => exists|end: CpuView|
                #[trigger] fails_at(ready_machine(rom_data@), end, cycles as nat, error),
        },
{
    let fg_color = parse_hex_color(foreground)?;
    let bg_color = parse_hex_color(background)?;
    let mut emulator = SimpleEmulator::new();
    emulator.cpu.set_display(Box::new(SoftwareDisplay::new()));
    emulator.load_rom(rom_data)?;
    assert(emulator.machine() == ready_machine(rom_data@));
    match emulator.run_cycles(cycles) {
        Ok(_) => {},
        Err(error) => {
            assert(fails_at(ready_machine(rom_data@), emulator.machine(), cycles as nat, error));
            return Err(error);
        },
    }
    let ghost end = emulator.machine();
    proof {
        lemma_run_keeps_the_screen(ready_machine(rom_data@), end, cycles as nat);
    }
    let graphics_config = GraphicsConfig::new().with_foreground_color(
        fg_color,
    ).with_background_color(bg_color).with_scale_factor(scale);
    let mut renderer = match PixelRenderer::new(graphics_config) {
        Ok(renderer) => renderer,
        Err(e) => {
            return Err(EmulatorError::Graphics(e));
        },
    };
    let display_buffer = emulator.get_display_buffer();
    match renderer.render(display_buffer) {
        Ok(_) => {},
        Err(e) => {
            return Err(EmulatorError::Graphics(e));
        },
    }
    let (width, height) = renderer.frame_size();
    let mut frame: Vec<u8> = Vec::new();
    let rendered_frame = renderer.frame_buffer();
    let mut k: usize = 0;
    while k < rendered_frame.len()
        invariant
            k <= rendered_frame@.len(),
            frame@ == rendered_frame@.take(k as int),
        decreases rendered_frame@.len() - k,
    {
        frame.push(rendered_frame[k]);
        k += 1;
        assert(frame@ =~= rendered_frame@.take(k as int));
    }
    assert(rendered_frame@.take(rendered_frame@.len() as int) =~= rendered_frame@);
    assert(runs_to(ready_machine(rom_data@), end, cycles as nat));
    Ok(Screenshot { frame, width, height })
}

} // verus!
