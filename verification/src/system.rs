use vstd::prelude::*;

use crate::apu::{Apu, AudioOutput};
use crate::bus::Bus;
use crate::cpu::cpu::CLOCK_SPEED;
use crate::cpu::Cpu;
use crate::error::Error;
use crate::bitops::{lemma_byte_or, lemma_byte_or_regroup};
use crate::interrupt::{flag_bit, InterruptFlag, InterruptHandler};
use crate::joypad::{Button, Joypad};
use crate::ppu::{Pixel, Ppu, Screen};
use crate::rom::header::cartridge_type_of;
use crate::rom::rom::{fresh_controller, supported_cartridge, HEADER_CARTRIDGE_TYPE};
use crate::rom::Rom;
use crate::region::{HRAM_REGION_SIZE, ROM_REGION_SIZE, WRAM_REGION_SIZE};
use crate::serial::{Serial, SerialOutput, FLAG_SC_TRANSFER};
use crate::timer::Timer;

verus! {

/// Frames per second after power-on
pub const DEFAULT_FRAME_RATE: u32 = 60;

/// The timer after `n` T-cycles, and whether it overflowed in them.
pub open spec fn timer_after(t: Timer, n: nat) -> Timer
    decreases n,
{
    if n == 0 {
        t
    } else {
        timer_after(t, (n - 1) as nat).stepped().0
    }
}

/// The interrupt bits that `n` T-cycles of the timer raise.
pub open spec fn timer_irq_after(t: Timer, n: nat) -> u8
    decreases n,
{
    if n == 0 {
        0
    } else {
        let bit = if timer_after(t, (n - 1) as nat).stepped().1 {
            flag_bit(InterruptFlag::TimerOverflow)
        } else {
            0u8
        };
        timer_irq_after(t, (n - 1) as nat) | bit
    }
}

/// `states` are the PPU states of a run of dots from `p`: each one a dot after the last.
pub open spec fn ppu_run(p: Ppu, states: Seq<Ppu>) -> bool {
    &&& states.len() >= 1
    &&& states[0] == p
    &&& forall|k: int| 0 <= k < states.len() - 1 ==> #[trigger] states[k].dot(states[k + 1])
}

/// The interrupt bits raised by the first `n` dots of a run.
pub open spec fn run_irq(states: Seq<Ppu>, n: nat) -> u8
    decreases n,
{
    if n == 0 {
        0
    } else {
        run_irq(states, (n - 1) as nat) | states[n - 1].dot_irq()
    }
}

/// The bus after the devices ran `t` T-cycles from `b` (the PPU reaching `p` and raising
/// `pirq`), then the serial port sent a pending byte and the OAM DMA moved one byte.
pub open spec fn devices_after(b: Bus, p: Ppu, pirq: u8, t: nat) -> Bus {
    let mid = Bus {
        ppu: p,
        apu: apu_after(b.apu, t),
        timer: timer_after(b.timer, t),
        it: InterruptHandler { reg_if: (b.it.reg_if | pirq) | timer_irq_after(b.timer, t), ..b.it },
        ..b
    };
    let sent = if mid.serial.transfer_pending() {
        Bus {
            serial: Serial { reg_sc: mid.serial.reg_sc & !FLAG_SC_TRANSFER, ..mid.serial },
            it: mid.it.requested(InterruptFlag::Serial),
            ..mid
        }
    } else {
        mid
    };
    sent.dma_ticked()
}

/// One T-cycle of the PPU and the timer keeps the account of the interrupt bits raised.
proof fn lemma_tick(b: Bus, states: Seq<Ppu>, i: nat, r: u8, t0: Timer, r2: u8)
    requires
        i < states.len(),
        r == (b.it.reg_if | run_irq(states, i)) | timer_irq_after(b.timer, i),
        t0 == timer_after(b.timer, i),
        r2 == (if t0.stepped().1 {
            (r | states[i as int].dot_irq()) | flag_bit(InterruptFlag::TimerOverflow)
        } else {
            r | states[i as int].dot_irq()
        }),
    ensures
        r2 == (b.it.reg_if | run_irq(states, i + 1)) | timer_irq_after(b.timer, i + 1),
{
    let d = states[i as int].dot_irq();
    let tb = if t0.stepped().1 {
        flag_bit(InterruptFlag::TimerOverflow)
    } else {
        0u8
    };
    lemma_byte_or(r | d, 0u8, 0u8);
    lemma_byte_or_regroup(b.it.reg_if, run_irq(states, i), timer_irq_after(b.timer, i), d, tb);
}

/// The interrupt bits of a run depend only on its states so far.
proof fn lemma_run_irq_prefix(states: Seq<Ppu>, more: Seq<Ppu>, n: nat)
    requires
        n <= states.len() <= more.len(),
        states == more.take(states.len() as int),
    ensures
        run_irq(more, n) == run_irq(states, n),
    decreases n,
{
    if n > 0 {
        lemma_run_irq_prefix(states, more, (n - 1) as nat);
        assert(more.take(states.len() as int)[n - 1] == more[n - 1]);
    }
}

/// The screen `frame` once the pixels drawn by the first `n` dots of a run were set on it.
pub open spec fn frame_over(frame: Map<(u8, u8), Pixel>, states: Seq<Ppu>, n: nat) -> Map<
    (u8, u8),
    Pixel,
>
    decreases n,
{
    if n == 0 {
        frame
    } else {
        let m = frame_over(frame, states, (n - 1) as nat);
        match states[n - 1].drawn() {
            Some((px, x, y)) => m.insert((x, y), px),
            None => m,
        }
    }
}

/// The frame of a run depends only on its states so far.
proof fn lemma_frame_over_prefix(frame: Map<(u8, u8), Pixel>, states: Seq<Ppu>, more: Seq<Ppu>, n: nat)
    requires
        n <= states.len() <= more.len(),
        states == more.take(states.len() as int),
    ensures
        frame_over(frame, more, n) == frame_over(frame, states, n),
    decreases n,
{
    if n > 0 {
        lemma_frame_over_prefix(frame, states, more, (n - 1) as nat);
        assert(more.take(states.len() as int)[n - 1] == more[n - 1]);
    }
}

/// The levels that the sound controller hands to its output in `n` T-cycles from `a`.
pub open spec fn samples_over(a: Apu, n: nat) -> Seq<(i16, i16)>
    decreases n,
{
    if n == 0 {
        Seq::empty()
    } else {
        let prev = samples_over(a, (n - 1) as nat);
        match apu_after(a, (n - 1) as nat).step_sample() {
            Some(p) => prev.push(p),
            None => prev,
        }
    }
}

/// The bytes that the serial port `s` sends in a step: its data byte, when a transfer is
/// pending.
pub open spec fn serial_sent(s: Serial) -> Seq<u8> {
    if s.transfer_pending() {
        seq![s.reg_sb]
    } else {
        Seq::empty()
    }
}

/// The sum of the first `n` entries of `ticks`.
pub open spec fn tick_sum(ticks: Seq<u8>, n: nat) -> nat
    decreases n,
{
    if n == 0 || n > ticks.len() {
        0
    } else {
        tick_sum(ticks, (n - 1) as nat) + ticks[n - 1] as nat
    }
}

/// A sum over a prefix depends only on the prefix.
proof fn lemma_tick_sum_prefix(ticks: Seq<u8>, more: Seq<u8>, n: nat)
    requires
        n <= ticks.len() <= more.len(),
        ticks == more.take(ticks.len() as int),
    ensures
        tick_sum(more, n) == tick_sum(ticks, n),
    decreases n,
{
    if n > 0 {
        lemma_tick_sum_prefix(ticks, more, (n - 1) as nat);
        assert(more.take(ticks.len() as int)[n - 1] == more[n - 1]);
    }
}

/// The sound controller after `n` T-cycles.
pub open spec fn apu_after(a: Apu, n: nat) -> Apu
    decreases n,
{
    if n == 0 {
        a
    } else {
        apu_after(a, (n - 1) as nat).stepped().0
    }
}

/// Whether an image can be loaded: too short (refused with an error) or of a supported
/// cartridge type.
pub open spec fn loadable(bytes: Seq<u8>) -> bool {
    bytes.len() >= ROM_REGION_SIZE ==> supported_cartridge(
        cartridge_type_of(bytes[HEADER_CARTRIDGE_TYPE as int]),
    )
}

/// The whole console: CPU, bus and the outside devices it drives.
pub struct System<S: Screen, SO: SerialOutput, AO: AudioOutput> {
    /// Address bus
    pub bus: Bus,
    /// To execute instructions
    pub cpu: Cpu,
    /// A screen to give to the PPU
    pub screen: S,
    /// A serial output to give to the serial controller
    pub serial_output: SO,
    /// An audio output
    pub speaker: AO,
    /// Keep the number of cycles before a frame is refreshed
    pub cycles_per_frame: u32,
}

impl<S: Screen, SO: SerialOutput, AO: AudioOutput> System<S, SO, AO> {
    pub open spec fn wf(&self) -> bool {
        &&& self.bus.wf()
        &&& 1 <= self.cycles_per_frame <= CLOCK_SPEED
    }

    /// The console after a reset of every device but the sound controller and the
    /// cartridge.
    pub open spec fn is_reset_of(self, before: Self) -> bool {
        &&& self.cpu == Cpu::initial()
        &&& self.bus.timer == Timer::initial()
        &&& self.bus.serial == Serial::initial()
        &&& self.bus.joypad == Joypad::initial()
        &&& self.bus.it == InterruptHandler::initial()
        &&& self.bus.ppu.is_initial()
        &&& self.bus.apu == before.bus.apu
        &&& self.bus.wram == before.bus.wram
        &&& self.bus.hram == before.bus.hram
        &&& self.cycles_per_frame == before.cycles_per_frame
        &&& self.screen == before.screen
        &&& self.serial_output == before.serial_output
        &&& self.speaker == before.speaker
    }

    pub fn new(rom: Rom, screen: S, serial_output: SO, speaker: AO) -> (s: Self)
        requires
            rom.wf(),
        ensures
            s.wf(),
            s.cpu == Cpu::initial(),
            s.bus.rom == rom,
            s.bus.ppu.is_initial(),
            s.bus.apu == Apu::initial(),
            s.bus.joypad == Joypad::initial(),
            s.bus.serial == Serial::initial(),
            s.bus.timer == Timer::initial(),
            s.bus.it == InterruptHandler::initial(),
            s.bus.wram.bytes@ == Seq::new(WRAM_REGION_SIZE as nat, |i: int| 0u8),
            s.bus.hram.bytes@ == Seq::new(HRAM_REGION_SIZE as nat, |i: int| 0u8),
            s.cycles_per_frame == CLOCK_SPEED / DEFAULT_FRAME_RATE,
            s.screen == screen,
            s.serial_output == serial_output,
            s.speaker == speaker,
    {
        let bus = Bus::new(rom);
        let cpu = Cpu::new();
        System {
            bus,
            cpu,
            screen,
            serial_output,
            speaker,
            cycles_per_frame: CLOCK_SPEED / DEFAULT_FRAME_RATE,
        }
    }

    /// `next` is the console after one step from `self`, which took `ticks` T-cycles: the
    /// CPU runs one instruction (or services an interrupt, or idles while halted), then
    /// the sound controller, the PPU and the timer run as many T-cycles, the serial port
    /// sends a pending byte and the OAM DMA moves one byte.  The outside devices are left
    /// out.
    pub open spec fn stepped(self, next: Self, ticks: u8) -> bool {
        let (c, b, t) = self.cpu.spec_step(self.bus);
        &&& ticks == t
        &&& next.cpu == c
        &&& next.bus.rom == b.rom
        &&& next.bus.wram == b.wram
        &&& next.bus.hram == b.hram
        &&& next.bus.joypad == b.joypad
        &&& next.bus.apu == apu_after(b.apu, t as nat)
        &&& next.bus.timer == timer_after(b.timer, t as nat)
        &&& next.bus.it.reg_ie == b.it.reg_ie
        &&& exists|states: Seq<Ppu>|
            {
                &&& states.len() == t + 1
                &&& #[trigger] ppu_run(b.ppu, states)
                &&& next.bus == devices_after(b, states.last(), run_irq(states, t as nat), t as nat)
                &&& self.screen.keeps_output() ==> next.screen.frame() == frame_over(
                    self.screen.frame(),
                    states,
                    t as nat,
                ) && next.screen.updates() == self.screen.updates()
            }
        &&& next.cycles_per_frame == self.cycles_per_frame
        &&& next.screen.keeps_output() == self.screen.keeps_output()
        &&& next.speaker.keeps_output() == self.speaker.keeps_output()
        &&& next.serial_output.keeps_output() == self.serial_output.keeps_output()
        &&& self.speaker.keeps_output() ==> next.speaker.levels() == self.speaker.levels()
            + samples_over(b.apu, t as nat)
        &&& self.serial_output.keeps_output() ==> next.serial_output.sent()
            == self.serial_output.sent() + serial_sent(b.serial)
    }

    /// `trace` holds the consoles of a run of steps from `self`, and `ticks` the T-cycles
    /// of each step.
    pub open spec fn step_run(self, trace: Seq<Self>, ticks: Seq<u8>) -> bool {
        &&& trace.len() == ticks.len() + 1
        &&& trace[0] == self
        &&& forall|k: int|
            0 <= k < ticks.len() ==> #[trigger] trace[k].stepped(trace[k + 1], ticks[k])
    }

    /// Reset the CPU and the devices (the cartridge and the sound controller stay).
    pub fn reset(&mut self)
        requires
            old(self).wf(),
        ensures
            final(self).wf(),
            final(self).is_reset_of(*old(self)),
            final(self).bus.rom == old(self).bus.rom,
    {
        self.bus.ppu.reset();
        self.bus.timer.reset();
        self.bus.serial.reset();
        self.bus.joypad.reset();
        self.bus.it.reset();
        self.cpu.reset();
    }

    /// Replace the cartridge with a new image, then reset.  An image shorter than 32KB is
    /// refused and nothing changes.
    pub fn load_bin(&mut self, bytes: Vec<u8>) -> (r: Result<(), Error>)
        requires
            old(self).wf(),
            loadable(bytes@),
        ensures
            final(self).wf(),
            r is Err <==> bytes@.len() < ROM_REGION_SIZE,
            r matches Err(e) ==> e == Error::InvalidRomSize(bytes@.len() as usize)
                && *final(self) == *old(self),
            r is Ok ==> final(self).is_reset_of(*old(self)) && final(self).bus.rom.storage@
                == bytes@ && fresh_controller(
                final(self).bus.rom.mbc_ctrl,
                cartridge_type_of(bytes@[HEADER_CARTRIDGE_TYPE as int]),
            ),
    {
        let rom = match Rom::load(bytes) {
            Ok(rom) => rom,
            Err(e) => {
                return Err(e);
            },
        };
        self.reset();
        self.bus.set_rom(rom);
        Ok(())
    }

    /// Insert a new cartridge, then reset.
    pub fn load_rom(&mut self, rom: Rom)
        requires
            old(self).wf(),
            rom.wf(),
        ensures
            final(self).wf(),
            final(self).bus.rom == rom,
            final(self).is_reset_of(*old(self)),
    {
        self.bus.set_rom(rom);
        self.reset();
    }

    /// Single step to execute cpu, ppu, timer, serial & dma: one instruction, then as many
    /// T-cycles of the sound controller, the PPU and the timer as it took.  The number of
    /// T-cycles is returned.
    #[verifier::spinoff_prover]
    #[verifier::rlimit(40)]
    pub fn step(&mut self) -> (ticks: u8)
        requires
            old(self).wf(),
        ensures
            final(self).wf(),
            old(self).stepped(*final(self), ticks),
            4 <= ticks <= 24,
    {
        proof {
            lemma_step_ticks(self.cpu, self.bus);
        }
        let ticks = self.cpu.step(&mut self.bus);
        let ghost b = self.bus;
        let ghost mut states: Seq<Ppu> = seq![b.ppu];
        proof {
            lemma_byte_or(b.it.reg_if, 0u8, 0u8);
        }
        let mut i: u8 = 0;
        while i < ticks
            invariant
                i <= ticks,
                self.bus.wf(),
                1 <= self.cycles_per_frame <= CLOCK_SPEED,
                self.bus.rom == b.rom,
                self.bus.wram == b.wram,
                self.bus.hram == b.hram,
                self.bus.joypad == b.joypad,
                self.bus.serial == b.serial,
                self.bus.apu == apu_after(b.apu, i as nat),
                self.bus.timer == timer_after(b.timer, i as nat),
                self.bus.it.reg_ie == b.it.reg_ie,
                self.cycles_per_frame == old(self).cycles_per_frame,
                self.cpu == old(self).cpu.spec_step(old(self).bus).0,
                states.len() == i + 1,
                ppu_run(b.ppu, states),
                states.last() == self.bus.ppu,
                self.bus.it.reg_if == (b.it.reg_if | run_irq(states, i as nat)) | timer_irq_after(
                    b.timer,
                    i as nat,
                ),
                self.bus == (Bus {
                    ppu: self.bus.ppu,
                    apu: self.bus.apu,
                    timer: self.bus.timer,
                    it: InterruptHandler { reg_if: self.bus.it.reg_if, ..b.it },
                    ..b
                }),
                self.serial_output == old(self).serial_output,
                self.screen.keeps_output() == old(self).screen.keeps_output(),
                old(self).screen.keeps_output() ==> self.screen.frame() == frame_over(
                    old(self).screen.frame(),
                    states,
                    i as nat,
                ) && self.screen.updates() == old(self).screen.updates(),
                self.speaker.keeps_output() == old(self).speaker.keeps_output(),
                old(self).speaker.keeps_output() ==> self.speaker.levels() == old(
                    self,
                ).speaker.levels() + samples_over(b.apu, i as nat),
            decreases ticks - i,
        {
            let ghost m = self.bus.ppu;
            let ghost t0 = self.bus.timer;
            let ghost r = self.bus.it.reg_if;
            let ghost l0 = self.speaker.levels();
            self.bus.apu.step(&mut self.speaker);
            self.bus.ppu.step(&mut self.screen, &mut self.bus.it);
            self.bus.timer.step(&mut self.bus.it);
            proof {
                let ghost before = states;
                states = states.push(self.bus.ppu);
                assert(before =~= states.take(before.len() as int));
                lemma_run_irq_prefix(before, states, i as nat);
                lemma_frame_over_prefix(old(self).screen.frame(), before, states, i as nat);
                lemma_tick(b, states, i as nat, r, t0, self.bus.it.reg_if);
                assert(states[i as int] == m);
                if old(self).speaker.keeps_output() {
                    match apu_after(b.apu, i as nat).step_sample() {
                        Some(p) => {
                            assert(self.speaker.levels() =~= old(self).speaker.levels()
                                + samples_over(b.apu, (i + 1) as nat));
                        },
                        None => {
                            assert(self.speaker.levels() =~= old(self).speaker.levels()
                                + samples_over(b.apu, (i + 1) as nat));
                        },
                    }
                }
            }
            i = i + 1;
        }

        let ghost sent0 = self.serial_output.sent();
        self.bus.serial.step(&mut self.serial_output, &mut self.bus.it);
        proof {
            if old(self).serial_output.keeps_output() {
                assert(self.serial_output.sent() =~= sent0 + serial_sent(b.serial));
            }
        }
        self.bus.dma_tick();
        assert(ppu_run(b.ppu, states) && self.bus == devices_after(
            b,
            states.last(),
            run_irq(states, ticks as nat),
            ticks as nat,
        ));
        assert(old(self).screen.keeps_output() ==> self.screen.frame() == frame_over(
            old(self).screen.frame(),
            states,
            ticks as nat,
        ) && self.screen.updates() == old(self).screen.updates());
        ticks
    }

    /// Retrieve the rom in readonly
    pub fn rom(&self) -> (r: &Rom)
        ensures
            *r == self.bus.rom,
    {
        &self.bus.rom
    }

    /// Retrieve the screen
    pub fn screen(&mut self) -> (s: &mut S)
        ensures
            *s == old(self).screen,
            *final(self) == (System { screen: *final(s), ..*old(self) }),
    {
        &mut self.screen
    }

    /// Retrieve the serial output
    pub fn serial(&mut self) -> (s: &mut SO)
        ensures
            *s == old(self).serial_output,
            *final(self) == (System { serial_output: *final(s), ..*old(self) }),
    {
        &mut self.serial_output
    }

    /// Retrieve the audio output
    pub fn speaker(&mut self) -> (s: &mut AO)
        ensures
            *s == old(self).speaker,
            *final(self) == (System { speaker: *final(s), ..*old(self) }),
    {
        &mut self.speaker
    }

    /// Forward a button press to the joypad controller
    pub fn set_button(&mut self, button: Button, is_pressed: bool)
        requires
            old(self).wf(),
        ensures
            final(self).wf(),
            final(self).bus.joypad == old(self).bus.joypad.with_button(button, is_pressed),
            final(self).bus.it == (if is_pressed {
                old(self).bus.it.requested(InterruptFlag::Joypad)
            } else {
                old(self).bus.it
            }),
            final(self).cpu == old(self).cpu,
    {
        self.bus.joypad.set_button(button, is_pressed, &mut self.bus.it);
    }

    /// Sets the FPS (default = 60); a rate of 0 or of at least the clock speed is ignored.
    pub fn set_frame_rate(&mut self, fps: u32)
        requires
            old(self).wf(),
        ensures
            final(self).wf(),
            final(self).cycles_per_frame == (if 0 < fps < CLOCK_SPEED {
                CLOCK_SPEED / fps
            } else {
                old(self).cycles_per_frame
            }),
            *final(self) == (System { cycles_per_frame: final(self).cycles_per_frame, ..*old(self) }),
    {
        if fps > 0 && fps < CLOCK_SPEED {
            assert(1 <= CLOCK_SPEED / fps <= CLOCK_SPEED) by (nonlinear_arith)
                requires
                    0 < fps < CLOCK_SPEED,
            ;
            self.cycles_per_frame = CLOCK_SPEED / fps;
        }
    }

    /// Execute enough steps to retrieve 1 frame; the T-cycles run are returned.
    pub fn update_frame(&mut self) -> (cycles: u32)
        requires
            old(self).wf(),
        ensures
            final(self).wf(),
            final(self).cycles_per_frame == old(self).cycles_per_frame,
            old(self).cycles_per_frame <= cycles < old(self).cycles_per_frame + 24,
            exists|trace: Seq<Self>, ticks: Seq<u8>|
                {
                    &&& #[trigger] old(self).step_run(trace, ticks)
                    &&& cycles == tick_sum(ticks, ticks.len())
                    &&& forall|k: nat|
                        k < ticks.len() ==> #[trigger] tick_sum(ticks, k) < old(
                            self,
                        ).cycles_per_frame
                    &&& *final(self) == (System { screen: final(self).screen, ..trace.last() })
                    &&& final(self).screen.keeps_output() == trace.last().screen.keeps_output()
                    &&& trace.last().screen.keeps_output() ==> final(self).screen.frame()
                        == trace.last().screen.frame() && final(self).screen.updates()
                        == trace.last().screen.updates() + 1
                },
    {
        let mut cycles = 0u32;
        let ghost mut trace: Seq<Self> = seq![*self];
        let ghost mut ticks: Seq<u8> = Seq::empty();
        while cycles < self.cycles_per_frame
            invariant
                self.wf(),
                self.cycles_per_frame == old(self).cycles_per_frame,
                cycles < self.cycles_per_frame + 24,
                old(self).step_run(trace, ticks),
                trace.last() == *self,
                cycles == tick_sum(ticks, ticks.len()),
                forall|k: nat|
                    k < ticks.len() ==> #[trigger] tick_sum(ticks, k) < old(self).cycles_per_frame,
            decreases self.cycles_per_frame + 24 - cycles,
        {
            let ghost before = *self;
            let ghost tk = ticks;
            let t = self.step();
            proof {
                assert(tk =~= tk.push(t).take(tk.len() as int));
                lemma_tick_sum_prefix(tk, tk.push(t), tk.len());
                assert forall|k: nat| k < tk.len() + 1 implies #[trigger] tick_sum(tk.push(t), k)
                    < old(self).cycles_per_frame by {
                    lemma_tick_sum_prefix(tk, tk.push(t), k);
                }
                trace = trace.push(*self);
                ticks = tk.push(t);
            }
            cycles = cycles + t as u32;
        }
        let ghost last = *self;
        self.screen.update();
        assert(*self == (System { screen: self.screen, ..last }));
        cycles
    }

    /// The minimum duration of a frame in milliseconds, for the frame rate in use.
    pub fn frame_time_ms(&self) -> (ms: u64)
        requires
            self.wf(),
        ensures
            ms == 1000int / (CLOCK_SPEED / self.cycles_per_frame) as int,
    {
        let cpf = self.cycles_per_frame;
        assert(CLOCK_SPEED / cpf >= 1) by (nonlinear_arith)
            requires
                1 <= cpf <= CLOCK_SPEED,
        ;
        (1000 / (CLOCK_SPEED / cpf)) as u64
    }
}

/// An instruction step takes between 4 and 24 T-cycles.
pub proof fn lemma_step_ticks(cpu: Cpu, bus: Bus)
    ensures
        4 <= cpu.spec_step(bus).2 <= 24,
{
    if !cpu.halted {
        lemma_execute_ticks(cpu.fetched(), bus, bus.peek(cpu.pc));
    }
}

/// An instruction takes between 4 and 24 T-cycles.
pub proof fn lemma_execute_ticks(cpu: Cpu, bus: Bus, op: u8)
    ensures
        4 <= cpu.spec_execute(bus, op).2 <= 24,
{
    let n = bus.peek(cpu.pc);
    let t = cpu.spec_execute(bus, op).2;
    if op == 0xCB {
        assert(4 <= cpu.fetched().spec_cb(bus, n).2 <= 24);
    } else {
        assert(4 <= cpu.spec_misc(bus, op).2 <= 24);
    }
}

} // verus!
