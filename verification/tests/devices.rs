use padme_core::apu::Apu;
use padme_core::bus::Bus;
use padme_core::collections::Queue;
use padme_core::interrupt::{InterruptFlag, InterruptHandler};
use padme_core::joypad::Joypad;
use padme_core::ppu::Ppu;
use padme_core::region::MemoryRegion;
use padme_core::timer::Timer;
use padme_core::{Button, Rom};

fn bus() -> Bus {
    Bus::new(Rom::load(vec![0u8; 0x8000]).unwrap())
}

#[test]
fn interrupt_request_then_clear() {
    let mut it = InterruptHandler::new();
    assert_eq!(it.read(0xFF0F), 0xE1);
    it.clear(InterruptFlag::Vblank);
    assert_eq!(it.reg_if, 0xE0);
    it.request(InterruptFlag::TimerOverflow);
    assert_eq!(it.reg_if, 0xE4);
    it.clear(InterruptFlag::TimerOverflow);
    assert_eq!(it.reg_if, 0xE0);
    it.write(0xFFFF, 0x1F);
    assert_eq!(it.read(0xFFFF), 0x1F);
    assert_eq!(InterruptFlag::Joypad.bit(), 0x10);
}

#[test]
fn timer_overflow_reloads_from_modulo() {
    let mut t = Timer::new();
    let mut it = InterruptHandler::new();
    it.reg_if = 0;
    t.write(0xFF06, 0x42); // TMA
    t.write(0xFF05, 0xFD); // TIMA
    t.write(0xFF07, 0x05); // enabled, 16 cycles
    // the clock change restarts the count
    t.step(&mut it);
    for _ in 0..16 {
        t.step(&mut it);
    }
    assert_eq!(t.read(0xFF05), 0xFE);
    assert_eq!(it.reg_if, 0);
    for _ in 0..16 {
        t.step(&mut it);
    }
    assert_eq!(t.read(0xFF05), 0x42);
    assert_eq!(it.reg_if, 0x04);
}

#[test]
fn timer_divider_counts_and_resets() {
    let mut t = Timer::new();
    let mut it = InterruptHandler::new();
    let div = t.read(0xFF04);
    for _ in 0..257 {
        t.step(&mut it);
    }
    assert_eq!(t.read(0xFF04), div.wrapping_add(1));
    t.write(0xFF04, 0x99);
    assert_eq!(t.read(0xFF04), 0);
}

#[test]
fn timer_periods() {
    assert_eq!(Timer::period_from_tac(0x04), 1024);
    assert_eq!(Timer::period_from_tac(0x05), 16);
    assert_eq!(Timer::period_from_tac(0x06), 64);
    assert_eq!(Timer::period_from_tac(0x07), 256);
}

#[test]
fn joypad_shows_pressed_button_in_selected_group() {
    let mut j = Joypad::new();
    let mut it = InterruptHandler::new();
    it.reg_if = 0;
    j.set_button(Button::A, true, &mut it);
    assert_eq!(it.reg_if, 0x10);
    j.write(0xFF00, 0x10); // select action buttons
    assert_eq!(j.read(0xFF00) & 0x0F, 0x0E);
    j.write(0xFF00, 0x20); // select directions
    assert_eq!(j.read(0xFF00) & 0x0F, 0x0F);
    j.set_button(Button::Left, true, &mut it);
    assert_eq!(j.read(0xFF00) & 0x0F, 0x0D);
    it.reg_if = 0;
    j.set_button(Button::Left, false, &mut it);
    assert_eq!(j.read(0xFF00) & 0x0F, 0x0F);
    assert_eq!(it.reg_if, 0);
}

#[test]
fn button_codes() {
    assert_eq!(Button::Start.code(), 0x28);
    assert_eq!(Button::Right.code(), 0x11);
}

#[test]
fn ram_read_after_write_and_echo() {
    let mut b = bus();
    b.write(0xC123, 0x5A);
    assert_eq!(b.read(0xC123), 0x5A);
    assert_eq!(b.read(0xE123), 0x5A);
    b.write(0xE124, 0xA5);
    assert_eq!(b.read(0xC124), 0xA5);
    b.write(0xFF80, 0x11);
    assert_eq!(b.read(0xFF80), 0x11);
    assert_eq!(b.read(0xC123), 0x5A);
}

#[test]
fn rom_image_is_read_only_through_the_bus() {
    let mut b = bus();
    b.write(0x0150, 0x99);
    assert_eq!(b.read(0x0150), 0x00);
}

#[test]
fn unmapped_addresses_read_0xff() {
    let mut b = bus();
    b.write(0xFEA0, 0x12);
    assert_eq!(b.read(0xFEA0), 0xFF);
    assert_eq!(b.read(0xFF03), 0xFF);
}

#[test]
fn video_memories_through_the_bus() {
    let mut b = bus();
    b.write(0x8000, 0x3C);
    assert_eq!(b.read(0x8000), 0x3C);
    b.write(0xFE00, 0x10);
    assert_eq!(b.read(0xFE00), 0x10);
    b.write(0xFF47, 0xE4);
    assert_eq!(b.read(0xFF47), 0xE4);
}

#[test]
fn oam_dma_copies_work_ram() {
    let mut b = bus();
    for i in 0..0xA0u16 {
        b.write(0xC000 + i, i as u8 ^ 0x5A);
    }
    b.write(0xFF46, 0xC0);
    assert!(b.ppu.is_dma_active());
    for _ in 0..0xA0 {
        b.dma_tick();
    }
    assert!(!b.ppu.is_dma_active());
    for i in 0..0xA0u16 {
        assert_eq!(b.read(0xFE00 + i), i as u8 ^ 0x5A);
    }
}

#[test]
fn ppu_writes_to_ly_are_ignored() {
    let mut p = Ppu::new();
    let ly = p.read(0xFF44);
    p.write(0xFF44, 0x42);
    assert_eq!(p.read(0xFF44), ly);
}

#[test]
fn ppu_raises_vblank_after_144_lines() {
    let mut b = bus();
    let mut screen = padme_core::default::NoScreen;
    b.it.reg_if = 0;
    let mut dots = 0u32;
    while b.it.reg_if & 0x01 == 0 && dots < 200_000 {
        b.ppu.step(&mut screen, &mut b.it);
        dots += 1;
    }
    assert_eq!(b.read(0xFF44), 144);
    assert_eq!(b.read(0xFF41) & 0x03, 0x01);
}

#[test]
fn apu_power_off_clears_registers() {
    let mut a = Apu::new();
    assert!(a.is_enabled());
    a.write(0xFF24, 0x77);
    assert_eq!(a.volume_left(), 7);
    assert_eq!(a.volume_right(), 7);
    a.write(0xFF26, 0x00);
    assert!(!a.is_enabled());
    assert_eq!(a.read(0xFF24), 0x00);
    assert_eq!(a.read(0xFF26) & 0x80, 0x00);
    // writes are ignored while off
    a.write(0xFF25, 0xFF);
    assert_eq!(a.read(0xFF25), 0x00);
    a.write(0xFF26, 0x80);
    assert!(a.is_enabled());
    assert_eq!(a.read(0xFF26) & 0x80, 0x80);
}

#[test]
fn queue_on_bytes_of_a_small_ring() {
    let mut q: Queue<u16, 4> = Queue::new([0u16; 4]);
    assert!(q.is_empty());
    // a ring of four slots holds three values
    for v in 1..=3u16 {
        q.push(v);
    }
    assert!(q.is_full());
    assert_eq!(q.size(), 3);
    q.push(4);
    assert_eq!(q.size(), 3);
    assert_eq!(q.pop(), 2);
}

fn sweep(reg_nr10: u8) -> padme_core::apu::Sweep {
    padme_core::apu::Sweep {
        reg_nr10,
        timer: 0,
        shadow_frequency: 0,
        enabled: false,
        was_decreasing: false,
    }
}

#[test]
fn sweep_raises_the_frequency() {
    let mut s = sweep(0x11); // period 1, up, shift 1
    let mut on = true;
    s.reset_sweep(0x100, &mut on);
    assert!(on);
    assert!(s.enabled);
    assert_eq!(s.timer, 1);
    assert_eq!(s.sweep_step(&mut on), Some(0x180));
    assert_eq!(s.shadow_frequency, 0x180);
    assert!(on);
}

#[test]
fn sweep_overflow_switches_the_channel_off() {
    let mut s = sweep(0x11);
    let mut on = true;
    s.reset_sweep(0x700, &mut on);
    assert!(!on);
    s.shadow_frequency = 0x700;
    let mut on = true;
    assert_eq!(s.calculate_sweep_frequency(&mut on), 0xA80);
    assert!(!on);
}

#[test]
fn sweep_lowers_the_frequency() {
    let mut s = sweep(0x19); // period 1, down, shift 1
    let mut on = true;
    s.reset_sweep(0x100, &mut on);
    assert!(s.was_decreasing);
    assert_eq!(s.sweep_period(), 1);
    assert!(s.is_sweep_decreasing());
    assert_eq!(s.sweep_shift(), 1);
    assert_eq!(s.sweep_step(&mut on), Some(0x80));
    assert!(on);
}

#[test]
fn sweep_without_period_only_reloads() {
    let mut s = sweep(0x01); // period 0, shift 1
    let mut on = true;
    s.reset_sweep(0x100, &mut on);
    assert_eq!(s.timer, 8);
    for _ in 0..7 {
        assert_eq!(s.sweep_step(&mut on), None);
    }
    assert_eq!(s.sweep_step(&mut on), None);
    assert_eq!(s.timer, 8);
    assert_eq!(s.shadow_frequency, 0x100);
}

struct Levels {
    got: Vec<(i16, i16)>,
}

impl padme_core::AudioOutput for Levels {
    fn set_levels(&mut self, left: i16, right: i16) {
        self.got.push((left, right));
    }
}

#[test]
fn apu_mixes_channel_2_into_both_terminals() {
    let mut a = Apu::new();
    a.write(0xFF24, 0x77); // both volumes at 7
    a.write(0xFF25, 0x22); // channel 2 on both terminals
    a.write(0xFF16, 0x80); // 50% duty
    a.write(0xFF17, 0xF0); // volume 15, DAC on
    a.write(0xFF19, 0x80); // trigger
    assert_eq!(a.read(0xFF26) & 0x02, 0x02);
    let mut out = Levels { got: Vec::new() };
    for _ in 0..87 {
        a.step(&mut out);
    }
    // amplitude 15: a DAC level of 2 * 15 - 15 = 15, times volume 7
    assert_eq!(out.got, vec![(105, 105)]);
}

#[test]
fn apu_routes_by_nr51() {
    let mut a = Apu::new();
    a.write(0xFF24, 0x35); // left 3, right 5
    a.write(0xFF25, 0x02); // channel 2 on the right terminal only
    a.write(0xFF16, 0x80);
    a.write(0xFF17, 0xF0);
    a.write(0xFF19, 0x80);
    let mut out = Levels { got: Vec::new() };
    for _ in 0..87 {
        a.step(&mut out);
    }
    assert_eq!(out.got, vec![(0, 75)]);
}

#[test]
fn dma_leaves_oam_reading_as_its_source() {
    let mut b = bus();
    for i in 0..0xA0u16 {
        b.write(0xC100 + i, (i as u8).wrapping_mul(3));
    }
    b.write(0xFF46, 0xC1);
    for _ in 0..0xA0 {
        b.dma_tick();
    }
    for i in 0..0xA0u16 {
        assert_eq!(b.read(0xFE00 + i), b.read(0xC100 + i));
    }
    let before: Vec<u8> = (0..0xA0u16).map(|i| b.read(0xFE00 + i)).collect();
    b.dma_tick();
    let after: Vec<u8> = (0..0xA0u16).map(|i| b.read(0xFE00 + i)).collect();
    assert_eq!(before, after);
}
