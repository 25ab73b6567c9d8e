use padme_core::default::{NoScreen, NoSerial, NoSpeaker};
use padme_core::{Button, Error, Pixel, Rom, Screen, SerialOutput, System, AudioOutput};

struct Recorder {
    bytes: Vec<u8>,
}

impl SerialOutput for Recorder {
    fn putchar(&mut self, c: u8) {
        self.bytes.push(c);
    }
}

struct CountingScreen {
    pixels: usize,
    frames: usize,
}

impl Screen for CountingScreen {
    fn set_pixel(&mut self, _px: &Pixel, _x: u8, _y: u8) {
        self.pixels += 1;
    }

    fn update(&mut self) {
        self.frames += 1;
    }
}

struct LevelRecorder {
    samples: usize,
}

impl AudioOutput for LevelRecorder {
    fn set_levels(&mut self, _left: i16, _right: i16) {
        self.samples += 1;
    }
}

fn image(program: &[u8]) -> Vec<u8> {
    let mut bin = vec![0u8; 0x8000];
    for (i, b) in program.iter().enumerate() {
        bin[0x100 + i] = *b;
    }
    bin
}

fn system(program: &[u8]) -> System<NoScreen, NoSerial, NoSpeaker> {
    System::new(Rom::load(image(program)).unwrap(), NoScreen, NoSerial, NoSpeaker)
}

#[test]
fn default_frame_time_is_16ms() {
    let s = system(&[]);
    assert_eq!(s.frame_time_ms(), 16);
}

#[test]
fn frame_rate_changes_frame_time() {
    let mut s = system(&[]);
    s.set_frame_rate(30);
    assert_eq!(s.frame_time_ms(), 33);
    // ignored rates
    s.set_frame_rate(0);
    assert_eq!(s.frame_time_ms(), 33);
}

#[test]
fn update_frame_runs_a_frame_of_cycles() {
    let mut s = System::new(
        Rom::load(image(&[0x18, 0xFE])).unwrap(),
        CountingScreen { pixels: 0, frames: 0 },
        NoSerial,
        LevelRecorder { samples: 0 },
    );
    let cycles = s.update_frame();
    assert!(cycles >= 4194304 / 60);
    assert!(cycles < 4194304 / 60 + 24);
    assert_eq!(s.screen().frames, 1);
    assert!(s.screen().pixels > 0);
    assert!(s.speaker().samples > 0);
}

#[test]
fn step_returns_instruction_cycles() {
    let mut s = system(&[0x00, 0xC3, 0x00, 0x01]);
    assert_eq!(s.step(), 4);
    assert_eq!(s.step(), 12);
    assert_eq!(s.cpu.pc, 0x0100);
}

#[test]
fn serial_port_prints_bytes() {
    // LD A,'O' ; LDH (SB),A ; LD A,0x81 ; LDH (SC),A ; LD A,'K' ; LDH (SB),A ; LD A,0x81 ; LDH (SC),A
    let program = [
        0x3E, b'O', 0xE0, 0x01, 0x3E, 0x81, 0xE0, 0x02, 0x3E, b'K', 0xE0, 0x01, 0x3E, 0x81, 0xE0,
        0x02,
    ];
    let mut s = System::new(
        Rom::load(image(&program)).unwrap(),
        NoScreen,
        Recorder { bytes: Vec::new() },
        NoSpeaker,
    );
    for _ in 0..8 {
        s.step();
    }
    assert_eq!(s.serial().bytes, b"OK".to_vec());
    assert_eq!(s.bus.it.reg_if & 0x08, 0x08);
}

#[test]
fn pressing_a_button_raises_the_joypad_interrupt() {
    let mut s = system(&[]);
    s.bus.it.reg_if = 0;
    s.set_button(Button::Start, true);
    assert_eq!(s.bus.it.reg_if & 0x10, 0x10);
    s.bus.it.reg_if = 0;
    s.set_button(Button::Start, false);
    assert_eq!(s.bus.it.reg_if, 0);
}

#[test]
fn load_bin_refuses_short_images_and_keeps_the_cartridge() {
    let mut s = system(&[0x00]);
    match s.load_bin(vec![0u8; 100]) {
        Err(Error::InvalidRomSize(n)) => assert_eq!(n, 100),
        Ok(_) => panic!("a short image was accepted"),
    }
    assert_eq!(s.rom().read(0x0100), 0x00);
    assert!(s.load_bin(image(&[0x76])).is_ok());
    assert_eq!(s.rom().read(0x0100), 0x76);
}

#[test]
fn reset_restores_power_on_state() {
    let mut s = system(&[0x3E, 0x42]);
    s.step();
    assert_eq!(s.cpu.a, 0x42);
    s.reset();
    assert_eq!(s.cpu.a, 0x01);
    assert_eq!(s.cpu.pc, 0x0100);
}

#[test]
fn load_rom_replaces_cartridge_and_resets() {
    let mut s = system(&[0x3E, 0x42]);
    s.step();
    s.load_rom(Rom::load(image(&[0x00, 0x00])).unwrap());
    assert_eq!(s.cpu.pc, 0x0100);
    assert_eq!(s.rom().read(0x0101), 0x00);
}

#[test]
fn pixel_argb_packs_channels() {
    let p = Pixel { r: 0x12, g: 0x34, b: 0x56, a: 0x78 };
    assert_eq!(p.argb(), 0x7812_3456);
}

struct PixelLog {
    at: Vec<(u8, u8)>,
}

impl Screen for PixelLog {
    fn set_pixel(&mut self, _px: &Pixel, x: u8, y: u8) {
        self.at.push((x, y));
    }

    fn update(&mut self) {}
}

#[test]
fn pixels_go_to_their_column_and_line() {
    let mut s = System::new(
        Rom::load(image(&[0x18, 0xFE])).unwrap(),
        PixelLog { at: Vec::new() },
        NoSerial,
        NoSpeaker,
    );
    s.update_frame();
    s.update_frame();
    let at = &s.screen().at;
    assert!(at.iter().all(|&(x, y)| x < 160 && y < 144));
    // each line is drawn from left to right
    let first_line: Vec<u8> = at.iter().filter(|p| p.1 == 0).map(|p| p.0).take(160).collect();
    assert_eq!(first_line, (0..160u8).collect::<Vec<u8>>());
}
