use nemulator::apu::{FrameSequencer, LengthCtr, Sweep, VolumeEnvelope, APU};
use nemulator::cartridge::{
    get_cartridge_type, get_destination, get_licensee, get_ram_size, get_rom_size, get_title,
    match_new_licensee_code, match_old_licensee_code, RomList, HEADER_LEN,
};

fn header() -> Vec<u8> {
    let mut h = vec![0u8; HEADER_LEN];
    for (i, b) in b"TETRIS".iter().enumerate() {
        h[0x134 + i] = *b;
    }
    h[0x147] = 0x01;
    h[0x148] = 0x01;
    h[0x149] = 0x03;
    h[0x14A] = 0x01;
    h[0x14B] = 0x01;
    h
}

#[test]
fn header_fields() {
    let h = header();
    assert_eq!(get_title(&h), "TETRIS");
    assert_eq!(get_licensee(&h), "Nintendo");
    assert_eq!(get_destination(&h), "Overseas only");
    assert_eq!(get_cartridge_type(&h), "MBC1");
    assert_eq!(get_rom_size(&h), "64KiB");
    assert_eq!(get_ram_size(&h), "32 KiB");
}

#[test]
fn title_trims_padding_and_rejects_bad_utf8() {
    let mut h = header();
    h[0x134] = 0;
    h[0x135] = b'A';
    assert_eq!(get_title(&h), "ATRIS");
    h[0x136] = 0;
    assert_eq!(get_title(&h), "A\0RIS");
    h[0x137] = 0xFF;
    assert_eq!(get_title(&h), "NO TITLE");
    let empty = vec![0u8; HEADER_LEN];
    assert_eq!(get_title(&empty), "");
}

#[test]
fn new_style_licensee() {
    let mut h = header();
    h[0x14B] = 0x33;
    h[0x144] = b'0';
    h[0x145] = b'1';
    assert_eq!(get_licensee(&h), "Nintendo R&D1");
    h[0x144] = b'9';
    h[0x145] = b'H';
    assert_eq!(get_licensee(&h), "Bottom Up");
    h[0x144] = b'Z';
    assert_eq!(get_licensee(&h), "None");
    assert_eq!(match_new_licensee_code(b"A4"), "Konami (Yu-Gi-Oh!)");
    assert_eq!(match_new_licensee_code(b"A"), "None");
}

#[test]
fn old_style_licensee_table() {
    assert_eq!(match_old_licensee_code(0x00), "None");
    assert_eq!(match_old_licensee_code(0x08), "Capcom");
    assert_eq!(match_old_licensee_code(0xFF), "LJN");
    assert_eq!(match_old_licensee_code(0x02), "None");
}

#[test]
fn sizes_and_types() {
    let mut h = header();
    h[0x148] = 0;
    assert_eq!(get_rom_size(&h), "32KiB");
    h[0x148] = 8;
    assert_eq!(get_rom_size(&h), "8192KiB");
    h[0x148] = 11;
    assert_eq!(get_rom_size(&h), "None");
    h[0x149] = 0;
    assert_eq!(get_ram_size(&h), "None");
    h[0x147] = 0x00;
    assert_eq!(get_cartridge_type(&h), "ROM ONLY");
    h[0x147] = 0x04;
    assert_eq!(get_cartridge_type(&h), "None");
    h[0x14A] = 0;
    assert_eq!(get_destination(&h), "Japan");
}

#[test]
fn rom_list_selection_wraps() {
    let mut l = RomList::new(vec!["a.gb".to_string(), "b.gb".to_string()]);
    assert_eq!(l.selected, None);
    l.next();
    assert_eq!(l.selected, Some(0));
    l.next();
    assert_eq!(l.selected, Some(1));
    l.next();
    assert_eq!(l.selected, Some(0));
    l.previous();
    assert_eq!(l.selected, Some(1));
    l.update_items(vec![]);
    l.next();
    assert_eq!(l.selected, None);
}

#[test]
fn frame_sequencer_steps_every_8192_ticks() {
    let mut s = FrameSequencer::new();
    for _ in 0..8191 {
        s.tick();
    }
    assert_eq!(s.step, 0);
    s.tick();
    assert_eq!(s.step, 1);
    assert_eq!(s.last_step, 0);
}

#[test]
fn length_counter_counts_down_when_enabled() {
    let mut l = LengthCtr::new(64);
    l.trigger();
    assert_eq!(l.length_timer, 64);
    l.tick();
    assert_eq!(l.length_timer, 64);
    l.enabled = true;
    l.tick();
    assert_eq!(l.length_timer, 63);
    assert!(l.channel_active());
}

#[test]
fn envelope_and_sweep_steps() {
    let mut e = VolumeEnvelope::new();
    e.enabled = true;
    e.period = 1;
    e.direction_up = true;
    e.tick();
    assert_eq!(e.current_volume, 1);
    let mut s = Sweep::new();
    s.enabled = true;
    s.period = 1;
    s.shift = 1;
    s.shadow_frequency = 100;
    s.direction_up = true;
    assert_eq!(s.calculate_frequency(), 150);
    s.tick();
    assert_eq!(s.frequency, 150);
}

#[test]
fn apu_register_reads() {
    let a = APU::new(44100, 2, 1024);
    assert_eq!(a.read(0xFF10), 0x80);
    assert_eq!(a.read(0xFF11), 0x3F);
    assert_eq!(a.read(0xFF13), 0xFF);
    assert_eq!(a.read(0xFF1A), 0x7F);
}
