use nemulator::interrupts::{BinaryHeap, Interrupt};
use nemulator::joypad::InputStates;
use nemulator::memory::Memory;
use nemulator::ppu::{FetcherState, PixelFetcher, Queue, Sprite, PPU};
use nemulator::registers::{Flag, Reg, RegW, Registers};
use nemulator::timer::Timer;

#[test]
fn dma_copies_page_into_oam() {
    let mut m = Memory::new();
    for i in 0..160u16 {
        m.write(0xC000 + i, (i as u8).wrapping_mul(3).wrapping_add(7));
    }
    m.write(0xFF46, 0xC0);
    for i in 0..160u16 {
        assert_eq!(m.read(0xFE00 + i), m.read(0xC000 + i));
    }
    assert_eq!(m.read(0xFE00 + 5), 22);
}

#[test]
fn dma_from_upper_pages_uses_shadow_range() {
    let mut m = Memory::new();
    m.write(0xDE00, 0x11);
    m.write(0xDF9F, 0x22);
    m.write(0xFF46, 0xFE);
    assert_eq!(m.read(0xFE00), 0x11);
    m.write(0xFF46, 0xFF);
    assert_eq!(m.read(0xFE9F), 0x22);
}

#[test]
fn rom_region_ignores_writes_and_unusable_range_reads_zero() {
    let mut m = Memory::new();
    let rom: Vec<u8> = (0..0x8000u32).map(|i| (i % 251) as u8).collect();
    m.load_rom(&rom);
    assert_eq!(m.read(0x0000), 0);
    assert_eq!(m.read(0x4000), (0x4000u32 % 251) as u8);
    m.write(0x1234, 0xAA);
    assert_eq!(m.read(0x1234), (0x1234u32 % 251) as u8);
    m.write(0xFEA5, 0x77);
    assert_eq!(m.read(0xFEA5), 0);
    m.write(0xFFFF, 0x1F);
    assert_eq!(m.read(0xFFFF), 0x1F);
    m.write(0xFF80, 9);
    assert_eq!(m.read(0xFF80), 9);
}

#[test]
fn short_rom_is_padded_with_zeros() {
    let mut m = Memory::new();
    m.write(0x8000, 1);
    m.load_rom(&vec![0xAB; 10]);
    assert_eq!(m.read(0x0009), 0xAB);
    assert_eq!(m.read(0x000A), 0);
    assert_eq!(m.rom_bank_n[0], 0);
    assert_eq!(m.read(0x8000), 1);
}

#[test]
fn timer_counts_on_falling_edges() {
    let mut t = Timer::new();
    t.write_io(0xFF07, 0x05);
    for _ in 0..3 {
        t.inc_sysclk();
        assert_eq!(t.read_io(0xFF05), 0);
    }
    t.inc_sysclk();
    assert_eq!(t.read_io(0xFF05), 1);
    for _ in 0..4 {
        t.inc_sysclk();
    }
    assert_eq!(t.read_io(0xFF05), 2);
}

#[test]
fn timer_disabled_does_not_count() {
    let mut t = Timer::new();
    t.write_io(0xFF07, 0x01);
    for _ in 0..100 {
        t.inc_sysclk();
    }
    assert_eq!(t.read_io(0xFF05), 0);
    assert_eq!(t.read_io(0xFF04), 1);
}

#[test]
fn divider_reset_recomputes_edge_from_zero() {
    let mut t = Timer::new();
    t.write_io(0xFF07, 0x05);
    t.inc_sysclk();
    t.inc_sysclk();
    assert_eq!(t.last_bit, 1);
    t.write_io(0xFF04, 0x99);
    assert_eq!(t.sysclk, 0);
    assert_eq!(t.read_io(0xFF04), 0);
    assert_eq!(t.tima, 1);
    assert_eq!(t.last_bit, 0);
    t.inc_sysclk();
    t.inc_sysclk();
    t.inc_sysclk();
    assert_eq!(t.tima, 1);
    t.inc_sysclk();
    assert_eq!(t.tima, 2);
}

#[test]
fn rate_select_change_can_make_an_edge() {
    let mut t = Timer::new();
    t.write_io(0xFF07, 0x05);
    t.inc_sysclk();
    t.inc_sysclk();
    assert_eq!(t.last_bit, 1);
    t.write_io(0xFF07, 0x04);
    assert_eq!(t.tima, 1);
}

#[test]
fn timer_overflow_reloads_after_one_cycle() {
    let mut t = Timer::new();
    t.write_io(0xFF06, 0xAB);
    t.write_io(0xFF05, 0xFF);
    t.write_io(0xFF07, 0x05);
    for _ in 0..4 {
        t.inc_sysclk();
    }
    assert_eq!(t.tima, 0);
    assert!(!t.tima_overflow_irq);
    t.inc_sysclk();
    assert_eq!(t.tima, 0xAB);
    assert!(t.tima_overflow_irq);
}

#[test]
fn heap_pops_by_priority() {
    let mut h = BinaryHeap::new();
    assert!(h.is_empty());
    h.push(Interrupt::Joypad);
    h.push(Interrupt::Timer);
    h.push(Interrupt::VBlank);
    h.push(Interrupt::STAT);
    assert_eq!(h.pop(), Some(Interrupt::VBlank));
    assert_eq!(h.pop(), Some(Interrupt::STAT));
    assert_eq!(h.pop(), Some(Interrupt::Timer));
    assert_eq!(h.pop(), Some(Interrupt::Joypad));
    assert_eq!(h.pop(), None);
    assert_eq!(BinaryHeap::get_interrupt_priority(Interrupt::Serial), 1);
    assert_eq!(BinaryHeap::parent_index(5), 2);
    assert_eq!(BinaryHeap::left_child(0), 1);
    assert_eq!(BinaryHeap::right_child(0), 2);
    assert_eq!(BinaryHeap::left_child(3), 7);
    assert_eq!(BinaryHeap::right_child(3), 8);
    assert_eq!(BinaryHeap::parent_index(8), 3);
}

#[test]
fn joypad_select_groups() {
    let mut j = InputStates::new();
    assert_eq!(j.get_states(0x30), 0xFF);
    j.up = true;
    j.start = true;
    assert_eq!(j.get_states(0x20), 0xEB);
    assert_eq!(j.get_states(0x10), 0xD7);
}

#[test]
fn register_pairs_and_flags() {
    let mut r = Registers::new();
    assert_eq!(r.get_regW(RegW::AF), 0x01B0);
    assert_eq!(r.get_regW(RegW::BC), 0x0013);
    assert_eq!(r.get_regW(RegW::DE), 0x00D8);
    assert_eq!(r.get_regW(RegW::HL), 0x014D);
    assert!(r.get_flag(Flag::Z) && !r.get_flag(Flag::N) && r.get_flag(Flag::H) && r.get_flag(Flag::C));
    r.set_regW(RegW::AF, 0x12FF);
    assert_eq!(r.get_reg(Reg::A), 0x12);
    assert_eq!(r.get_reg(Reg::F), 0xF0);
    r.set_flag(Flag::N, false);
    assert_eq!(r.F, 0xB0);
    r.set_flag(Flag::H, false);
    assert_eq!(r.F, 0x90);
    r.set_reg(Reg::F, 0x3C);
    assert_eq!(r.F, 0x30);
}

fn visible_sprites_everywhere(m: &mut Memory) {
    for i in 0..40u16 {
        m.write(0xFE00 + i * 4, 16);
        m.write(0xFE00 + i * 4 + 1, 200 - i as u8);
        m.write(0xFE00 + i * 4 + 2, i as u8);
        m.write(0xFE00 + i * 4 + 3, 0);
    }
}

#[test]
fn oam_scan_selects_at_most_ten_sorted_by_x() {
    let mut m = Memory::new();
    visible_sprites_everywhere(&mut m);
    let mut p = PPU::new();
    for _ in 0..80 {
        p.step(&mut m);
    }
    assert_eq!(p.mode, 3);
    assert_eq!(p.sprite_buffer.len(), 10);
    for w in p.sprite_buffer.windows(2) {
        assert!(w[0].x <= w[1].x);
    }
    assert_eq!(p.sprite_buffer[0].index, 9);
}

#[test]
fn oam_scan_skips_sprites_off_the_line_or_at_x_zero() {
    let mut m = Memory::new();
    m.write(0xFE00, 16);
    m.write(0xFE01, 0);
    m.write(0xFE04, 40);
    m.write(0xFE05, 8);
    m.write(0xFE08, 10);
    m.write(0xFE09, 30);
    let mut p = PPU::new();
    for _ in 0..80 {
        p.step(&mut m);
    }
    assert_eq!(p.sprite_buffer.len(), 1);
    assert_eq!(p.sprite_buffer[0], Sprite::new(10, 30, 0, 0));
}

#[test]
fn scanline_ends_after_160_pixels() {
    let mut m = Memory::new();
    m.write(0xFF40, 0x91);
    m.write(0xFF47, 0xE4);
    let mut p = PPU::new();
    while p.mode != 3 {
        p.step(&mut m);
    }
    assert_eq!(p.x, 0);
    assert!(p.pixel_fetcher.bgwin_fifo.is_empty());
    let mut emitted = 0u32;
    while p.mode == 3 {
        let before = p.x;
        p.step(&mut m);
        if p.x != before || p.mode != 3 {
            emitted += 1;
        }
    }
    assert_eq!(emitted, 160);
    assert_eq!(p.mode, 0);
    assert_eq!(p.x, 0);
    assert_eq!(m.read(0xFF41) & 0x03, 0);
}

#[test]
fn frame_has_154_lines_and_signals_vblank() {
    let mut m = Memory::new();
    m.write(0xFF40, 0x91);
    let mut p = PPU::new();
    let mut dots = 0u32;
    while !p.entered_vblank {
        p.step(&mut m);
        dots += 1;
    }
    assert_eq!(p.mode, 1);
    assert_eq!(p.ly, 144);
    assert_eq!(m.read(0xFF44), 144);
    assert_eq!(dots, 144 * 456);
    assert!(p.frame_ready);
    while p.mode == 1 {
        p.step(&mut m);
        dots += 1;
    }
    assert_eq!(dots, 154 * 456);
    assert_eq!(p.ly, 0);
    assert_eq!(m.read(0xFF44), 0);
}

#[test]
fn background_pixels_follow_tile_data_and_palette() {
    let mut m = Memory::new();
    m.write(0xFF40, 0x91);
    m.write(0xFF47, 0xE4);
    m.write(0x8000, 0xF0);
    m.write(0x8001, 0xCC);
    let mut p = PPU::new();
    while p.mode != 0 {
        p.step(&mut m);
    }
    let row: Vec<u8> = p.framebuffer[0..8].to_vec();
    assert_eq!(row, vec![0, 0, 169, 169, 84, 84, 255, 255]);
}

#[test]
fn fine_scroll_drops_leading_pixels() {
    let mut m = Memory::new();
    m.write(0xFF40, 0x91);
    m.write(0xFF47, 0xE4);
    m.write(0xFF43, 3);
    m.write(0x8000, 0xF0);
    m.write(0x8001, 0xCC);
    let mut p = PPU::new();
    while p.mode != 0 {
        p.step(&mut m);
    }
    assert_eq!(p.framebuffer[0..5].to_vec(), vec![169, 84, 84, 255, 255]);
}

#[test]
fn lyc_match_raises_stat_once_per_line() {
    let mut m = Memory::new();
    m.write(0xFF41, 0x40);
    m.write(0xFF45, 0);
    let mut p = PPU::new();
    p.step(&mut m);
    assert!(p.stat_irq);
    assert_eq!(m.read(0xFF41) & 0x04, 0x04);
    p.stat_irq = false;
    p.step(&mut m);
    assert!(!p.stat_irq);
}

#[test]
fn fifo_queue_order() {
    let mut q: Queue<u8> = Queue::new();
    assert!(q.is_empty());
    q.add(1);
    q.add(2);
    q.add(3);
    assert_eq!(q.len(), 3);
    assert_eq!(q.remove(), Some(1));
    assert_eq!(q.remove(), Some(2));
    q.clear();
    assert_eq!(q.remove(), None);
}

#[test]
fn fetcher_decodes_rows() {
    let mut f = PixelFetcher::new();
    f.tile_data_low = 0b1010_0000;
    f.tile_data_high = 0b1100_0000;
    assert!(f.push_to_fifo());
    let colours: Vec<u8> = f.bgwin_fifo.items.iter().map(|p| p.colour_id).collect();
    assert_eq!(colours, vec![3, 2, 1, 0, 0, 0, 0, 0]);
    assert!(!f.push_to_fifo());
    assert_eq!(f.fetcher_x, 1);
    f.sprite_tile_data_low = 0b1000_0000;
    f.sprite_tile_data_high = 0;
    f.push_to_sprite_fifo(&Sprite::new(16, 8, 0, 0x20));
    let colours: Vec<u8> = f.sprite_fifo.items.iter().map(|p| p.colour_id).collect();
    assert_eq!(colours, vec![0, 0, 0, 0, 0, 0, 0, 1]);
    assert_eq!(f.bgwin_state, FetcherState::TileNumber);
}

#[test]
fn sprite_row_is_flipped_vertically() {
    let mut m = Memory::new();
    m.write(0xFF40, 0x00);
    m.write(0x8010 + 14, 0x5A);
    let mut f = PixelFetcher::new();
    f.sprite_fetch_tile_data_low(&m, 0, &Sprite::new(16, 8, 1, 0x40));
    assert_eq!(f.sprite_tile_data_low, 0x5A);
}

#[test]
fn equal_x_sprites_keep_oam_order() {
    let mut m = Memory::new();
    for i in 0..4u16 {
        m.write(0xFE00 + i * 4, 16);
        m.write(0xFE00 + i * 4 + 1, if i % 2 == 0 { 50 } else { 20 });
        m.write(0xFE00 + i * 4 + 2, i as u8);
    }
    let mut p = PPU::new();
    for _ in 0..80 {
        p.step(&mut m);
    }
    let order: Vec<u8> = p.sprite_buffer.iter().map(|s| s.index).collect();
    assert_eq!(order, vec![1, 3, 0, 2]);
}
