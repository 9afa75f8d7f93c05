use vstd::prelude::*;
use crate::memory::Memory;
use crate::registers::{wrap8, wrap16};

verus! {

/// Width of the visible screen in pixels.
pub const SCREEN_WIDTH: usize = 160;

/// Height of the visible screen in scanlines.
pub const SCREEN_HEIGHT: usize = 144;

/// Dots in one scanline.
pub const DOTS_PER_LINE: u16 = 456;

/// The colour index (0–3) of pixel `n` (0 = leftmost) of a tile row given as its two bit planes.
pub open spec fn pixel_colour(low: u8, high: u8, n: u8) -> u8 {
    (((high >> ((7 - n) as u8)) % 2) * 2 + (low >> ((7 - n) as u8)) % 2) as u8
}

/// The grey level that palette register value `palette` gives colour index `colour`.
pub open spec fn shade(palette: u8, colour: u8) -> u8 {
    let c = (palette >> ((colour * 2) as u8)) % 4;
    if c == 0 {
        255
    } else if c == 1 {
        169
    } else if c == 2 {
        84
    } else {
        0
    }
}

/// Height in rows of every sprite, as set by the LCD control register.
pub open spec fn sprite_height(lcdc: u8) -> u8 {
    if lcdc & 0x04 == 0 {
        8
    } else {
        16
    }
}

/// Whether a sprite whose OAM y is `y` covers scanline `ly`.
pub open spec fn covers_line(y: u8, ly: u8, height: u8) -> bool {
    y <= ly + 16 < y + height
}

/// Whether OAM entry `j` (0–39) shows on scanline `ly`: its rows cover the line and its x
/// is non-zero.
pub open spec fn entry_visible(m: Memory, j: int, ly: u8) -> bool {
    covers_line(m.oam@[4 * j], ly, sprite_height(m.peek(0xFF40))) && m.oam@[4 * j + 1] > 0
}

/// OAM entry `j` as a buffered sprite; tall sprites use the even tile of the pair.
pub open spec fn entry_sprite(m: Memory, j: int) -> Sprite {
    Sprite {
        y: m.oam@[4 * j],
        x: m.oam@[4 * j + 1],
        index: if sprite_height(m.peek(0xFF40)) == 16 {
            m.oam@[4 * j + 2] & 0xFE
        } else {
            m.oam@[4 * j + 2]
        },
        attributes: m.oam@[4 * j + 3],
    }
}

/// Scanning from entry `p` selects entry `j`: the first visible one at or after `p`.
pub open spec fn first_visible_from(m: Memory, p: int, j: int, ly: u8) -> bool {
    &&& p <= j < 40
    &&& entry_visible(m, j, ly)
    &&& forall|k: int| p <= k < j ==> !entry_visible(m, k, ly)
}

/// Address of the tile-map entry the background fetcher reads.
pub open spec fn bg_tile_map_address(lcdc: u8, scy: u8, scx: u8, ly: u8, fetcher_x: u8) -> u16 {
    let base: int = if lcdc & 0x08 == 0 {
        0x9800
    } else {
        0x9C00
    };
    (base + (((ly + scy) % 256) / 8) * 32 + (fetcher_x + scx / 8) % 32) as u16
}

/// Address of the tile-map entry the window fetcher reads.
pub open spec fn window_tile_map_address(lcdc: u8, window_line: u8, fetcher_x: u8) -> u16 {
    let base: int = if lcdc & 0x40 == 0 {
        0x9800
    } else {
        0x9C00
    };
    (base + (window_line / 8) * 32 + fetcher_x % 32) as u16
}

/// Address of the first byte of a background or window tile: signed addressing from 0x9000
/// unless the LCD control register selects the unsigned block at 0x8000.
pub open spec fn tile_data_address(lcdc: u8, tile: u8) -> u16 {
    if lcdc & 0x10 == 0 && tile < 128 {
        (0x9000 + tile * 16) as u16
    } else {
        (0x8000 + tile * 16) as u16
    }
}

/// Offset, within a tile, of the row the background or window fetcher reads.
pub open spec fn bg_row_offset(window: bool, window_line: u8, ly: u8, scy: u8) -> u16 {
    if window {
        (2 * (window_line % 8)) as u16
    } else {
        (2 * (((ly + scy) % 256) % 8)) as u16
    }
}

/// Address of the low byte of the row of `sprite` shown on scanline `ly`.
pub open spec fn sprite_row_address(lcdc: u8, ly: u8, sprite: Sprite) -> u16 {
    let h = sprite_height(lcdc) as int;
    let row = (ly + 16 - sprite.y) % h;
    let flipped = if sprite.attributes & 0x40 != 0 {
        h - 1 - row
    } else {
        row
    };
    (0x8000 + sprite.index * 16 + 2 * flipped) as u16
}

/// The sprite pixel that column `n` of a sprite row contributes.
pub open spec fn sprite_pixel_at(low: u8, high: u8, attributes: u8, n: u8) -> SpritePixel {
    let p = if attributes & 0x20 != 0 {
        (7 - n) as u8
    } else {
        n
    };
    SpritePixel {
        colour_id: pixel_colour(low, high, p),
        palette: if attributes & 0x10 == 0 {
            0xFF48
        } else {
            0xFF49
        },
        priority: if attributes & 0x80 != 0 {
            1
        } else {
            0
        },
    }
}

/// The grey level shown for a background pixel and the sprite pixel over it, if any: each
/// colour index is forced to 0 when its layer is off, and the sprite wins unless it is
/// transparent or sits behind a non-zero background.
pub open spec fn mixed_shade(
    bg: BackgroundPixel,
    sp: Option<SpritePixel>,
    lcdc: u8,
    bg_palette: u8,
    sp_palette: u8,
) -> u8 {
    let bgc: u8 = if lcdc & 0x01 == 0 {
        0
    } else {
        bg.colour_id
    };
    match sp {
        Some(s) => {
            let spc: u8 = if lcdc & 0x02 == 0 {
                0
            } else {
                s.colour_id
            };
            if spc == 0 || (s.priority == 1 && bgc != 0) {
                shade(bg_palette, bgc)
            } else {
                shade(sp_palette, spc)
            }
        },
        None => shade(bg_palette, bgc),
    }
}

/// Two bus states agree everywhere but the two registers the video controller owns
/// (LCD status and the current scanline).
pub open spec fn ppu_frame(m0: Memory, m1: Memory) -> bool {
    &&& m1.wf()
    &&& m1.serial_out == m0.serial_out
    &&& forall|a: u16| a != 0xFF41 && a != 0xFF44 ==> #[trigger] m1.peek(a) == m0.peek(a)
}

/// Clearing the two mode bits of a status value leaves them 0.
proof fn lemma_mode_bits_cleared(stat: u8)
    ensures
        (stat & 0xFC) % 4 == 0,
{
    assert((stat & 0xFC) % 4 == 0) by (bit_vector);
}

/// Writing a mode into the two mode bits of a status value makes them show it.
proof fn lemma_mode_bits_set(stat: u8, mode: u8)
    requires
        mode < 4,
    ensures
        ((stat & 0xFC) | mode) % 4 == mode,
{
    assert(((stat & 0xFC) | mode) % 4 == mode) by (bit_vector)
        requires
            mode < 4,
    ;
}

/// The mode bits of the LCD status register show the controller's mode.
pub open spec fn mode_shown(p: PPU, m: Memory) -> bool {
    m.peek(0xFF41) % 4 == p.mode
}

/// Setting or clearing the coincidence bit leaves the mode bits alone.
proof fn lemma_coincidence_keeps_mode(stat: u8)
    ensures
        (stat | 0x04) % 4 == stat % 4,
        (stat & 0xFB) % 4 == stat % 4,
{
    assert((stat | 0x04) % 4 == stat % 4) by (bit_vector);
    assert((stat & 0xFB) % 4 == stat % 4) by (bit_vector);
}

/// The LY register reads as the scanline the video controller is on.
pub open spec fn ly_shown(p: PPU, m: Memory) -> bool {
    m.peek(0xFF44) == p.ly
}

/// One entry of the sprite attribute table.
#[derive(Copy, Clone, Debug, PartialEq, Eq, Structural)]
pub struct Sprite {
    pub y: u8,
    pub x: u8,
    pub index: u8,
    pub attributes: u8,
}

impl Sprite {
    pub fn new(y: u8, x: u8, index: u8, attributes: u8) -> (r: Self)
        ensures
            r == (Sprite { y, x, index, attributes }),
    {
        Sprite { y: y, x: x, index: index, attributes: attributes }
    }
}

/// A decoded sprite pixel waiting in the sprite FIFO.
#[derive(Copy, Clone, Debug, PartialEq, Eq, Structural)]
pub struct SpritePixel {
    pub colour_id: u8,
    /// Address of the palette register that colours it.
    pub palette: u16,
    /// 1 when the sprite is drawn behind non-zero background colours.
    pub priority: u8,
}

impl SpritePixel {
    pub fn new(colour_id: u8, palette: u16, priority: u8) -> (r: Self)
        ensures
            r == (SpritePixel { colour_id, palette, priority }),
    {
        SpritePixel { colour_id, palette, priority }
    }
}

/// A decoded background or window pixel waiting in the background FIFO.
#[derive(Copy, Clone, Debug, PartialEq, Eq, Structural)]
pub struct BackgroundPixel {
    pub colour_id: u8,
    /// Address of the palette register that colours it.
    pub palette: u16,
}

impl BackgroundPixel {
    pub fn new(colour_id: u8, palette: u16) -> (r: Self)
        ensures
            r == (BackgroundPixel { colour_id, palette }),
    {
        BackgroundPixel { colour_id, palette }
    }
}

/// A first-in first-out queue.
pub struct Queue<T> {
    pub items: Vec<T>,
}

impl<T> Queue<T> {
    pub open spec fn view(&self) -> Seq<T> {
        self.items@
    }

    pub fn new() -> (r: Self)
        ensures
            r@.len() == 0,
    {
        Queue { items: Vec::new() }
    }

    pub fn len(&self) -> (r: usize)
        ensures
            r == self@.len(),
    {
        self.items.len()
    }

    pub fn is_empty(&self) -> (r: bool)
        ensures
            r == (self@.len() == 0),
    {
        self.items.len() == 0
    }

    /// Appends at the back.
    pub fn add(&mut self, value: T)
        ensures
            final(self)@ == old(self)@.push(value),
    {
        self.items.push(value);
    }

    /// Takes the front item, if any.
    pub fn remove(&mut self) -> (r: Option<T>)
        ensures
            old(self)@.len() == 0 ==> r.is_none() && final(self)@ == old(self)@,
            old(self)@.len() > 0 ==> r == Some(old(self)@[0]) && final(self)@ == old(self)@.remove(0),
    {
        if self.items.len() == 0 {
            None
        } else {
            Some(self.items.remove(0))
        }
    }

    pub fn clear(&mut self)
        ensures
            final(self)@.len() == 0,
    {
        self.items.clear();
    }
}

/// The steps of the pixel fetcher; each takes two dots.
#[derive(Copy, Clone, Debug, PartialEq, Eq, Structural)]
pub enum FetcherState {
    TileNumber,
    TileDataLow,
    TileDataHigh,
    PushToFifo,
}

/// Every pixel of the background FIFO has a colour index below 4 and there are at most 8.
pub open spec fn bg_fifo_wf(q: Queue<BackgroundPixel>) -> bool {
    &&& q@.len() <= 8
    &&& forall|i: int| 0 <= i < q@.len() ==> (#[trigger] q@[i]).colour_id <= 3
}

/// Every pixel of the sprite FIFO has a colour index below 4 and there are at most 8.
pub open spec fn sprite_fifo_wf(q: Queue<SpritePixel>) -> bool {
    &&& q@.len() <= 8
    &&& forall|i: int| 0 <= i < q@.len() ==> (#[trigger] q@[i]).colour_id <= 3
}

/// Fetches tile rows for the background/window and for sprites, and holds both pixel FIFOs.
pub struct PixelFetcher {
    /// Tile column the background/window fetch is at.
    pub fetcher_x: u8,
    /// Window rows drawn so far in this frame.
    pub window_line_counter: u8,
    pub tile_number: u8,
    pub tile_data_low: u8,
    pub tile_data_high: u8,
    pub sprite_tile_data_low: u8,
    pub sprite_tile_data_high: u8,
    pub rendering_window: bool,
    /// Dots since the fetcher last moved.
    pub cycles: u8,
    pub bgwin_state: FetcherState,
    pub sprite_state: FetcherState,
    pub first_tile: bool,
    pub sprite_fifo: Queue<SpritePixel>,
    pub bgwin_fifo: Queue<BackgroundPixel>,
}

impl PixelFetcher {
    pub open spec fn wf(&self) -> bool {
        bg_fifo_wf(self.bgwin_fifo) && sprite_fifo_wf(self.sprite_fifo)
    }

    pub fn new() -> (r: Self)
        ensures
            r.wf(),
            r.fetcher_x == 0 && r.window_line_counter == 0 && r.cycles == 0,
            r.bgwin_state == FetcherState::TileNumber && r.sprite_state == FetcherState::TileNumber,
            !r.rendering_window && !r.first_tile,
            r.bgwin_fifo@.len() == 0 && r.sprite_fifo@.len() == 0,
    {
        PixelFetcher {
            fetcher_x: 0,
            window_line_counter: 0,
            tile_number: 0,
            tile_data_low: 0,
            tile_data_high: 0,
            sprite_tile_data_low: 0,
            sprite_tile_data_high: 0,
            rendering_window: false,
            cycles: 0,
            bgwin_state: FetcherState::TileNumber,
            sprite_state: FetcherState::TileNumber,
            first_tile: false,
            sprite_fifo: Queue::new(),
            bgwin_fifo: Queue::new(),
        }
    }

    /// Reads the tile number from the window's or the background's tile map.
    pub fn fetch_tile_number(&mut self, memory: &Memory, ly: u8)
        requires
            memory.wf(),
        ensures
            final(self).tile_number == memory.peek(
                if old(self).rendering_window {
                    window_tile_map_address(memory.peek(0xFF40), old(self).window_line_counter, old(self).fetcher_x)
                } else {
                    bg_tile_map_address(
                        memory.peek(0xFF40),
                        memory.peek(0xFF42),
                        memory.peek(0xFF43),
                        ly,
                        old(self).fetcher_x,
                    )
                },
            ),
            *final(self) == (PixelFetcher { tile_number: final(self).tile_number, ..*old(self) }),
    {
        let lcdc = memory.read(0xFF40);
        let address: u16 = if self.rendering_window {
            let base: u16 = if lcdc & 0x40 == 0 {
                0x9800
            } else {
                0x9C00
            };
            base + (self.window_line_counter / 8) as u16 * 32 + (self.fetcher_x % 32) as u16
        } else {
            let base: u16 = if lcdc & 0x08 == 0 {
                0x9800
            } else {
                0x9C00
            };
            let scy = memory.read(0xFF42);
            let scx = memory.read(0xFF43);
            let row: u16 = ((ly as u16 + scy as u16) % 256) / 8;
            let col: u16 = (self.fetcher_x as u16 + (scx / 8) as u16) % 32;
            base + row * 32 + col
        };
        self.tile_number = memory.read(address);
    }

    /// Address of the byte of the current tile row that `high` selects.
    fn tile_row_byte_address(&self, memory: &Memory, ly: u8, high: bool) -> (r: u16)
        requires
            memory.wf(),
        ensures
            r == (tile_data_address(memory.peek(0xFF40), self.tile_number) + bg_row_offset(
                self.rendering_window,
                self.window_line_counter,
                ly,
                memory.peek(0xFF42),
            ) + if high { 1int } else { 0 }) as u16,
    {
        let lcdc = memory.read(0xFF40);
        let tile_address: u16 = if lcdc & 0x10 == 0 && self.tile_number < 128 {
            0x9000 + self.tile_number as u16 * 16
        } else {
            0x8000 + self.tile_number as u16 * 16
        };
        let scy = memory.read(0xFF42);
        let offset: u16 = if self.rendering_window {
            2 * (self.window_line_counter % 8) as u16
        } else {
            2 * (((ly as u16 + scy as u16) % 256) % 8)
        };
        if high {
            tile_address + offset + 1
        } else {
            tile_address + offset
        }
    }

    /// Reads the low bit plane of the current tile row.
    pub fn fetch_tile_data_low(&mut self, memory: &Memory, ly: u8)
        requires
            memory.wf(),
        ensures
            final(self).tile_data_low == memory.peek(
                (tile_data_address(memory.peek(0xFF40), old(self).tile_number) + bg_row_offset(
                    old(self).rendering_window,
                    old(self).window_line_counter,
                    ly,
                    memory.peek(0xFF42),
                )) as u16,
            ),
            *final(self) == (PixelFetcher { tile_data_low: final(self).tile_data_low, ..*old(self) }),
    {
        let address = self.tile_row_byte_address(memory, ly, false);
        self.tile_data_low = memory.read(address);
    }

    /// Reads the high bit plane of the current tile row; ends the first-tile delay.
    pub fn fetch_tile_data_high(&mut self, memory: &Memory, ly: u8)
        requires
            memory.wf(),
        ensures
            final(self).tile_data_high == memory.peek(
                (tile_data_address(memory.peek(0xFF40), old(self).tile_number) + bg_row_offset(
                    old(self).rendering_window,
                    old(self).window_line_counter,
                    ly,
                    memory.peek(0xFF42),
                ) + 1) as u16,
            ),
            *final(self) == (PixelFetcher {
                tile_data_high: final(self).tile_data_high,
                first_tile: false,
                bgwin_state: if old(self).first_tile {
                    FetcherState::TileNumber
                } else {
                    old(self).bgwin_state
                },
                ..*old(self)
            }),
    {
        let address = self.tile_row_byte_address(memory, ly, true);
        self.tile_data_high = memory.read(address);
        if self.first_tile {
            self.first_tile = false;
            self.bgwin_state = FetcherState::TileNumber;
        }
    }

    /// Decodes the fetched row into 8 pixels and queues them, but only into an empty FIFO;
    /// returns whether it did.
    pub fn push_to_fifo(&mut self) -> (r: bool)
        requires
            old(self).wf(),
        ensures
            final(self).wf(),
            r == (old(self).bgwin_fifo@.len() == 0),
            r ==> final(self).bgwin_fifo@.len() == 8 && final(self).fetcher_x == wrap8(old(self).fetcher_x + 1),
            r ==> forall|i: int| 0 <= i < 8 ==> #[trigger] final(self).bgwin_fifo@[i] == (BackgroundPixel {
                colour_id: pixel_colour(old(self).tile_data_low, old(self).tile_data_high, i as u8),
                palette: 0xFF47,
            }),
            r ==> *final(self) == (PixelFetcher {
                bgwin_fifo: final(self).bgwin_fifo,
                fetcher_x: final(self).fetcher_x,
                ..*old(self)
            }),
            !r ==> *final(self) == *old(self),
    {
        if self.bgwin_fifo.is_empty() {
            let mut n: u8 = 0;
            while n < 8
                invariant
                    n <= 8,
                    self.bgwin_fifo@.len() == n,
                    forall|i: int| 0 <= i < n ==> #[trigger] self.bgwin_fifo@[i] == (BackgroundPixel {
                        colour_id: pixel_colour(old(self).tile_data_low, old(self).tile_data_high, i as u8),
                        palette: 0xFF47,
                    }),
                    forall|i: int| 0 <= i < n ==> (#[trigger] self.bgwin_fifo@[i]).colour_id <= 3,
                    *self == (PixelFetcher { bgwin_fifo: self.bgwin_fifo, ..*old(self) }),
                decreases 8 - n,
            {
                let colour: u8 = ((self.tile_data_high >> (7 - n)) % 2) * 2 + (self.tile_data_low >> (7
                    - n)) % 2;
                self.bgwin_fifo.add(BackgroundPixel::new(colour, 0xFF47));
                n = n + 1;
            }
            self.fetcher_x = self.fetcher_x.wrapping_add(1);
            true
        } else {
            false
        }
    }

    /// Address of the row of `sprite` shown on scanline `ly`, plus 1 for the high plane.
    fn sprite_row_byte_address(memory: &Memory, ly: u8, sprite: &Sprite, high: bool) -> (r: u16)
        requires
            memory.wf(),
        ensures
            r == (sprite_row_address(memory.peek(0xFF40), ly, *sprite) + if high { 1int } else { 0 }) as u16,
    {
        let lcdc = memory.read(0xFF40);
        proof {
            let a = ly + 16 - sprite.y;
            vstd::arithmetic::div_mod::lemma_mod_multiples_vanish(32, a, 8);
            vstd::arithmetic::div_mod::lemma_mod_multiples_vanish(16, a, 16);
        }
        let h: u16 = if lcdc & 0x04 == 0 {
            8
        } else {
            16
        };
        let row: u16 = if h == 8 {
            (ly as u16 + 16 + 256 - sprite.y as u16) % 8
        } else {
            (ly as u16 + 16 + 256 - sprite.y as u16) % 16
        };
        let flipped: u16 = if sprite.attributes & 0x40 != 0 {
            h - 1 - row
        } else {
            row
        };
        let address: u16 = 0x8000 + sprite.index as u16 * 16 + 2 * flipped;
        if high {
            address + 1
        } else {
            address
        }
    }

    /// Reads the low bit plane of the sprite's row on this scanline.
    pub fn sprite_fetch_tile_data_low(&mut self, memory: &Memory, ly: u8, sprite: &Sprite)
        requires
            memory.wf(),
        ensures
            final(self).sprite_tile_data_low == memory.peek(sprite_row_address(memory.peek(0xFF40), ly, *sprite)),
            *final(self) == (PixelFetcher { sprite_tile_data_low: final(self).sprite_tile_data_low, ..*old(self) }),
    {
        let address = Self::sprite_row_byte_address(memory, ly, sprite, false);
        self.sprite_tile_data_low = memory.read(address);
    }

    /// Reads the high bit plane of the sprite's row on this scanline.
    pub fn sprite_fetch_tile_data_high(&mut self, memory: &Memory, ly: u8, sprite: &Sprite)
        requires
            memory.wf(),
        ensures
            final(self).sprite_tile_data_high == memory.peek(
                (sprite_row_address(memory.peek(0xFF40), ly, *sprite) + 1) as u16,
            ),
            *final(self) == (PixelFetcher { sprite_tile_data_high: final(self).sprite_tile_data_high, ..*old(self) }),
    {
        let address = Self::sprite_row_byte_address(memory, ly, sprite, true);
        self.sprite_tile_data_high = memory.read(address);
    }

    /// Merges the fetched sprite row into the sprite FIFO: the pixels already queued stay in
    /// front, and the sprite fills the slots behind them up to 8, flipped as its attributes say.
    pub fn push_to_sprite_fifo(&mut self, sprite: &Sprite)
        requires
            old(self).wf(),
        ensures
            final(self).wf(),
            final(self).sprite_fifo@.len() == 8,
            forall|i: int| 0 <= i < old(self).sprite_fifo@.len() ==> #[trigger] final(self).sprite_fifo@[i] == old(self).sprite_fifo@[i],
            forall|i: int| old(self).sprite_fifo@.len() <= i < 8 ==> #[trigger] final(self).sprite_fifo@[i] == sprite_pixel_at(
                old(self).sprite_tile_data_low,
                old(self).sprite_tile_data_high,
                sprite.attributes,
                i as u8,
            ),
            *final(self) == (PixelFetcher { sprite_fifo: final(self).sprite_fifo, ..*old(self) }),
    {
        let start = self.sprite_fifo.len();
        let mut n: u8 = start as u8;
        while n < 8
            invariant
                start == old(self).sprite_fifo@.len(),
                start <= n <= 8,
                self.sprite_fifo@.len() == n,
                forall|i: int| 0 <= i < start ==> #[trigger] self.sprite_fifo@[i] == old(self).sprite_fifo@[i],
                forall|i: int| start <= i < n ==> #[trigger] self.sprite_fifo@[i] == sprite_pixel_at(
                    old(self).sprite_tile_data_low,
                    old(self).sprite_tile_data_high,
                    sprite.attributes,
                    i as u8,
                ),
                forall|i: int| 0 <= i < n ==> (#[trigger] self.sprite_fifo@[i]).colour_id <= 3,
                *self == (PixelFetcher { sprite_fifo: self.sprite_fifo, ..*old(self) }),
            decreases 8 - n,
        {
            let p: u8 = if sprite.attributes & 0x20 != 0 {
                7 - n
            } else {
                n
            };
            let colour: u8 = ((self.sprite_tile_data_high >> (7 - p)) % 2) * 2 + (self.sprite_tile_data_low
                >> (7 - p)) % 2;
            let palette: u16 = if sprite.attributes & 0x10 == 0 {
                0xFF48
            } else {
                0xFF49
            };
            let priority: u8 = if sprite.attributes & 0x80 != 0 {
                1
            } else {
                0
            };
            self.sprite_fifo.add(SpritePixel::new(colour, palette, priority));
            n = n + 1;
        }
    }
}

/// The step after `s` in the fetcher's cycle.
pub open spec fn next_fetch_state(s: FetcherState) -> FetcherState {
    match s {
        FetcherState::TileNumber => FetcherState::TileDataLow,
        FetcherState::TileDataLow => FetcherState::TileDataHigh,
        FetcherState::TileDataHigh => FetcherState::PushToFifo,
        FetcherState::PushToFifo => FetcherState::TileNumber,
    }
}

/// `r` is `s` rearranged in order of x.
pub open spec fn sorted_from(r: Seq<Sprite>, s: Seq<Sprite>) -> bool {
    &&& r.len() == s.len()
    &&& r.to_multiset() == s.to_multiset()
    &&& forall|i: int, j: int| 0 <= i < j < r.len() ==> (#[trigger] r[i]).x <= (#[trigger] r[j]).x
    &&& forall|i: int| 0 <= i < r.len() ==> s.contains(#[trigger] r[i])
    &&& exists|idx: Seq<int>| #[trigger] stable_positions(r, s, idx)
}

/// `idx` gives, for each item of `r`, its own position in `s`, and sprites with equal x
/// keep the order they had in `s`.
pub open spec fn stable_positions(r: Seq<Sprite>, s: Seq<Sprite>, idx: Seq<int>) -> bool {
    &&& idx.len() == r.len()
    &&& forall|i: int| 0 <= i < r.len() ==> 0 <= #[trigger] idx[i] < s.len() && r[i] == s[idx[i]]
    &&& forall|i: int, j: int| 0 <= i < j < r.len() ==> #[trigger] idx[i] != #[trigger] idx[j]
    &&& forall|i: int, j: int| 0 <= i < j < r.len() && r[i].x == r[j].x ==> #[trigger] idx[i] < #[trigger] idx[j]
}

/// The modes the video controller may pass from one to the next within a dot.
pub open spec fn mode_step(m0: u8, m1: u8) -> bool {
    m0 == m1 || (m0 == 2 && m1 == 3) || (m0 == 3 && m1 == 0) || (m0 == 0 && (m1 == 2 || m1 == 1)) || (
    m0 == 1 && m1 == 2)
}

/// The video controller: a scanline state machine over OAM scan (mode 2), pixel transfer
/// (mode 3), horizontal blank (mode 0) and vertical blank (mode 1).
pub struct PPU {
    pub mode: u8,
    /// Dots into the current scanline.
    pub cycles: u16,
    /// Current scanline, 0–153.
    pub ly: u8,
    /// Next output column, 0–159.
    pub x: u8,
    pub mode_3_penalty: u16,
    pub obj_penalty: u16,
    pub rendering_window: bool,
    pub entered_window: bool,
    /// One-shot: vertical blank was entered; consumed by the interrupt controller.
    pub entered_vblank: bool,
    /// One-shot: an LCD status interrupt was raised; consumed by the interrupt controller.
    pub stat_irq: bool,
    /// The line-compare interrupt already fired on this scanline.
    pub first_irq_on_scanline: bool,
    /// Next OAM entry the scan looks at.
    pub oam_pointer: usize,
    /// Sprites selected for this scanline, at most 10.
    pub sprite_buffer: Vec<Sprite>,
    pub fetching_sprite: bool,
    pub sprite_to_render: Sprite,
    /// One grey level per pixel, 160 × 144, row-major.
    pub framebuffer: Vec<u8>,
    /// One-shot: a frame is complete; consumed by the host that presents it.
    pub frame_ready: bool,
    pub pixel_fetcher: PixelFetcher,
}

/// Pixels in the background FIFO once the fetcher's dot has run: a push of 8 into an empty
/// FIFO, or what was there.
pub open spec fn fifo_after_fetch(p: PPU) -> int {
    if p.pixel_fetcher.bgwin_fifo@.len() == 0 && p.pixel_fetcher.bgwin_state == FetcherState::PushToFifo {
        8
    } else {
        p.pixel_fetcher.bgwin_fifo@.len() as int
    }
}

/// The background FIFO once the fetcher's dot has run: the fetched row decoded into 8
/// pixels when a push into the empty FIFO happens, else the FIFO as it was.
pub open spec fn fifo_seq_after_fetch(p: PPU) -> Seq<BackgroundPixel> {
    let f = p.pixel_fetcher;
    if f.bgwin_fifo@.len() == 0 && f.bgwin_state == FetcherState::PushToFifo {
        Seq::new(8, |i: int| BackgroundPixel { colour_id: pixel_colour(f.tile_data_low, f.tile_data_high, i as u8), palette: 0xFF47 })
    } else {
        f.bgwin_fifo@
    }
}

/// How many leading pixels a dot drops before emitting: the fine horizontal scroll at
/// column 0, none elsewhere.
pub open spec fn dropped(p: PPU, m: Memory) -> int {
    if p.x == 0 {
        (m.peek(0xFF43) % 8) as int
    } else {
        0
    }
}

/// Whether a pixel-transfer dot of the background fetcher emits a pixel: the FIFO holds
/// pixels after the fetch and, at column 0, after the fine-scroll pixels are dropped.
pub open spec fn emits(p: PPU, m: Memory) -> bool {
    if p.x == 0 {
        fifo_after_fetch(p) > (m.peek(0xFF43) % 8) as int
    } else {
        fifo_after_fetch(p) > 0
    }
}

impl PPU {
    /// The dot's common work before the mode runs: the dot counters move on, and a
    /// line-compare match (enabled, not yet fired on this line) raises the status interrupt
    /// and sets the coincidence bit, which is otherwise cleared while the source is enabled.
    pub open spec fn dotted(a: PPU, m0: Memory, b: PPU, m1: Memory) -> bool {
        let stat = m0.peek(0xFF41);
        let hit = stat & 0x40 != 0 && a.ly == m0.peek(0xFF45) && !a.first_irq_on_scanline;
        &&& b == (PPU {
            cycles: wrap16(a.cycles + 1),
            stat_irq: a.stat_irq || hit,
            first_irq_on_scanline: a.first_irq_on_scanline || hit,
            pixel_fetcher: PixelFetcher { cycles: wrap8(a.pixel_fetcher.cycles + 1), ..a.pixel_fetcher },
            ..a
        })
        &&& stat & 0x40 != 0 ==> m0.stores(m1, 0xFF41, if hit { stat | 0x04 } else { stat & 0xFB })
        &&& stat & 0x40 == 0 ==> m1 == m0
    }

    /// Horizontal blank: at dot 456 the next line starts (vertical blank after line 143),
    /// with LY and the status mode bits showing it; before that nothing moves.
    pub open spec fn hblank_done(a: PPU, m0: Memory, b: PPU, m1: Memory) -> bool {
        &&& a.cycles >= DOTS_PER_LINE ==> {
            &&& b.ly == a.ly + 1
            &&& b.mode == if a.ly == 143 { 1u8 } else { 2u8 }
            &&& b.cycles == 0 && b.x == 0
            &&& b.sprite_buffer@.len() == 0
            &&& b.pixel_fetcher.fetcher_x == 0
            &&& !b.entered_window
            &&& a.ly == 143 ==> b.entered_vblank && b.frame_ready
            &&& m1.peek(0xFF44) == b.ly
            &&& m1.peek(0xFF41) % 4 == b.mode
        }
        &&& a.cycles >= DOTS_PER_LINE ==> b.oam_pointer == 0
        &&& a.cycles < DOTS_PER_LINE ==> m1 == m0 && b == if a.rendering_window {
            PPU {
                rendering_window: false,
                pixel_fetcher: PixelFetcher {
                    rendering_window: false,
                    window_line_counter: wrap8(a.pixel_fetcher.window_line_counter + 1),
                    ..a.pixel_fetcher
                },
                ..a
            }
        } else {
            a
        }
    }

    /// Vertical blank: lines 144–153 of 456 dots each, then line 0 in OAM scan.
    pub open spec fn vblank_done(a: PPU, m0: Memory, b: PPU, m1: Memory) -> bool {
        &&& a.ly == 153 && a.cycles >= DOTS_PER_LINE ==> b.mode == 2 && b.ly == 0 && b.cycles == 0 && b.x == 0
            && b.pixel_fetcher.window_line_counter == 0 && m1.peek(0xFF44) == 0 && m1.peek(0xFF41) % 4 == 2
            && b.sprite_buffer@.len() == 0 && b.oam_pointer == 0
        &&& a.ly != 153 && a.cycles >= DOTS_PER_LINE ==> b.mode == 1 && b.ly == a.ly + 1 && b.cycles == 0
            && m1.peek(0xFF44) == b.ly && m1.peek(0xFF41) == m0.peek(0xFF41)
        &&& a.cycles < DOTS_PER_LINE ==> b.mode == 1 && b.ly == a.ly && b.cycles == a.cycles && m1 == m0
    }

    /// OAM scan: at dot 80 pixel transfer starts with empty FIFOs and the buffer in x order;
    /// before that at most one more covering sprite with non-zero x joins the buffer.
    pub open spec fn oam_done(a: PPU, m0: Memory, b: PPU, m1: Memory) -> bool {
        &&& a.cycles == 80 ==> {
            &&& b.mode == 3 && b.x == 0
            &&& b.pixel_fetcher.bgwin_fifo@.len() == 0
            &&& b.pixel_fetcher.sprite_fifo@.len() == 0
            &&& b.pixel_fetcher.bgwin_state == FetcherState::TileNumber
            &&& b.pixel_fetcher.cycles == 0
            &&& b.oam_pointer == 0
            &&& sorted_from(b.sprite_buffer@, a.sprite_buffer@)
            &&& m1.peek(0xFF41) % 4 == 3
        }
        &&& a.cycles != 80 ==> b.mode == 2 && m1 == m0
        &&& a.cycles != 80 && a.sprite_buffer@.len() == 10 ==> b.sprite_buffer@ == a.sprite_buffer@
        &&& a.cycles != 80 && (forall|k: int| a.oam_pointer <= k < 40 ==> !entry_visible(m0, k, a.ly))
            ==> b.sprite_buffer@ == a.sprite_buffer@
        &&& a.cycles != 80 && a.sprite_buffer@.len() < 10 && (exists|j: int| first_visible_from(m0, a.oam_pointer as int, j, a.ly))
            ==> exists|j: int| #[trigger] first_visible_from(m0, a.oam_pointer as int, j, a.ly)
            && b.sprite_buffer@ == a.sprite_buffer@.push(entry_sprite(m0, j)) && b.oam_pointer == j + 1
    }

    /// A sprite-fetch dot: the sprite fetcher steps every two dots, reading the sprite's row
    /// and then merging it into the sprite FIFO, which ends the sprite fetch.
    pub open spec fn sprite_done(a: PPU, m0: Memory, b: PPU, m1: Memory) -> bool {
        let f = a.pixel_fetcher;
        &&& b.mode == 3 && b.x == a.x && b.ly == a.ly && b.framebuffer == a.framebuffer && m1 == m0
        &&& f.sprite_state == FetcherState::PushToFifo ==> {
            &&& b.pixel_fetcher.sprite_state == FetcherState::TileNumber
            &&& !b.fetching_sprite
            &&& b.pixel_fetcher.sprite_fifo@.len() == 8
            &&& forall|i: int| 0 <= i < f.sprite_fifo@.len() ==> #[trigger] b.pixel_fetcher.sprite_fifo@[i]
                == f.sprite_fifo@[i]
            &&& forall|i: int| f.sprite_fifo@.len() <= i < 8 ==> #[trigger] b.pixel_fetcher.sprite_fifo@[i]
                == sprite_pixel_at(f.sprite_tile_data_low, f.sprite_tile_data_high, a.sprite_to_render.attributes, i as u8)
        }
        &&& f.sprite_state != FetcherState::PushToFifo && f.cycles == 2 ==> b.pixel_fetcher.sprite_state
            == next_fetch_state(f.sprite_state) && b.pixel_fetcher.cycles == 0
        &&& f.sprite_state == FetcherState::TileDataLow && f.cycles == 2 ==> b.pixel_fetcher.sprite_tile_data_low
            == m0.peek(sprite_row_address(m0.peek(0xFF40), a.ly, a.sprite_to_render))
        &&& f.sprite_state == FetcherState::TileDataHigh && f.cycles == 2 ==> b.pixel_fetcher.sprite_tile_data_high
            == m0.peek((sprite_row_address(m0.peek(0xFF40), a.ly, a.sprite_to_render) + 1) as u16)
        &&& f.sprite_state != FetcherState::PushToFifo && f.cycles != 2 ==> b == a
    }

    /// Four consecutive dots.
    pub open spec fn four_dots(a: PPU, m0: Memory, b: PPU, m4: Memory) -> bool {
        exists|p1: PPU, m1: Memory, p2: PPU, m2: Memory, p3: PPU, m3: Memory|
            {
                &&& #[trigger] Self::stepped(a, m0, p1, m1)
                &&& #[trigger] Self::stepped(p1, m1, p2, m2)
                &&& #[trigger] Self::stepped(p2, m2, p3, m3)
                &&& Self::stepped(p3, m3, b, m4)
            }
    }

    /// The work of the mode the controller is in.
    pub open spec fn mode_work(a: PPU, m0: Memory, b: PPU, m1: Memory) -> bool {
        &&& a.mode == 0 ==> Self::hblank_done(a, m0, b, m1)
        &&& a.mode == 1 ==> Self::vblank_done(a, m0, b, m1)
        &&& a.mode == 2 ==> Self::oam_done(a, m0, b, m1)
        &&& a.mode == 3 && a.fetching_sprite ==> Self::sprite_done(a, m0, b, m1)
        &&& a.mode == 3 && !a.fetching_sprite ==> Self::bgwin_done(a, m0, b, m1)
    }

    /// One dot: the common work, then the mode's.
    pub open spec fn stepped(a: PPU, m0: Memory, b: PPU, m1: Memory) -> bool {
        &&& b.wf()
        &&& ppu_frame(m0, m1)
        &&& exists|mid: PPU, mm: Memory| #[trigger] Self::dotted(a, m0, mid, mm) && Self::mode_work(mid, mm, b, m1)
    }
}

/// Whether the emitting half of a dot emits a pixel, from the FIFO as the fetch left it.
pub open spec fn emits_now(p: PPU, m: Memory) -> bool {
    if p.x == 0 {
        p.pixel_fetcher.bgwin_fifo@.len() > (m.peek(0xFF43) % 8) as int
    } else {
        p.pixel_fetcher.bgwin_fifo@.len() > 0
    }
}

impl PPU {
    /// What a pixel-transfer dot without a sprite fetch does. The fetcher moves to its next
    /// step when its dot counter reaches 2; a pixel is emitted exactly when `emits` holds,
    /// written at (x, ly) and moving x on, and the 160th pixel ends the line in horizontal
    /// blank with the mode bits of the status register cleared. Where the FIFO already held
    /// pixels away from column 0, the pixel is the mix of the two FIFO fronts.
    pub open spec fn bgwin_done(a: PPU, m0: Memory, b: PPU, m1: Memory) -> bool {
        let idx = a.ly * 160 + a.x;
        let f = a.pixel_fetcher;
        &&& b.ly == a.ly
        &&& forall|i: int| 0 <= i < b.framebuffer@.len() && i != idx ==> #[trigger] b.framebuffer@[i] == a.framebuffer@[i]
        &&& emits(a, m0) && a.x == 159 ==> b.mode == 0 && b.x == 0 && m1.peek(0xFF41) % 4 == 0
        &&& emits(a, m0) && a.x < 159 ==> b.mode == 3 && b.x == a.x + 1
        &&& !(emits(a, m0) && a.x == 159) ==> m1 == m0
        &&& !emits(a, m0) ==> b.mode == 3 && b.x == a.x && b.framebuffer == a.framebuffer
        &&& emits(a, m0) ==> b.framebuffer@[idx] == mixed_shade(
            fifo_seq_after_fetch(a)[dropped(a, m0)],
            if f.sprite_fifo@.len() > 0 {
                Some(f.sprite_fifo@[0])
            } else {
                None
            },
            m0.peek(0xFF40),
            m0.peek(fifo_seq_after_fetch(a)[dropped(a, m0)].palette),
            m0.peek(f.sprite_fifo@[0].palette),
        )
        &&& !emits(a, m0) && f.bgwin_state != FetcherState::PushToFifo && f.cycles == 2 ==> b.pixel_fetcher.bgwin_state
            == next_fetch_state(f.bgwin_state) && b.pixel_fetcher.cycles == 0
        &&& !emits(a, m0) && f.bgwin_state != FetcherState::PushToFifo && f.cycles != 2 ==> b.pixel_fetcher.bgwin_state
            == f.bgwin_state && b.pixel_fetcher.cycles == f.cycles
        &&& !emits(a, m0) && f.bgwin_state == FetcherState::TileNumber && f.cycles == 2 ==> b.pixel_fetcher.tile_number == m0.peek(
            if f.rendering_window {
                window_tile_map_address(m0.peek(0xFF40), f.window_line_counter, f.fetcher_x)
            } else {
                bg_tile_map_address(m0.peek(0xFF40), m0.peek(0xFF42), m0.peek(0xFF43), a.ly, f.fetcher_x)
            },
        )
    }
}

impl PPU {
    pub open spec fn wf(&self) -> bool {
        &&& self.mode <= 3
        &&& self.sprite_buffer@.len() <= 10
        &&& self.oam_pointer <= 40
        &&& self.pixel_fetcher.wf()
        &&& self.framebuffer@.len() == SCREEN_WIDTH * SCREEN_HEIGHT
        &&& self.mode != 1 ==> self.ly < 144
        &&& self.mode == 1 ==> 144 <= self.ly <= 153
        &&& self.mode == 3 ==> self.x < 160
        &&& self.x < 160
        &&& self.mode == 1 ==> self.sprite_buffer@.len() == 0 && self.oam_pointer == 0
    }

    /// A controller at the start of an OAM scan of line 0, with a blank screen.
    pub fn new() -> (r: Self)
        ensures
            r.wf(),
            r.mode == 2 && r.cycles == 0 && r.ly == 0 && r.x == 0,
            r.sprite_buffer@.len() == 0,
            !r.entered_vblank && !r.stat_irq && !r.frame_ready,
    {
        let mut framebuffer: Vec<u8> = Vec::new();
        let mut i: usize = 0;
        while i < SCREEN_WIDTH * SCREEN_HEIGHT
            invariant
                i <= SCREEN_WIDTH * SCREEN_HEIGHT,
                framebuffer@.len() == i,
            decreases SCREEN_WIDTH * SCREEN_HEIGHT - i,
        {
            framebuffer.push(255);
            i = i + 1;
        }
        PPU {
            mode: 2,
            cycles: 0,
            ly: 0,
            x: 0,
            mode_3_penalty: 0,
            obj_penalty: 0,
            rendering_window: false,
            entered_window: false,
            entered_vblank: false,
            stat_irq: false,
            first_irq_on_scanline: false,
            oam_pointer: 0,
            sprite_buffer: Vec::new(),
            fetching_sprite: false,
            sprite_to_render: Sprite::new(0, 0, 0, 0),
            framebuffer,
            frame_ready: false,
            pixel_fetcher: PixelFetcher::new(),
        }
    }

    /// Four dots: one machine cycle.
    pub fn tick(&mut self, memory: &mut Memory)
        requires
            old(self).wf(),
            old(memory).wf(),
        ensures
            mode_shown(*old(self), *old(memory)) ==> mode_shown(*final(self), *final(memory)),
            Self::four_dots(*old(self), *old(memory), *final(self), *final(memory)),
            final(self).wf(),
            ppu_frame(*old(memory), *final(memory)),
            ly_shown(*old(self), *old(memory)) ==> ly_shown(*final(self), *final(memory)),
            old(self).stat_irq ==> final(self).stat_irq,
    {
        self.step(memory);
        let ghost p1 = *self;
        let ghost m1 = *memory;
        self.step(memory);
        let ghost p2 = *self;
        let ghost m2 = *memory;
        self.step(memory);
        let ghost p3 = *self;
        let ghost m3 = *memory;
        self.step(memory);
        assert(Self::stepped(p3, m3, *self, *memory));
        assert(Self::stepped(*old(self), *old(memory), p1, m1) && Self::stepped(p1, m1, p2, m2) && Self::stepped(
            p2,
            m2,
            p3,
            m3,
        ));
    }

    /// Writes the mode into the low two bits of the LCD status register.
    fn write_stat_mode(&self, memory: &mut Memory)
        requires
            old(memory).wf(),
        ensures
            ppu_frame(*old(memory), *final(memory)),
            final(memory).peek(0xFF44) == old(memory).peek(0xFF44),
            final(memory).peek(0xFF41) % 4 == self.mode % 4,
    {
        let stat = memory.read(0xFF41);
        proof {
            lemma_mode_bits_set(stat, self.mode % 4);
        }
        memory.write(0xFF41, (stat & 0xFC) | (self.mode % 4));
    }

    /// One dot: the line-compare check, then the work of the current mode.
    pub fn step(&mut self, memory: &mut Memory)
        requires
            old(self).wf(),
            old(memory).wf(),
        ensures
            mode_shown(*old(self), *old(memory)) ==> mode_shown(*final(self), *final(memory)),
            Self::stepped(*old(self), *old(memory), *final(self), *final(memory)),
            ly_shown(*old(self), *old(memory)) ==> ly_shown(*final(self), *final(memory)),
            old(memory).peek(0xFF41) & 0x40 != 0 && old(self).ly == old(memory).peek(0xFF45)
                && !old(self).first_irq_on_scanline ==> final(self).stat_irq,
            old(self).stat_irq ==> final(self).stat_irq,
            final(self).wf(),
            ppu_frame(*old(memory), *final(memory)),
            mode_step(old(self).mode, final(self).mode),
    {
        let stat = memory.read(0xFF41);
        proof {
            lemma_coincidence_keeps_mode(stat);
        }
        if stat & 0x40 != 0 {
            let lyc = memory.read(0xFF45);
            if self.ly == lyc && !self.first_irq_on_scanline {
                self.stat_irq = true;
                memory.write(0xFF41, stat | 0x04);
                self.first_irq_on_scanline = true;
            } else {
                memory.write(0xFF41, stat & 0xFB);
            }
        }
        self.cycles = self.cycles.wrapping_add(1);
        self.pixel_fetcher.cycles = self.pixel_fetcher.cycles.wrapping_add(1);
        let ghost mid = *self;
        let ghost mm = *memory;
        assert(Self::dotted(*old(self), *old(memory), mid, mm));
        if self.mode == 0 {
            self.h_blank(memory);
        } else if self.mode == 1 {
            self.v_blank(memory);
        } else if self.mode == 2 {
            self.oam_scan(memory);
        } else if self.fetching_sprite {
            self.mode_3_sprite_fetch(memory);
        } else {
            self.mode_3_bgwin_fetch(memory);
        }
        assert(Self::mode_work(mid, mm, *self, *memory));
    }

    /// Moves to the next scanline and mirrors it into the LY register.
    pub fn inc_ly(&mut self, memory: &mut Memory)
        requires
            old(memory).wf(),
        ensures
            final(memory).peek(0xFF41) == old(memory).peek(0xFF41),
            *final(self) == (PPU { ly: wrap8(old(self).ly + 1), first_irq_on_scanline: false, ..*old(self) }),
            ppu_frame(*old(memory), *final(memory)),
            final(memory).peek(0xFF44) == final(self).ly,
    {
        self.ly = self.ly.wrapping_add(1);
        memory.write(0xFF44, self.ly);
        self.first_irq_on_scanline = false;
    }

    /// Whether the window covers the current position: line at or below WY, column at or
    /// right of WX − 7, and the window enabled.
    pub open spec fn window_condition(&self, memory: Memory) -> bool {
        &&& self.ly >= memory.peek(0xFF4A)
        &&& self.x + 7 >= memory.peek(0xFF4B)
        &&& memory.peek(0xFF40) & 0x20 != 0
    }

    /// Switches the fetcher to the window where it begins; the first time on a line this
    /// restarts the fetch at tile column 0 and drops the queued background pixels.
    #[verifier::rlimit(40)]
    pub fn rendering_window(&mut self, memory: &Memory)
        requires
            old(self).wf(),
            memory.wf(),
        ensures
            final(self).stat_irq == old(self).stat_irq,
            final(self).wf(),
            final(self).rendering_window == old(self).window_condition(*memory),
            final(self).pixel_fetcher.rendering_window == final(self).rendering_window,
            final(self).rendering_window && !old(self).entered_window ==> final(self).pixel_fetcher.fetcher_x == 0
                && final(self).pixel_fetcher.bgwin_fifo@.len() == 0 && final(self).pixel_fetcher.bgwin_state
                == FetcherState::TileNumber,
            !(final(self).rendering_window && !old(self).entered_window) ==> final(self).pixel_fetcher
                == (PixelFetcher { rendering_window: final(self).rendering_window, ..old(self).pixel_fetcher }),
            final(self).entered_window == (old(self).entered_window || final(self).rendering_window),
            final(self).mode == old(self).mode && final(self).x == old(self).x && final(self).ly == old(self).ly,
            final(self).framebuffer == old(self).framebuffer && final(self).sprite_buffer == old(self).sprite_buffer,
            final(self).pixel_fetcher.sprite_fifo == old(self).pixel_fetcher.sprite_fifo,
    {
        let wy = memory.read(0xFF4A);
        let wx = memory.read(0xFF4B);
        let window_enabled = memory.read(0xFF40) & 0x20 != 0;
        if self.ly >= wy && self.x as u16 + 7 >= wx as u16 && window_enabled {
            self.rendering_window = true;
            self.pixel_fetcher.rendering_window = true;
            if !self.entered_window {
                self.pixel_fetcher.fetcher_x = 0;
                self.pixel_fetcher.bgwin_state = FetcherState::TileNumber;
                self.pixel_fetcher.bgwin_fifo.clear();
                self.entered_window = true;
            }
        } else {
            self.rendering_window = false;
            self.pixel_fetcher.rendering_window = false;
        }
    }

    /// Horizontal blank: idles until the line's 456 dots are spent, then starts the next
    /// line, entering vertical blank after line 143.
    pub fn h_blank(&mut self, memory: &mut Memory)
        requires
            old(self).wf(),
            old(self).mode == 0,
            old(memory).wf(),
        ensures
            Self::hblank_done(*old(self), *old(memory), *final(self), *final(memory)),
            old(self).cycles < DOTS_PER_LINE ==> *final(memory) == *old(memory),
            ly_shown(*old(self), *old(memory)) ==> ly_shown(*final(self), *final(memory)),
            old(self).stat_irq ==> final(self).stat_irq,
            final(self).wf(),
            ppu_frame(*old(memory), *final(memory)),
            old(self).cycles >= DOTS_PER_LINE ==> {
                &&& final(self).ly == old(self).ly + 1
                &&& final(self).mode == if old(self).ly == 143 { 1u8 } else { 2u8 }
                &&& final(self).cycles == 0 && final(self).x == 0
                &&& final(self).sprite_buffer@.len() == 0
                &&& final(self).pixel_fetcher.fetcher_x == 0
                &&& !final(self).entered_window
                &&& old(self).ly == 143 ==> final(self).entered_vblank && final(self).frame_ready
                &&& final(memory).peek(0xFF44) == final(self).ly
            },
            old(self).cycles < DOTS_PER_LINE ==> final(self).mode == 0 && final(self).ly == old(self).ly
                && final(self).cycles == old(self).cycles,
    {
        if self.rendering_window {
            self.rendering_window = false;
            self.pixel_fetcher.rendering_window = false;
            self.pixel_fetcher.window_line_counter = self.pixel_fetcher.window_line_counter.wrapping_add(1);
        }
        if self.cycles >= DOTS_PER_LINE {
            if self.ly == 143 {
                self.set_to_v_blank(memory);
            } else {
                self.mode = 2;
                self.pixel_fetcher.bgwin_fifo.clear();
                let stat = memory.read(0xFF41);
                let lyc = memory.read(0xFF45);
                if stat & 0x20 != 0 && self.ly != lyc {
                    self.stat_irq = true;
                }
                proof {
                    lemma_mode_bits_set(stat, 2);
                }
                memory.write(0xFF41, (stat & 0xFC) | 2);
            }
            self.inc_ly(memory);
            self.sprite_buffer.clear();
            self.oam_pointer = 0;
            self.entered_window = false;
            self.cycles = 0;
            self.x = 0;
            self.pixel_fetcher.fetcher_x = 0;
            self.mode_3_penalty = 0;
            self.obj_penalty = 0;
        }
    }

    /// Vertical blank: counts lines 144–153, then wraps to line 0 and a new frame.
    pub fn v_blank(&mut self, memory: &mut Memory)
        requires
            old(self).wf(),
            old(self).mode == 1,
            old(memory).wf(),
        ensures
            old(self).ly != 153 ==> final(memory).peek(0xFF41) == old(memory).peek(0xFF41),
            Self::vblank_done(*old(self), *old(memory), *final(self), *final(memory)),
            old(self).cycles < DOTS_PER_LINE ==> *final(memory) == *old(memory),
            ly_shown(*old(self), *old(memory)) ==> ly_shown(*final(self), *final(memory)),
            old(self).stat_irq ==> final(self).stat_irq,
            final(self).wf(),
            ppu_frame(*old(memory), *final(memory)),
            old(self).ly == 153 && old(self).cycles >= DOTS_PER_LINE ==> final(self).mode == 2 && final(self).ly
                == 0 && final(self).cycles == 0 && final(self).x == 0
                && final(self).pixel_fetcher.window_line_counter == 0 && final(memory).peek(0xFF44) == 0,
            old(self).ly != 153 && old(self).cycles >= DOTS_PER_LINE ==> final(self).mode == 1 && final(self).ly
                == old(self).ly + 1 && final(self).cycles == 0 && final(memory).peek(0xFF44) == final(self).ly,
            old(self).cycles < DOTS_PER_LINE ==> final(self).mode == 1 && final(self).ly == old(self).ly
                && final(self).cycles == old(self).cycles,
    {
        if self.ly == 153 && self.cycles >= DOTS_PER_LINE {
            self.mode = 2;
            self.ly = 0;
            memory.write(0xFF44, 0);
            self.write_stat_mode(memory);
            self.cycles = 0;
            self.x = 0;
            self.entered_vblank = false;
            self.pixel_fetcher.window_line_counter = 0;
        }
        if self.cycles >= DOTS_PER_LINE {
            self.inc_ly(memory);
            self.cycles = 0;
        }
    }

    /// Enters vertical blank: raises the one-shot frame events.
    pub fn set_to_v_blank(&mut self, memory: &mut Memory)
        requires
            old(memory).wf(),
        ensures
            final(memory).peek(0xFF41) % 4 == 1,
            final(memory).peek(0xFF44) == old(memory).peek(0xFF44),
            *final(self) == (PPU {
                mode: 1,
                entered_vblank: true,
                frame_ready: true,
                stat_irq: final(self).stat_irq,
                pixel_fetcher: PixelFetcher { window_line_counter: 0, ..old(self).pixel_fetcher },
                ..*old(self)
            }),
            final(self).stat_irq == (old(self).stat_irq || (old(memory).peek(0xFF41) & 0x10 != 0
                && old(self).ly != old(memory).peek(0xFF45))),
            ppu_frame(*old(memory), *final(memory)),
    {
        self.mode = 1;
        self.entered_vblank = true;
        self.frame_ready = true;
        self.pixel_fetcher.window_line_counter = 0;
        let stat = memory.read(0xFF41);
        let lyc = memory.read(0xFF45);
        if stat & 0x10 != 0 && self.ly != lyc {
            self.stat_irq = true;
        }
        proof {
            lemma_mode_bits_set(stat, 1);
        }
        memory.write(0xFF41, (stat & 0xFC) | 1);
    }

    /// Whether the first buffered sprite starts at or before the next column; if so it is
    /// taken out of the buffer to be fetched, pre-empting the background fetch.
    pub fn fetching_sprite(&mut self) -> (r: bool)
        ensures
            r == (old(self).sprite_buffer@.len() > 0 && old(self).sprite_buffer@[0].x <= old(self).x + 8),
            r ==> final(self).sprite_to_render == old(self).sprite_buffer@[0] && final(self).sprite_buffer@
                == old(self).sprite_buffer@.remove(0) && final(self).pixel_fetcher.bgwin_state
                == FetcherState::TileNumber,
            !r ==> *final(self) == *old(self),
            r ==> *final(self) == (PPU {
                sprite_to_render: final(self).sprite_to_render,
                sprite_buffer: final(self).sprite_buffer,
                pixel_fetcher: PixelFetcher { bgwin_state: FetcherState::TileNumber, ..old(self).pixel_fetcher },
                ..*old(self)
            }),
    {
        if self.sprite_buffer.len() > 0 && self.sprite_buffer[0].x as u16 <= self.x as u16 + 8 {
            self.pixel_fetcher.bgwin_state = FetcherState::TileNumber;
            self.sprite_to_render = self.sprite_buffer.remove(0);
            true
        } else {
            false
        }
    }

    /// OAM scan: at dot 80 switches to pixel transfer with the selected sprites ordered by x;
    /// before that, each dot selects at most one more entry whose rows cover this line and
    /// whose x is non-zero, scanning the 40 entries in order and never holding more than 10.
    pub fn oam_scan(&mut self, memory: &mut Memory)
        requires
            old(self).wf(),
            old(self).mode == 2,
            old(memory).wf(),
        ensures
            old(self).cycles != 80 ==> *final(memory) == *old(memory),
            Self::oam_done(*old(self), *old(memory), *final(self), *final(memory)),
            ly_shown(*old(self), *old(memory)) ==> ly_shown(*final(self), *final(memory)),
            old(self).stat_irq ==> final(self).stat_irq,
            final(self).wf(),
            ppu_frame(*old(memory), *final(memory)),
            old(self).cycles == 80 ==> {
                &&& final(self).mode == 3 && final(self).x == 0
                &&& final(self).pixel_fetcher.bgwin_fifo@.len() == 0
                &&& final(self).pixel_fetcher.sprite_fifo@.len() == 0
                &&& final(self).pixel_fetcher.bgwin_state == FetcherState::TileNumber
                &&& final(self).pixel_fetcher.cycles == 0
                &&& final(self).oam_pointer == 0
                &&& sorted_from(final(self).sprite_buffer@, old(self).sprite_buffer@)
            },
    {
        if self.cycles == 80 {
            self.mode = 3;
            self.x = 0;
            self.pixel_fetcher.bgwin_state = FetcherState::TileNumber;
            self.write_stat_mode(memory);
            self.pixel_fetcher.cycles = 0;
            self.pixel_fetcher.first_tile = true;
            self.pixel_fetcher.bgwin_fifo.clear();
            self.pixel_fetcher.sprite_fifo.clear();
            self.oam_pointer = 0;
            let mut buffer = self.sprite_buffer.clone();
            proof {
                assert(buffer@ =~= self.sprite_buffer@) by {
                    assert forall|i: int| 0 <= i < buffer@.len() implies buffer@[i] == self.sprite_buffer@[i] by {
                        assert(cloned(self.sprite_buffer@[i], buffer@[i]));
                    }
                }
            }
            sort_by_x(&mut buffer);
            self.sprite_buffer = buffer;
        } else if self.sprite_buffer.len() < 10 {
            self.select_next_sprite(memory);
        }
    }

    /// Scans on from the OAM pointer and buffers the first entry that shows on this line.
    fn select_next_sprite(&mut self, memory: &Memory)
        requires
            old(self).wf(),
            old(self).mode == 2,
            old(self).sprite_buffer@.len() < 10,
            memory.wf(),
        ensures
            final(self).ly == old(self).ly,
            final(self).stat_irq == old(self).stat_irq,
            final(self).wf(),
            final(self).mode == 2,
            (forall|k: int| old(self).oam_pointer <= k < 40 ==> !entry_visible(*memory, k, old(self).ly)) ==> final(self).sprite_buffer@ == old(self).sprite_buffer@,
            (exists|j: int| first_visible_from(*memory, old(self).oam_pointer as int, j, old(self).ly)) ==> exists|j: int|
                #[trigger] first_visible_from(*memory, old(self).oam_pointer as int, j, old(self).ly) && final(self).sprite_buffer@
                    == old(self).sprite_buffer@.push(entry_sprite(*memory, j)) && final(self).oam_pointer == j + 1,
    {
        let height: u8 = if memory.read(0xFF40) & 0x04 == 0 {
            8
        } else {
            16
        };
        while self.oam_pointer < 40
            invariant
                self.wf(),
                self.mode == 2,
                self.sprite_buffer@ == old(self).sprite_buffer@,
                self.ly == old(self).ly,
                self.sprite_buffer@.len() < 10,
                height == sprite_height(memory.peek(0xFF40)),
                memory.wf(),
                self.stat_irq == old(self).stat_irq,
                old(self).oam_pointer <= self.oam_pointer <= 40,
                forall|k: int| old(self).oam_pointer <= k < self.oam_pointer ==> !entry_visible(*memory, k, old(self).ly),
            decreases 40 - self.oam_pointer,
        {
            let p = self.oam_pointer * 4;
            assert(p + 3 < 160);
            let y = memory.oam[p];
            let x = memory.oam[p + 1];
            if y as u16 <= self.ly as u16 + 16 && (self.ly as u16 + 16) < y as u16 + height as u16 && x > 0 {
                let index = memory.oam[p + 2];
                let attributes = memory.oam[p + 3];
                let index = if height == 16 {
                    index & 0xFE
                } else {
                    index
                };
                self.sprite_buffer.push(Sprite::new(y, x, index, attributes));
                assert(first_visible_from(*memory, old(self).oam_pointer as int, self.oam_pointer as int, old(self).ly));
                self.oam_pointer = self.oam_pointer + 1;
                self.obj_penalty = 6;
                return ;
            }
            self.oam_pointer = self.oam_pointer + 1;
        }
    }

    /// Emits one pixel at (x, ly): the front background pixel mixed with the front sprite
    /// pixel, if any; then checks whether the window starts here.
    pub fn push_to_lcd(&mut self, memory: &mut Memory)
        requires
            old(self).wf(),
            old(self).mode == 3,
            old(self).pixel_fetcher.bgwin_fifo@.len() > 0,
            old(memory).wf(),
        ensures
            *final(memory) == *old(memory),
            final(self).stat_irq == old(self).stat_irq,
            final(self).wf(),
            ppu_frame(*old(memory), *final(memory)),
            final(self).framebuffer@ == old(self).framebuffer@.update(
                old(self).ly * 160 + old(self).x,
                mixed_shade(
                    old(self).pixel_fetcher.bgwin_fifo@[0],
                    if old(self).pixel_fetcher.sprite_fifo@.len() > 0 {
                        Some(old(self).pixel_fetcher.sprite_fifo@[0])
                    } else {
                        None
                    },
                    old(memory).peek(0xFF40),
                    old(memory).peek(old(self).pixel_fetcher.bgwin_fifo@[0].palette),
                    old(memory).peek(old(self).pixel_fetcher.sprite_fifo@[0].palette),
                ),
            ),
            final(self).pixel_fetcher.sprite_fifo@ == if old(self).pixel_fetcher.sprite_fifo@.len() > 0 {
                old(self).pixel_fetcher.sprite_fifo@.remove(0)
            } else {
                old(self).pixel_fetcher.sprite_fifo@
            },
            old(self).entered_window || !old(self).window_condition(*old(memory)) ==> final(self).pixel_fetcher.bgwin_fifo@
                == old(self).pixel_fetcher.bgwin_fifo@.remove(0),
            !old(self).entered_window && old(self).window_condition(*old(memory)) ==> final(self).pixel_fetcher.bgwin_fifo@.len()
                == 0,
            final(self).mode == 3 && final(self).x == old(self).x && final(self).ly == old(self).ly,
            final(self).sprite_buffer == old(self).sprite_buffer,
    {
        let lcdc = memory.read(0xFF40);
        let bg = self.pixel_fetcher.bgwin_fifo.remove().unwrap();
        let bgc: u8 = if lcdc & 0x01 == 0 {
            0
        } else {
            bg.colour_id
        };
        let grey = if !self.pixel_fetcher.sprite_fifo.is_empty() {
            let sp = self.pixel_fetcher.sprite_fifo.remove().unwrap();
            let spc: u8 = if lcdc & 0x02 == 0 {
                0
            } else {
                sp.colour_id
            };
            if spc == 0 || (sp.priority == 1 && bgc != 0) {
                shade_of(memory.read(bg.palette), bgc)
            } else {
                shade_of(memory.read(sp.palette), spc)
            }
        } else {
            shade_of(memory.read(bg.palette), bgc)
        };
        let index = self.ly as usize * SCREEN_WIDTH + self.x as usize;
        self.framebuffer.set(index, grey);
        self.rendering_window(memory);
    }

    /// Pixel transfer while no sprite is being fetched: one dot of the background/window
    /// fetcher, then, if the background FIFO holds pixels, one pixel out (dropping the
    /// fine-scroll pixels at the start of the line). After column 159 the line enters
    /// horizontal blank.
    #[verifier::spinoff_prover]
    #[verifier::rlimit(80)]
    pub fn mode_3_bgwin_fetch(&mut self, memory: &mut Memory)
        requires
            old(self).wf(),
            old(self).mode == 3,
            old(memory).wf(),
        ensures
            ly_shown(*old(self), *old(memory)) ==> ly_shown(*final(self), *final(memory)),
            old(self).stat_irq ==> final(self).stat_irq,
            final(self).wf(),
            ppu_frame(*old(memory), *final(memory)),
            Self::bgwin_done(*old(self), *old(memory), *final(self), *final(memory)),
    {
        self.fetch_dot(memory);
        let ghost mid = *self;
        self.emit_dot(memory);
        assert(emits(*old(self), *old(memory)) == emits_now(mid, *old(memory)));
    }

    /// One dot of the background/window fetcher: each step but the push waits for two
    /// dots; the push succeeds only into an empty FIFO.
    #[verifier::spinoff_prover]
    #[verifier::rlimit(80)]
    fn fetch_dot(&mut self, memory: &Memory)
        requires
            old(self).wf(),
            old(self).mode == 3,
            memory.wf(),
        ensures
            final(self).wf(),
            *final(self) == (PPU { pixel_fetcher: final(self).pixel_fetcher, ..*old(self) }),
            final(self).pixel_fetcher.bgwin_fifo@.len() == fifo_after_fetch(*old(self)),
            final(self).pixel_fetcher.bgwin_fifo@ == fifo_seq_after_fetch(*old(self)),
            old(self).pixel_fetcher.bgwin_fifo@.len() > 0 ==> final(self).pixel_fetcher.bgwin_fifo
                == old(self).pixel_fetcher.bgwin_fifo,
            final(self).pixel_fetcher.sprite_fifo == old(self).pixel_fetcher.sprite_fifo,
            old(self).pixel_fetcher.bgwin_state != FetcherState::PushToFifo && old(self).pixel_fetcher.cycles == 2
                ==> final(self).pixel_fetcher.bgwin_state == next_fetch_state(old(self).pixel_fetcher.bgwin_state)
                && final(self).pixel_fetcher.cycles == 0,
            old(self).pixel_fetcher.bgwin_state != FetcherState::PushToFifo && old(self).pixel_fetcher.cycles != 2
                ==> final(self).pixel_fetcher == old(self).pixel_fetcher,
            old(self).pixel_fetcher.bgwin_state == FetcherState::TileNumber && old(self).pixel_fetcher.cycles == 2
                ==> final(self).pixel_fetcher.tile_number == memory.peek(
                if old(self).pixel_fetcher.rendering_window {
                    window_tile_map_address(
                        memory.peek(0xFF40),
                        old(self).pixel_fetcher.window_line_counter,
                        old(self).pixel_fetcher.fetcher_x,
                    )
                } else {
                    bg_tile_map_address(
                        memory.peek(0xFF40),
                        memory.peek(0xFF42),
                        memory.peek(0xFF43),
                        old(self).ly,
                        old(self).pixel_fetcher.fetcher_x,
                    )
                },
            ),
    {
        let ly = self.ly;
        match self.pixel_fetcher.bgwin_state {
            FetcherState::TileNumber => {
                if self.pixel_fetcher.cycles == 2 {
                    self.pixel_fetcher.fetch_tile_number(memory, ly);
                    self.pixel_fetcher.bgwin_state = FetcherState::TileDataLow;
                    self.pixel_fetcher.cycles = 0;
                }
            },
            FetcherState::TileDataLow => {
                if self.pixel_fetcher.cycles == 2 {
                    self.pixel_fetcher.fetch_tile_data_low(memory, ly);
                    self.pixel_fetcher.bgwin_state = FetcherState::TileDataHigh;
                    self.pixel_fetcher.cycles = 0;
                }
            },
            FetcherState::TileDataHigh => {
                if self.pixel_fetcher.cycles == 2 {
                    self.pixel_fetcher.fetch_tile_data_high(memory, ly);
                    self.pixel_fetcher.bgwin_state = FetcherState::PushToFifo;
                    self.pixel_fetcher.cycles = 0;
                }
            },
            FetcherState::PushToFifo => {
                if self.pixel_fetcher.push_to_fifo() {
                    self.pixel_fetcher.bgwin_state = FetcherState::TileNumber;
                    self.pixel_fetcher.cycles = 0;
                }
            },
        }
    }

    /// The emitting half of a pixel-transfer dot: drops the fine-scroll pixels at column 0,
    /// emits one pixel if the FIFO holds any, and ends the line after the 160th.
    #[verifier::spinoff_prover]
    #[verifier::rlimit(80)]
    fn emit_dot(&mut self, memory: &mut Memory)
        requires
            old(self).wf(),
            old(self).mode == 3,
            old(memory).wf(),
        ensures
            !(emits_now(*old(self), *old(memory)) && old(self).x == 159) ==> *final(memory) == *old(memory),
            ly_shown(*old(self), *old(memory)) ==> ly_shown(*final(self), *final(memory)),
            old(self).stat_irq ==> final(self).stat_irq,
            final(self).wf(),
            ppu_frame(*old(memory), *final(memory)),
            final(self).ly == old(self).ly,
            forall|i: int| 0 <= i < final(self).framebuffer@.len() && i != old(self).ly * 160 + old(self).x
                ==> #[trigger] final(self).framebuffer@[i] == old(self).framebuffer@[i],
            emits_now(*old(self), *old(memory)) && old(self).x == 159 ==> final(self).mode == 0 && final(self).x == 0
                && final(memory).peek(0xFF41) % 4 == 0,
            emits_now(*old(self), *old(memory)) && old(self).x < 159 ==> final(self).mode == 3 && final(self).x
                == old(self).x + 1,
            !emits_now(*old(self), *old(memory)) ==> final(self).mode == 3 && final(self).x == old(self).x
                && final(self).framebuffer == old(self).framebuffer && final(self).pixel_fetcher == (PixelFetcher {
                bgwin_fifo: final(self).pixel_fetcher.bgwin_fifo,
                ..old(self).pixel_fetcher
            }),
            emits_now(*old(self), *old(memory)) ==> final(self).framebuffer@[old(self).ly * 160 + old(self).x]
                == mixed_shade(
                old(self).pixel_fetcher.bgwin_fifo@[dropped(*old(self), *old(memory))],
                if old(self).pixel_fetcher.sprite_fifo@.len() > 0 {
                    Some(old(self).pixel_fetcher.sprite_fifo@[0])
                } else {
                    None
                },
                old(memory).peek(0xFF40),
                old(memory).peek(old(self).pixel_fetcher.bgwin_fifo@[dropped(*old(self), *old(memory))].palette),
                old(memory).peek(old(self).pixel_fetcher.sprite_fifo@[0].palette),
            ),
    {
        if !self.pixel_fetcher.bgwin_fifo.is_empty() {
            if self.x == 0 {
                let drop = memory.read(0xFF43) % 8;
                let ghost n0 = self.pixel_fetcher.bgwin_fifo@.len();
                let mut i: u8 = 0;
                while i < drop
                    invariant
                        self.pixel_fetcher.bgwin_fifo@.len() == if n0 >= i { n0 - i } else { 0 },
                        i <= n0 ==> self.pixel_fetcher.bgwin_fifo@ == old(self).pixel_fetcher.bgwin_fifo@.subrange(i as int, n0 as int),
                        i <= drop,
                        drop == old(memory).peek(0xFF43) % 8,
                        n0 == old(self).pixel_fetcher.bgwin_fifo@.len(),
                        *memory == *old(memory),
                        old(memory).wf(),
                        self.pixel_fetcher == (PixelFetcher { bgwin_fifo: self.pixel_fetcher.bgwin_fifo, ..old(self).pixel_fetcher }),
                        self.wf(),
                        self.mode == 3,
                        self.x == 0,
                        self.ly == old(self).ly,
                        self.framebuffer == old(self).framebuffer,
                        old(self).stat_irq ==> self.stat_irq,
                    decreases drop - i,
                {
                    let ghost before = self.pixel_fetcher.bgwin_fifo@;
                    self.pixel_fetcher.bgwin_fifo.remove();
                    proof {
                        if i < n0 {
                            assert(self.pixel_fetcher.bgwin_fifo@ =~= old(self).pixel_fetcher.bgwin_fifo@.subrange(
                                i + 1,
                                n0 as int,
                            ));
                        }
                    }
                    i = i + 1;
                }
            }
            if !self.pixel_fetcher.bgwin_fifo.is_empty() {
                assert(self.ly * 160 + self.x < 23040) by (nonlinear_arith)
                    requires
                        self.ly < 144,
                        self.x < 160,
                ;
                self.push_to_lcd(memory);
                self.x = self.x + 1;
                self.fetching_sprite = self.fetching_sprite();
            }
        }
        if self.x == 160 {
            self.mode = 0;
            self.x = 0;
            let stat = memory.read(0xFF41);
            let lyc = memory.read(0xFF45);
            if stat & 0x08 != 0 && self.ly != lyc {
                self.stat_irq = true;
            }
            proof {
                lemma_mode_bits_cleared(stat);
            }
            memory.write(0xFF41, stat & 0xFC);
        }
    }

    /// Pixel transfer while a sprite is being fetched: one dot of the sprite fetcher, which
    /// reads the sprite's row in two steps and then merges it into the sprite FIFO.
    pub fn mode_3_sprite_fetch(&mut self, memory: &mut Memory)
        requires
            old(self).wf(),
            old(self).mode == 3,
            old(memory).wf(),
        ensures
            Self::sprite_done(*old(self), *old(memory), *final(self), *final(memory)),
            old(self).stat_irq ==> final(self).stat_irq,
            final(self).wf(),
            ppu_frame(*old(memory), *final(memory)),
            final(self).mode == 3 && final(self).x == old(self).x && final(self).ly == old(self).ly,
            final(self).framebuffer == old(self).framebuffer,
            old(self).pixel_fetcher.sprite_state == FetcherState::PushToFifo ==> {
                &&& final(self).pixel_fetcher.sprite_state == FetcherState::TileNumber
                &&& !final(self).fetching_sprite
                &&& final(self).pixel_fetcher.sprite_fifo@.len() == 8
            },
            old(self).pixel_fetcher.sprite_state != FetcherState::PushToFifo && old(self).pixel_fetcher.cycles
                == 2 ==> final(self).pixel_fetcher.sprite_state == next_fetch_state(
                old(self).pixel_fetcher.sprite_state,
            ) && final(self).pixel_fetcher.cycles == 0,
            old(self).pixel_fetcher.sprite_state == FetcherState::TileDataLow && old(self).pixel_fetcher.cycles
                == 2 ==> final(self).pixel_fetcher.sprite_tile_data_low == old(memory).peek(
                sprite_row_address(old(memory).peek(0xFF40), old(self).ly, old(self).sprite_to_render),
            ),
            old(self).pixel_fetcher.sprite_state == FetcherState::TileDataHigh && old(self).pixel_fetcher.cycles
                == 2 ==> final(self).pixel_fetcher.sprite_tile_data_high == old(memory).peek(
                (sprite_row_address(old(memory).peek(0xFF40), old(self).ly, old(self).sprite_to_render)
                    + 1) as u16,
            ),
            old(self).pixel_fetcher.sprite_state != FetcherState::PushToFifo && old(self).pixel_fetcher.cycles
                != 2 ==> *final(self) == *old(self),
            *final(memory) == *old(memory),
    {
        let ly = self.ly;
        let sprite = self.sprite_to_render;
        match self.pixel_fetcher.sprite_state {
            FetcherState::TileNumber => {
                if self.pixel_fetcher.cycles == 2 {
                    self.pixel_fetcher.cycles = 0;
                    self.pixel_fetcher.sprite_state = FetcherState::TileDataLow;
                }
            },
            FetcherState::TileDataLow => {
                if self.pixel_fetcher.cycles == 2 {
                    self.pixel_fetcher.sprite_fetch_tile_data_low(memory, ly, &sprite);
                    self.pixel_fetcher.cycles = 0;
                    self.pixel_fetcher.sprite_state = FetcherState::TileDataHigh;
                }
            },
            FetcherState::TileDataHigh => {
                if self.pixel_fetcher.cycles == 2 {
                    self.pixel_fetcher.sprite_fetch_tile_data_high(memory, ly, &sprite);
                    self.pixel_fetcher.cycles = 0;
                    self.pixel_fetcher.sprite_state = FetcherState::PushToFifo;
                }
            },
            FetcherState::PushToFifo => {
                self.pixel_fetcher.push_to_sprite_fifo(&sprite);
                self.pixel_fetcher.sprite_state = FetcherState::TileNumber;
                self.fetching_sprite = false;
                self.pixel_fetcher.cycles = 0;
            },
        }
    }
}

/// The grey level for a colour index under a palette register value.
fn shade_of(palette: u8, colour: u8) -> (r: u8)
    requires
        colour <= 3,
    ensures
        r == shade(palette, colour),
{
    let c = (palette >> (colour * 2)) % 4;
    if c == 0 {
        255
    } else if c == 1 {
        169
    } else if c == 2 {
        84
    } else {
        0
    }
}

/// The sprites of `v` in order of x; among equal x the earlier stays first.
fn sort_by_x(v: &mut Vec<Sprite>)
    ensures
        sorted_from(final(v)@, old(v)@),
{
    let ghost orig = v@;
    let mut out: Vec<Sprite> = Vec::new();
    let ghost mut vidx: Seq<int> = Seq::new(orig.len(), |k: int| k);
    let ghost mut oidx: Seq<int> = Seq::empty();
    proof {
        broadcast use vstd::multiset::group_multiset_axioms;
        vstd::seq_lib::to_multiset_len(out@);
        vstd::multiset::lemma_multiset_empty_len(out@.to_multiset());
        assert(out@.to_multiset() =~= vstd::multiset::Multiset::<Sprite>::empty());
        assert(out@.to_multiset().add(v@.to_multiset()) =~= orig.to_multiset());
    }
    while v.len() > 0
        invariant
            out@.to_multiset().add(v@.to_multiset()) == orig.to_multiset(),
            out@.len() + v@.len() == orig.len(),
            forall|i: int, j: int| 0 <= i < j < out@.len() ==> (#[trigger] out@[i]).x <= (#[trigger] out@[j]).x,
            forall|i: int, k: int| 0 <= i < out@.len() && 0 <= k < v@.len() ==> (#[trigger] out@[i]).x <= (
            #[trigger] v@[k]).x,
            forall|i: int| 0 <= i < out@.len() ==> orig.contains(#[trigger] out@[i]),
            forall|k: int| 0 <= k < v@.len() ==> orig.contains(#[trigger] v@[k]),
            vidx.len() == v@.len() && oidx.len() == out@.len(),
            forall|k: int| 0 <= k < v@.len() ==> 0 <= #[trigger] vidx[k] < orig.len() && v@[k] == orig[vidx[k]],
            forall|i: int| 0 <= i < out@.len() ==> 0 <= #[trigger] oidx[i] < orig.len() && out@[i] == orig[oidx[i]],
            forall|a: int, b: int| 0 <= a < b < v@.len() ==> #[trigger] vidx[a] < #[trigger] vidx[b],
            forall|i: int, k: int| 0 <= i < out@.len() && 0 <= k < v@.len() ==> #[trigger] oidx[i] != #[trigger] vidx[k],
            forall|i: int, j: int| 0 <= i < j < out@.len() ==> #[trigger] oidx[i] != #[trigger] oidx[j],
            forall|i: int, j: int| 0 <= i < j < out@.len() && out@[i].x == out@[j].x ==> #[trigger] oidx[i] < #[trigger] oidx[j],
            forall|i: int, k: int| 0 <= i < out@.len() && 0 <= k < v@.len() && out@[i].x == v@[k].x ==> #[trigger] oidx[i] < #[trigger] vidx[k],
        decreases v@.len(),
    {
        let mut m: usize = 0;
        let mut k: usize = 1;
        while k < v.len()
            invariant
                0 < k <= v@.len(),
                m < k,
                forall|j: int| 0 <= j < k ==> v@[m as int].x <= (#[trigger] v@[j]).x,
                forall|j: int| 0 <= j < m ==> v@[m as int].x < (#[trigger] v@[j]).x,
            decreases v@.len() - k,
        {
            if v[k].x < v[m].x {
                m = k;
            }
            k = k + 1;
        }
        let ghost before = v@;
        let ghost out_before = out@;
        let s = v.remove(m);
        proof {
            vstd::seq_lib::to_multiset_remove(before, m as int);
        }
        assert(orig.contains(before[m as int]));
        assert forall|j: int| 0 <= j < v@.len() implies orig.contains(#[trigger] v@[j]) by {
            if j < m {
                assert(v@[j] == before[j]);
            } else {
                assert(v@[j] == before[j + 1]);
            }
        }
        assert forall|j: int| 0 <= j < v@.len() implies s.x <= (#[trigger] v@[j]).x by {
            if j < m {
                assert(v@[j] == before[j]);
            } else {
                assert(v@[j] == before[j + 1]);
            }
        }
        assert forall|i: int, j: int| 0 <= i < out@.len() && 0 <= j < v@.len() implies (#[trigger] out@[i]).x
            <= (#[trigger] v@[j]).x by {
            if j < m {
                assert(v@[j] == before[j]);
            } else {
                assert(v@[j] == before[j + 1]);
            }
        }
        out.push(s);
        proof {
            let ov = vidx;
            let oo = oidx;
            vidx = ov.remove(m as int);
            oidx = oo.push(ov[m as int]);
            assert forall|k: int| 0 <= k < v@.len() implies 0 <= #[trigger] vidx[k] < orig.len() && v@[k] == orig[vidx[k]] by {
                if k < m {
                    assert(v@[k] == before[k]);
                } else {
                    assert(v@[k] == before[k + 1]);
                }
            }
            assert forall|a: int, b: int| 0 <= a < b < v@.len() implies #[trigger] vidx[a] < #[trigger] vidx[b] by {
                if b < m {
                } else if a < m {
                    assert(ov[a] < ov[b + 1]);
                } else {
                    assert(ov[a + 1] < ov[b + 1]);
                }
            }
            assert forall|i: int, k: int| 0 <= i < out@.len() && 0 <= k < v@.len() implies #[trigger] oidx[i] != #[trigger] vidx[k] by {
                if k < m {
                    assert(vidx[k] == ov[k]);
                    if i < oo.len() {
                    } else {
                        assert(ov[k] < ov[m as int]);
                    }
                } else {
                    assert(vidx[k] == ov[k + 1]);
                    if i == oo.len() {
                        assert(ov[m as int] < ov[k + 1]);
                    }
                }
            }
            assert forall|i: int, j: int| 0 <= i < j < out@.len() implies #[trigger] oidx[i] != #[trigger] oidx[j] by {
                if j == oo.len() {
                    assert(oo[i] != ov[m as int]);
                }
            }
            assert forall|i: int, j: int| 0 <= i < j < out@.len() && out@[i].x == out@[j].x implies #[trigger] oidx[i] < #[trigger] oidx[j] by {
                if j == oo.len() {
                    assert(out@[j] == before[m as int]);
                    assert(out@[i] == out_before[i]);
                }
            }
            assert forall|i: int, k: int| 0 <= i < out@.len() && 0 <= k < v@.len() && out@[i].x == v@[k].x implies #[trigger] oidx[i] < #[trigger] vidx[k] by {
                if k < m {
                    assert(v@[k] == before[k]);
                    if i == oo.len() {
                        assert(before[k].x > before[m as int].x);
                    }
                } else {
                    assert(v@[k] == before[k + 1]);
                    if i == oo.len() {
                        assert(ov[m as int] < ov[k + 1]);
                    }
                }
            }
            broadcast use vstd::multiset::group_multiset_axioms;
            vstd::seq_lib::to_multiset_build(out_before, s);
            assert(before.to_multiset().count(s) > 0) by {
                vstd::seq_lib::to_multiset_contains(before, s);
            }
            assert(out@.to_multiset().add(v@.to_multiset()) =~= orig.to_multiset());
        }
    }
    proof {
        broadcast use vstd::multiset::group_multiset_axioms;
        vstd::seq_lib::to_multiset_len(v@);
        vstd::multiset::lemma_multiset_empty_len(v@.to_multiset());
        assert(v@.to_multiset() =~= vstd::multiset::Multiset::<Sprite>::empty());
        assert(out@.to_multiset() =~= orig.to_multiset());
        assert(stable_positions(out@, orig, oidx));
    }
    *v = out;
}

} // verus!
