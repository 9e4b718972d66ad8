//! The pixel processing unit: a four-state scanline state machine and a
//! per-line compositor (background, window, sprites) writing into a fixed
//! 160x144 pixel buffer.
//!
//! Each visible line spends 80 cycles scanning the sprite table, 172 in pixel
//! transfer (which renders the line), and 204 in horizontal blank; after line
//! 143 come ten 456-cycle vertical-blank lines, 70224 cycles per frame in
//! all.

use vstd::prelude::*;


verus! {

pub const SCREEN_WIDTH: usize = 160;

pub const SCREEN_HEIGHT: usize = 144;

pub const SCREEN_PIXELS: usize = 23040;

pub const OAM_SIZE: usize = 160;

pub const VRAM_SIZE: usize = 8192;

/// The four states of the scanline state machine.
#[derive(Clone, Copy, PartialEq, Eq, Structural, Debug)]
pub enum Mode {
    HBlank,
    VBlank,
    AccessOAM,
    AccessVRAM,
}

/// Control register bits (address 0xff40).
pub open spec fn lcd_enable(c: u8) -> bool {
    c & 0x80 != 0
}

pub open spec fn window_tile_map(c: u8) -> bool {
    c & 0x40 != 0
}

pub open spec fn window_enable(c: u8) -> bool {
    c & 0x20 != 0
}

pub open spec fn bg_window_tile(c: u8) -> bool {
    c & 0x10 != 0
}

pub open spec fn bg_tile_map(c: u8) -> bool {
    c & 0x08 != 0
}

pub open spec fn obj_size_16(c: u8) -> bool {
    c & 0x04 != 0
}

pub open spec fn obj_enable(c: u8) -> bool {
    c & 0x02 != 0
}

pub open spec fn bg_enable(c: u8) -> bool {
    c & 0x01 != 0
}

/// Status register interrupt-arm bits (address 0xff41).
pub open spec fn stat_lyc_armed(s: u8) -> bool {
    s & 0x40 != 0
}

pub open spec fn stat_oam_armed(s: u8) -> bool {
    s & 0x20 != 0
}

pub open spec fn stat_vblank_armed(s: u8) -> bool {
    s & 0x10 != 0
}

pub open spec fn stat_hblank_armed(s: u8) -> bool {
    s & 0x08 != 0
}

/// The pixel unit's state as contracts speak of it.
#[verifier::ext_equal]
pub struct PpuV {
    pub vram: Seq<u8>,
    pub oam: Seq<u8>,
    pub mode: Mode,
    pub bgp: u8,
    pub obp0: u8,
    pub obp1: u8,
    pub clocks: u32,
    pub ly: u8,
    pub lyc: u8,
    pub stat: u8,
    pub scy: u8,
    pub scx: u8,
    pub control: u8,
    pub wy: u8,
    pub wx: u8,
    pub frame: Seq<u32>,
    pub int_vblank: bool,
    pub int_lcdc: bool,
}

/// Cycles a line spends in each mode before moving on.
pub open spec fn mode_threshold(m: Mode) -> u32 {
    match m {
        Mode::AccessOAM => 80u32,
        Mode::AccessVRAM => 172u32,
        Mode::HBlank => 204u32,
        Mode::VBlank => 456u32,
    }
}

/// Cycle offset of the start of `(mode, ly)` within the 70224-cycle frame.
pub open spec fn mode_base(m: Mode, ly: u8) -> int {
    match m {
        Mode::AccessOAM => ly * 456,
        Mode::AccessVRAM => ly * 456 + 80,
        Mode::HBlank => ly * 456 + 252,
        Mode::VBlank => ly * 456,
    }
}

/// The grayscale shade a palette maps a 2-bit color number to.
pub open spec fn spec_palette_color(palette: u8, number: u8) -> u32 {
    let s = (palette >> (number * 2)) & 0x03;
    if s == 0 {
        0xffffffu32  // white
    } else if s == 1 {
        0xaaaaaau32  // light gray
    } else if s == 2 {
        0x555555u32  // dark gray
    } else {
        0x000000u32  // black
    }
}

/// Start of a tile's 16 bytes of pixel data in video RAM, under the
/// addressing mode the control register selects: plain indexing from 0, or
/// signed indexing around 0x1000.
pub open spec fn spec_tile_addr(control: u8, number: u8) -> int {
    if bg_window_tile(control) {
        number * 16
    } else {
        if number < 128 {
            0x1000 + number * 16
        } else {
            0x800 + (number - 128) * 16
        }
    }
}

/// The 2-bit color number of pixel column `col` (0 leftmost) in row `row` of
/// the tile at `ta`: one bit from each of the row's two bit-planes.
pub open spec fn tile_pixel_num(vram: Seq<u8>, ta: int, row: int, col: int) -> u8 {
    let d0 = vram[ta + row * 2];
    let d1 = vram[ta + row * 2 + 1];
    let mask = (7 - col) as u8;
    (((d0 >> mask) & 1) << 1) | ((d1 >> mask) & 1)
}

impl PpuV {
    pub open spec fn wf(self) -> bool {
        &&& self.vram.len() == 8192
        &&& self.oam.len() == 160
        &&& self.frame.len() == 23040
        &&& self.clocks < mode_threshold(self.mode)
        &&& (self.mode == Mode::VBlank ==> 144 <= self.ly <= 153)
        &&& (self.mode != Mode::VBlank ==> self.ly < 144)
    }

    /// How many cycles of the current frame have elapsed.
    pub open spec fn frame_pos(self) -> int {
        mode_base(self.mode, self.ly) + self.clocks
    }

    /// The line-compare flag is recomputed whenever `ly` or `lyc` changes,
    /// and raises the LCD-status interrupt if armed.
    pub open spec fn spec_check_lyc(self) -> PpuV {
        if self.ly == self.lyc {
            PpuV {
                stat: self.stat | 0x04,
                int_lcdc: self.int_lcdc || stat_lyc_armed(self.stat),
                ..self
            }
        } else {
            PpuV { stat: self.stat & 0xfb, ..self }
        }
    }

    /// Entering a mode raises the LCD-status interrupt if that mode's
    /// interrupt-arm bit is set.
    pub open spec fn spec_mode_interrupt(self) -> PpuV {
        match self.mode {
            Mode::HBlank => PpuV {
                int_lcdc: self.int_lcdc || stat_hblank_armed(self.stat),
                ..self
            },
            Mode::VBlank => PpuV {
                int_lcdc: self.int_lcdc || stat_vblank_armed(self.stat),
                ..self
            },
            Mode::AccessOAM => PpuV {
                int_lcdc: self.int_lcdc || stat_oam_armed(self.stat),
                ..self
            },
            Mode::AccessVRAM => self,
        }
    }

    /// Screen column where the window starts.
    pub open spec fn wxp(self) -> int {
        (self.wx + 7) % 256
    }

    /// Whether the window covers screen column `i` on the current line.
    pub open spec fn win_covers(self, i: int) -> bool {
        window_enable(self.control) && self.wy <= self.ly && i >= self.wxp()
    }

    /// Background color number at screen column `i` of the current line.
    #[verifier::opaque]
    pub open spec fn bg_pixel_num(self, i: int) -> u8 {
        let y = (self.ly + self.scy) % 256;
        let x = (i + self.scx) % 256;
        let tmap: int = if bg_tile_map(self.control) {
            0x1c00
        } else {
            0x1800
        };
        let tn = self.vram[tmap + (y / 8) * 32 + (x / 8)];
        tile_pixel_num(self.vram, spec_tile_addr(self.control, tn), y % 8, x % 8)
    }

    /// Window color number at screen column `i` of the current line.
    #[verifier::opaque]
    pub open spec fn win_pixel_num(self, i: int) -> u8 {
        let y = self.ly - self.wy;
        let x = i - self.wxp();
        let tmap: int = if window_tile_map(self.control) {
            0x1c00
        } else {
            0x1800
        };
        let tn = self.vram[tmap + (y / 8) * 32 + (x / 8)];
        tile_pixel_num(self.vram, spec_tile_addr(self.control, tn), y % 8, x % 8)
    }

    /// Whether the background layers drew a non-zero color number at column
    /// `i`: the mask that holds back low-priority sprites.
    pub open spec fn bg_pri(self, i: int) -> bool {
        if self.win_covers(i) {
            self.win_pixel_num(i) != 0
        } else if bg_enable(self.control) {
            self.bg_pixel_num(i) != 0
        } else {
            false
        }
    }

    /// The background and window layers' color at column `i`; where neither
    /// draws, the buffer keeps its previous value.
    pub open spec fn base_color(self, i: int) -> u32 {
        if self.win_covers(i) {
            spec_palette_color(self.bgp, self.win_pixel_num(i))
        } else if bg_enable(self.control) {
            spec_palette_color(self.bgp, self.bg_pixel_num(i))
        } else {
            self.frame[self.ly * 160 + i]
        }
    }

    /// Sprite height under the current control register.
    pub open spec fn sprite_height(self) -> int {
        if obj_size_16(self.control) {
            16
        } else {
            8
        }
    }

    /// Whether sprite table entry `j` lies on the current line and inside
    /// the visible horizontal range.
    pub open spec fn sprite_on_line(self, j: usize) -> bool {
        let sy = (self.oam[4 * j] - 16) % 256;
        let raw_x = self.oam[4 * j + 1];
        &&& (self.ly - sy) % 256 < self.sprite_height()
        &&& 1 <= raw_x <= 167
    }

    /// The first ten sprite table entries, among the first `j` scanned in
    /// table order, that lie on the current line.
    pub open spec fn selected_sprites(self, j: nat) -> Seq<usize>
        decreases j,
    {
        if j == 0 {
            Seq::empty()
        } else {
            let s = self.selected_sprites((j - 1) as nat);
            if s.len() < 10 && self.sprite_on_line(((j - 1) as nat) as usize) {
                s.push(((j - 1) as nat) as usize)
            } else {
                s
            }
        }
    }

    /// Whether sprite `j` covers screen column `c`.
    pub open spec fn sprite_covers(self, j: usize, c: int) -> bool {
        let sx = (self.oam[4 * j + 1] - 8) % 256;
        (c - sx) % 256 < 8
    }

    /// Sprite `j`'s color number at screen column `c`, after Y-flip, X-flip
    /// and, in 8x16 mode, half-tile selection.
    #[verifier::opaque]
    pub open spec fn sprite_pixel_num(self, j: usize, c: int) -> u8 {
        let sx = (self.oam[4 * j + 1] - 8) % 256;
        let k = (c - sx) % 256;
        let sy = (self.oam[4 * j] - 16) % 256;
        let dy = (self.ly - sy) % 256;
        let flags = self.oam[4 * j + 3];
        let rr = if flags & 0x40 != 0 {
            self.sprite_height() - 1 - dy
        } else {
            dy
        };
        let t0 = self.oam[4 * j + 2];
        let tn = if obj_size_16(self.control) {
            if rr < 8 {
                t0 & 0xfe
            } else {
                t0 | 0x01
            }
        } else {
            t0
        };
        let col = if flags & 0x20 != 0 {
            7 - k
        } else {
            k
        };
        tile_pixel_num(self.vram, spec_tile_addr(self.control, tn), rr % 8, col)
    }

    /// Sprite `j`'s color at column `c`, through the palette its flags
    /// select.
    pub open spec fn sprite_color(self, j: usize, c: int) -> u32 {
        let flags = self.oam[4 * j + 3];
        let palette = if flags & 0x10 != 0 {
            self.obp1
        } else {
            self.obp0
        };
        spec_palette_color(palette, self.sprite_pixel_num(j, c))
    }

    /// Whether sprite `j` draws at column `c`: it covers the column, its
    /// pixel is not transparent, and its background-priority bit does not
    /// defer to a background pixel there.
    pub open spec fn sprite_qualifies(self, j: usize, c: int) -> bool {
        &&& self.sprite_covers(j, c)
        &&& self.sprite_pixel_num(j, c) != 0
        &&& (self.oam[4 * j + 3] & 0x80 == 0 || !self.bg_pri(c))
    }

    /// Among the selected sprites `js`, the one drawn at column `c`: the
    /// qualifying sprite with the smallest X, earliest table entry first on
    /// ties. Returns its raw X and its color.
    pub open spec fn sprite_winner(self, js: Seq<usize>, c: int) -> Option<(u8, u32)>
        decreases js.len(),
    {
        if js.len() == 0 {
            None
        } else {
            let prev = self.sprite_winner(js.drop_last(), c);
            let j = js.last();
            if self.sprite_qualifies(j, c) && (prev is None || self.oam[4 * j + 1]
                < prev->Some_0.0) {
                Some((self.oam[4 * j + 1], self.sprite_color(j, c)))
            } else {
                prev
            }
        }
    }

    /// The color finally shown at screen column `c` of the current line.
    pub open spec fn line_pixel(self, c: int) -> u32 {
        let base = self.base_color(c);
        if obj_enable(self.control) {
            match self.sprite_winner(self.selected_sprites(40), c) {
                Some(w) => w.1,
                None => base,
            }
        } else {
            base
        }
    }

    /// The state after compositing the current line into the pixel buffer:
    /// row `ly` becomes `line_pixel`, every other row keeps its contents.
    pub open spec fn spec_render_line(self) -> PpuV {
        PpuV {
            frame: Seq::new(
                23040,
                |idx: int|
                    if self.ly * 160 <= idx < self.ly * 160 + 160 {
                        self.line_pixel(idx - self.ly * 160)
                    } else {
                        self.frame[idx]
                    },
            ),
            ..self
        }
    }

    /// The state machine's transition for `tick` elapsed cycles: with the
    /// LCD off nothing moves; otherwise cycles accumulate and at most one
    /// mode transition fires, crediting exactly its mode's cycle count.
    pub open spec fn spec_run(self, tick: u32) -> PpuV {
        if !lcd_enable(self.control) {
            self
        } else {
            let acc = self.clocks + tick;
            match self.mode {
                Mode::AccessOAM => {
                    if acc >= 80 {
                        let q = PpuV {
                            clocks: (acc - 80) as u32,
                            mode: Mode::AccessVRAM,
                            ..self
                        };
                        q.spec_render_line()
                    } else {
                        PpuV { clocks: acc as u32, ..self }
                    }
                },
                Mode::AccessVRAM => {
                    if acc >= 172 {
                        let q = PpuV { clocks: (acc - 172) as u32, mode: Mode::HBlank, ..self };
                        q.spec_mode_interrupt()
                    } else {
                        PpuV { clocks: acc as u32, ..self }
                    }
                },
                Mode::HBlank => {
                    if acc >= 204 {
                        let ly = ((self.ly + 1) % 256) as u8;
                        let q = if ly >= 144 {
                            PpuV {
                                clocks: (acc - 204) as u32,
                                ly,
                                mode: Mode::VBlank,
                                int_vblank: true,
                                ..self
                            }
                        } else {
                            PpuV { clocks: (acc - 204) as u32, ly, mode: Mode::AccessOAM, ..self }
                        };
                        q.spec_check_lyc().spec_mode_interrupt()
                    } else {
                        PpuV { clocks: acc as u32, ..self }
                    }
                },
                Mode::VBlank => {
                    if acc >= 456 {
                        let ly = ((self.ly + 1) % 256) as u8;
                        let q = if ly >= 154 {
                            let q0 = PpuV {
                                clocks: (acc - 456) as u32,
                                ly: 0u8,
                                mode: Mode::AccessOAM,
                                ..self
                            };
                            q0.spec_mode_interrupt()
                        } else {
                            PpuV { clocks: (acc - 456) as u32, ly, ..self }
                        };
                        q.spec_check_lyc()
                    } else {
                        PpuV { clocks: acc as u32, ..self }
                    }
                },
            }
        }
    }

    /// What reading each pixel-unit address returns. Video RAM reads 0xff
    /// during pixel transfer and the sprite table reads 0xff outside the
    /// blanking modes.
    pub open spec fn spec_read(self, addr: u16) -> u8 {
        if 0x8000 <= addr <= 0x9fff {
            if self.mode == Mode::AccessVRAM {
                0xffu8
            } else {
                self.vram[(addr & 0x1fff) as int]
            }
        } else if 0xfe00 <= addr <= 0xfe9f {
            if self.mode != Mode::HBlank && self.mode != Mode::VBlank {
                0xffu8
            } else {
                self.oam[addr - 0xfe00]
            }
        } else if addr == 0xff40 {
            self.control
        } else if addr == 0xff41 {
            self.stat
        } else if addr == 0xff42 {
            self.scy
        } else if addr == 0xff43 {
            self.scx
        } else if addr == 0xff44 {
            self.ly
        } else if addr == 0xff45 {
            self.lyc
        } else if addr == 0xff47 {
            self.bgp
        } else if addr == 0xff48 {
            self.obp0
        } else if addr == 0xff49 {
            self.obp1
        } else if addr == 0xff4a {
            self.wy
        } else if addr == 0xff4b {
            self.wx
        } else {
            0xffu8
        }
    }

    /// The unit after a write. Toggling the LCD-enable bit resets the line
    /// counter and cycle accumulator and forces the mode; sprite-table
    /// writes are ignored outside the blanking modes; the line counter is
    /// read-only; every line-compare write, and the line reset itself, recomputes
    /// the compare flag.
    pub open spec fn spec_write(self, addr: u16, v: u8) -> PpuV {
        if 0x8000 <= addr <= 0x9fff {
            PpuV { vram: self.vram.update((addr & 0x1fff) as int, v), ..self }
        } else if 0xfe00 <= addr <= 0xfe9f {
            if self.mode != Mode::HBlank && self.mode != Mode::VBlank {
                self
            } else {
                PpuV { oam: self.oam.update(addr - 0xfe00, v), ..self }
            }
        } else if addr == 0xff40 {
            if lcd_enable(self.control) != (v & 0x80 != 0) {
                let q = PpuV {
                    ly: 0u8,
                    clocks: 0u32,
                    mode: if v & 0x80 != 0 {
                        Mode::AccessOAM
                    } else {
                        Mode::HBlank
                    },
                    ..self
                };
                PpuV { control: v, ..q.spec_check_lyc().spec_mode_interrupt() }
            } else {
                PpuV { control: v, ..self }
            }
        } else if addr == 0xff41 {
            PpuV { stat: v & 0x78, ..self }
        } else if addr == 0xff42 {
            PpuV { scy: v, ..self }
        } else if addr == 0xff43 {
            PpuV { scx: v, ..self }
        } else if addr == 0xff44 {
            self  // read only
        } else if addr == 0xff45 {
            PpuV { lyc: v, ..self }.spec_check_lyc()
        } else if addr == 0xff47 {
            PpuV { bgp: v, ..self }
        } else if addr == 0xff48 {
            PpuV { obp0: v, ..self }
        } else if addr == 0xff49 {
            PpuV { obp1: v, ..self }
        } else if addr == 0xff4a {
            PpuV { wy: v, ..self }
        } else {
            PpuV { wx: v, ..self }
        }
    }
}

/// The pixel-unit addresses that accept writes: video RAM, the sprite
/// table, and the display registers (0xff46, the sprite-copy trigger, is
/// handled by the bus).
pub open spec fn ppu_write_mapped(addr: u16) -> bool {
    ||| 0x8000 <= addr <= 0x9fff
    ||| 0xfe00 <= addr <= 0xfe9f
    ||| 0xff40 <= addr <= 0xff45
    ||| 0xff47 <= addr <= 0xff4b
}

/// The pixel unit's power-on state.
pub open spec fn initial_ppu() -> PpuV {
    PpuV {
        vram: Seq::new(8192, |i: int| 0u8),
        oam: Seq::new(160, |i: int| 0u8),
        mode: Mode::HBlank,
        bgp: 0u8,
        obp0: 0u8,
        obp1: 0u8,
        clocks: 0u32,
        ly: 0u8,
        lyc: 0u8,
        stat: 0u8,
        scy: 0u8,
        scx: 0u8,
        control: 0u8,
        wy: 0u8,
        wx: 0u8,
        frame: Seq::new(23040, |i: int| 0u32),
        int_vblank: false,
        int_lcdc: false,
    }
}

pub struct PPU {
    pub vram: Vec<u8>,
    pub oam: Vec<u8>,
    pub mode: Mode,
    pub bgp: u8,
    pub obp0: u8,
    pub obp1: u8,
    pub clocks: u32,
    pub ly: u8,
    pub lyc: u8,
    pub stat: u8,
    pub scy: u8,
    pub scx: u8,
    pub control: u8,
    pub wy: u8,
    pub wx: u8,
    pub frame_buffer: Vec<u32>,
    pub interrupt_vblank: bool,
    pub interrupt_lcdc: bool,
}

impl View for PPU {
    type V = PpuV;

    open spec fn view(&self) -> PpuV {
        PpuV {
            vram: self.vram@,
            oam: self.oam@,
            mode: self.mode,
            bgp: self.bgp,
            obp0: self.obp0,
            obp1: self.obp1,
            clocks: self.clocks,
            ly: self.ly,
            lyc: self.lyc,
            stat: self.stat,
            scy: self.scy,
            scx: self.scx,
            control: self.control,
            wy: self.wy,
            wx: self.wx,
            frame: self.frame_buffer@,
            int_vblank: self.interrupt_vblank,
            int_lcdc: self.interrupt_lcdc,
        }
    }
}

/// Facts about the bit-level pixel arithmetic the compositor uses.
proof fn lemma_pixel_bits()
    by (bit_vector)
    ensures
        forall|a: u8, b: u8, s: u8|
            s < 8 ==> (#[trigger] ((((a >> s) & 1) << 1) | ((b >> s) & 1))) <= 3,
        forall|addr: u16| 0xfe00 <= addr <= 0xfe9f ==> (#[trigger] (addr & 0xff)) == addr - 0xfe00,
        forall|addr: u16| (#[trigger] (addr & 0x1fff)) < 8192,
{
}

/// Make a vector of `n` copies of `v`.
pub(crate) fn filled_vec_u8(n: usize, v: u8) -> (r: Vec<u8>)
    ensures
        r@ =~= Seq::new(n as nat, |i: int| v),
{
    let mut r: Vec<u8> = Vec::new();
    let mut i: usize = 0;
    while i < n
        invariant
            i <= n,
            r@ =~= Seq::new(i as nat, |j: int| v),
        decreases n - i,
    {
        r.push(v);
        i = i + 1;
        proof {
            assert(r@ =~= Seq::new(i as nat, |j: int| v));
        }
    }
    r
}

pub(crate) fn filled_vec_u32(n: usize, v: u32) -> (r: Vec<u32>)
    ensures
        r@ =~= Seq::new(n as nat, |i: int| v),
{
    let mut r: Vec<u32> = Vec::new();
    let mut i: usize = 0;
    while i < n
        invariant
            i <= n,
            r@ =~= Seq::new(i as nat, |j: int| v),
        decreases n - i,
    {
        r.push(v);
        i = i + 1;
        proof {
            assert(r@ =~= Seq::new(i as nat, |j: int| v));
        }
    }
    r
}

pub(crate) fn filled_vec_bool(n: usize, v: bool) -> (r: Vec<bool>)
    ensures
        r@ =~= Seq::new(n as nat, |i: int| v),
{
    let mut r: Vec<bool> = Vec::new();
    let mut i: usize = 0;
    while i < n
        invariant
            i <= n,
            r@ =~= Seq::new(i as nat, |j: int| v),
        decreases n - i,
    {
        r.push(v);
        i = i + 1;
        proof {
            assert(r@ =~= Seq::new(i as nat, |j: int| v));
        }
    }
    r
}

/// The shade a palette maps a 2-bit color number to.
fn palette_color(palette: u8, number: u8) -> (r: u32)
    requires
        number <= 3,
    ensures
        r == spec_palette_color(palette, number),
{
    match (palette >> (number * 2)) & 0b_0011 {
        0 => 0xffffff,  // white
        1 => 0xaaaaaa,  // light gray
        2 => 0x555555,  // dark gray
        _ => 0x000000,  // black
    }
}

/// Start of a tile's pixel data in video RAM.
fn tile_addr(control: u8, number: u8) -> (r: usize)
    ensures
        r == spec_tile_addr(control, number),
        r + 16 <= 0x1800,
{
    if control & 0x10 != 0 {
        // block 0: 0x0000-0x07ff  block 1: 0x0800-0x0fff
        (number as usize) * 16
    } else {
        // block 2: 0x1000-0x17ff  block 1: 0x0800-0x0fff
        if number < 128 {
            0x1000 + (number as usize) * 16
        } else {
            0x800 + (number as usize - 128) * 16
        }
    }
}

impl PPU {
    pub fn new() -> (r: PPU)
        ensures
            r@ == initial_ppu(),
            r@.wf(),
    {
        let r = PPU {
            vram: filled_vec_u8(VRAM_SIZE, 0),
            oam: filled_vec_u8(OAM_SIZE, 0),
            mode: Mode::HBlank,
            bgp: 0,
            obp0: 0,
            obp1: 0,
            clocks: 0,
            ly: 0,
            lyc: 0,
            stat: 0,
            scy: 0,
            scx: 0,
            control: 0,
            wy: 0,
            wx: 0,
            frame_buffer: filled_vec_u32(SCREEN_PIXELS, 0),
            interrupt_vblank: false,
            interrupt_lcdc: false,
        };
        proof {
            assert(r@ =~= initial_ppu());
        }
        r
    }

    pub fn is_lcd_on(&self) -> (r: bool)
        ensures
            r == lcd_enable(self@.control),
    {
        self.control & 0x80 != 0
    }

    fn check_lyc(&mut self)
        ensures
            final(self)@ == old(self)@.spec_check_lyc(),
    {
        if self.ly == self.lyc {
            let armed = self.stat & 0x40 != 0;
            self.stat = self.stat | 0x04;
            if armed {
                self.interrupt_lcdc = true;
            }
        } else {
            self.stat = self.stat & 0xfb;
        }
        proof {
            assert(self@ =~= old(self)@.spec_check_lyc());
        }
    }

    fn check_interrupt(&mut self)
        ensures
            final(self)@ == old(self)@.spec_mode_interrupt(),
    {
        match self.mode {
            Mode::HBlank => {
                if self.stat & 0x08 != 0 {
                    self.interrupt_lcdc = true;
                }
            },
            Mode::VBlank => {
                if self.stat & 0x10 != 0 {
                    self.interrupt_lcdc = true;
                }
            },
            Mode::AccessOAM => {
                if self.stat & 0x20 != 0 {
                    self.interrupt_lcdc = true;
                }
            },
            Mode::AccessVRAM => (),
        }
        proof {
            assert(self@ =~= old(self)@.spec_mode_interrupt());
        }
    }

    /// Advance the state machine by `tick` cycles.
    pub fn run(&mut self, tick: u32)
        requires
            old(self)@.wf(),
            tick <= 24,
        ensures
            final(self)@ == old(self)@.spec_run(tick),
            final(self)@.wf(),
    {
        if self.control & 0x80 == 0 {
            return ;
        }
        self.clocks = self.clocks + tick;

        match self.mode {
            Mode::AccessOAM => {
                if self.clocks >= 80 {
                    self.clocks = self.clocks - 80;
                    self.mode = Mode::AccessVRAM;
                    self.render_line();
                }
            },
            Mode::AccessVRAM => {
                if self.clocks >= 172 {
                    self.clocks = self.clocks - 172;
                    self.mode = Mode::HBlank;
                    self.check_interrupt();
                }
            },
            Mode::HBlank => {
                if self.clocks >= 204 {
                    self.clocks = self.clocks - 204;
                    self.ly = self.ly.wrapping_add(1);

                    if self.ly >= 144 {
                        self.mode = Mode::VBlank;
                        self.interrupt_vblank = true;
                    } else {
                        self.mode = Mode::AccessOAM;
                    }

                    self.check_lyc();
                    self.check_interrupt();
                }
            },
            Mode::VBlank => {
                if self.clocks >= 456 {
                    self.clocks = self.clocks - 456;
                    self.ly = self.ly.wrapping_add(1);

                    if self.ly >= 154 {
                        self.mode = Mode::AccessOAM;
                        self.ly = 0;
                        self.check_interrupt();
                    }

                    self.check_lyc();
                }
            },
        }
    }

    pub fn read_byte(&self, addr: u16) -> (r: u8)
        requires
            self@.wf(),
        ensures
            r == self@.spec_read(addr),
    {
        proof {
            lemma_pixel_bits();
        }
        match addr {
            0x8000..=0x9fff => {
                if self.mode == Mode::AccessVRAM {
                    return 0xff;
                }
                self.vram[(addr & 0x1fff) as usize]
            },
            0xfe00..=0xfe9f => {
                if self.mode != Mode::HBlank && self.mode != Mode::VBlank {
                    return 0xff;
                }
                self.oam[(addr & 0x00ff) as usize]
            },
            0xff40 => self.control,
            0xff41 => self.stat,
            0xff42 => self.scy,
            0xff43 => self.scx,
            0xff44 => self.ly,
            0xff45 => self.lyc,
            0xff47 => self.bgp,
            0xff48 => self.obp0,
            0xff49 => self.obp1,
            0xff4a => self.wy,
            0xff4b => self.wx,
            _ => 0xff,
        }
    }

    pub fn write_byte(&mut self, addr: u16, v: u8)
        requires
            old(self)@.wf(),
            ppu_write_mapped(addr),
        ensures
            final(self)@ == old(self)@.spec_write(addr, v),
            final(self)@.wf(),
    {
        proof {
            lemma_pixel_bits();
        }
        match addr {
            0x8000..=0x9fff => {
                self.vram.set((addr & 0x1fff) as usize, v);
            },
            0xfe00..=0xfe9f => {
                if self.mode != Mode::HBlank && self.mode != Mode::VBlank {
                    proof {
                        assert(self@ =~= old(self)@.spec_write(addr, v));
                    }
                    return ;
                }
                self.oam.set((addr & 0x00ff) as usize, v);
            },
            0xff40 => {
                let was_on = self.control & 0x80 != 0;
                let now_on = v & 0x80 != 0;
                if was_on != now_on {
                    self.ly = 0;
                    self.clocks = 0;
                    self.mode = if now_on {
                        Mode::AccessOAM
                    } else {
                        Mode::HBlank
                    };
                    self.check_lyc();
                    self.check_interrupt();
                }
                self.control = v;
            },
            0xff41 => self.stat = v & 0x78,
            0xff42 => self.scy = v,
            0xff43 => self.scx = v,
            0xff44 => (),  // read only
            0xff45 => {
                self.lyc = v;
                self.check_lyc();
            },
            0xff47 => self.bgp = v,
            0xff48 => self.obp0 = v,
            0xff49 => self.obp1 = v,
            0xff4a => self.wy = v,
            _ => self.wx = v,
        }
        proof {
            assert(self@ =~= old(self)@.spec_write(addr, v));
        }
    }

    /// Composite the current line: background, then window, then the
    /// selected sprites in priority order.
    #[verifier::rlimit(60)]
    fn render_line(&mut self)
        requires
            old(self)@.wf(),
            old(self)@.ly < 144,
        ensures
            final(self)@ == old(self)@.spec_render_line(),
            final(self)@.wf(),
    {
        let ghost p = self@;
        let ly = self.ly;
        let start: usize = 160 * (ly as usize);

        // Background and window pass: the base color of each column, and
        // the mask of columns where they drew a non-zero color number.
        let mut row: Vec<u32> = Vec::new();
        let mut pri: Vec<bool> = Vec::new();
        let win_on = self.control & 0x20 != 0 && self.wy <= self.ly;
        let wxp = self.wx.wrapping_add(7);
        let bg_on = self.control & 0x01 != 0;
        let mut i: usize = 0;
        while i < 160
            invariant
                p == self@,
                self@.wf(),
                p.ly < 144,
                i <= 160,
                row@.len() == i,
                pri@.len() == i,
                win_on == (window_enable(p.control) && p.wy <= p.ly),
                wxp == p.wxp(),
                bg_on == bg_enable(p.control),
                start == 160 * p.ly,
                forall|k: int| 0 <= k < i ==> row@[k] == p.base_color(k),
                forall|k: int| 0 <= k < i ==> pri@[k] == p.bg_pri(k),
            decreases 160 - i,
        {
            proof {
                assert(p.win_covers(i as int) == (win_on && i as u8 >= wxp));
            }
            if win_on && (i as u8) >= wxp {
                let num = self.win_pixel(i);
                row.push(palette_color(self.bgp, num));
                pri.push(num != 0);
            } else if bg_on {
                let num = self.bg_pixel(i);
                row.push(palette_color(self.bgp, num));
                pri.push(num != 0);
            } else {
                row.push(self.frame_buffer[start + i]);
                pri.push(false);
            }
            i = i + 1;
        }

        // Sprite pass.
        if self.control & 0x02 != 0 {
            let size: u8 = if self.control & 0x04 != 0 {
                16
            } else {
                8
            };

            // The first ten table entries on this line, in table order.
            let mut sprites: Vec<usize> = Vec::new();
            let mut j: usize = 0;
            while j < 40
                invariant
                    p == self@,
                    self@.wf(),
                    j <= 40,
                    size == p.sprite_height(),
                    sprites@ == p.selected_sprites(j as nat),
                decreases 40 - j,
            {
                let a = 4 * j;
                let sy = self.oam[a].wrapping_sub(16);
                let raw_x = self.oam[a + 1];
                if sprites.len() < 10 && self.ly.wrapping_sub(sy) < size && 1 <= raw_x && raw_x
                    <= 167 {
                    sprites.push(j);
                }
                j = j + 1;
            }

            // For each column, the qualifying sprite with the smallest X
            // (earliest table entry on ties) paints it.
            let mut c: usize = 0;
            while c < 160
                invariant
                    p == self@,
                    self@.wf(),
                    c <= 160,
                    size == p.sprite_height(),
                    obj_enable(p.control),
                    sprites@ == p.selected_sprites(40),
                    row@.len() == 160,
                    pri@.len() == 160,
                    forall|k: int| 0 <= k < 160 ==> pri@[k] == p.bg_pri(k),
                    forall|k: int| c <= k < 160 ==> row@[k] == p.base_color(k),
                    forall|k: int| 0 <= k < c ==> row@[k] == p.line_pixel(k),
                decreases 160 - c,
            {
                let best = self.sprite_winner_at(&sprites, &pri, c);
                proof {
                    assert(p.line_pixel(c as int) == (match best {
                        Some(w) => w.1,
                        None => p.base_color(c as int),
                    }));
                }
                match best {
                    Some(b) => row.set(c, b.1),
                    None => (),
                }
                c = c + 1;
            }
        }

        // Write the composited row into the pixel buffer.
        let mut i: usize = 0;
        while i < 160
            invariant
                self@ == (PpuV { frame: self@.frame, ..p }),
                self@.frame.len() == 23040,
                p.wf(),
                p.ly < 144,
                i <= 160,
                start == 160 * p.ly,
                row@.len() == 160,
                forall|k: int| 0 <= k < 160 ==> row@[k] == p.line_pixel(k),
                forall|k: int| 0 <= k < i ==> self@.frame[start + k] == row@[k],
                forall|k: int|
                    0 <= k < 23040 && !(start <= k < start + i) ==> self@.frame[k] == p.frame[k],
            decreases 160 - i,
        {
            self.frame_buffer.set(start + i, row[i]);
            i = i + 1;
        }
        proof {
            assert(self@ =~= p.spec_render_line());
        }
    }

    /// Background color number at screen column `i` of the current line.
    #[verifier::rlimit(100)]
    fn bg_pixel(&self, i: usize) -> (num: u8)
        requires
            self@.wf(),
            i < 160,
        ensures
            num == self@.bg_pixel_num(i as int),
            num <= 3,
    {
        proof {
            lemma_pixel_bits();
            reveal(PpuV::bg_pixel_num);
        }
        let y: u8 = self.ly.wrapping_add(self.scy);
        let x: u8 = (i as u8).wrapping_add(self.scx);
        let tmap: usize = if self.control & 0x08 != 0 {
            0x1c00
        } else {
            0x1800
        };
        let tn = self.vram[tmap + (y / 8) as usize * 32 + (x / 8) as usize];
        let ta = tile_addr(self.control, tn);
        let line = (y % 8) as usize * 2;
        let d0 = self.vram[ta + line];
        let d1 = self.vram[ta + line + 1];
        let mask = 7 - (x % 8);
        (((d0 >> mask) & 1) << 1) | ((d1 >> mask) & 1)
    }

    /// Window color number at screen column `i` of the current line.
    #[verifier::rlimit(100)]
    fn win_pixel(&self, i: usize) -> (num: u8)
        requires
            self@.wf(),
            i < 160,
            self@.wy <= self@.ly,
            self@.wxp() <= i,
        ensures
            num == self@.win_pixel_num(i as int),
            num <= 3,
    {
        proof {
            lemma_pixel_bits();
            reveal(PpuV::win_pixel_num);
        }
        let y: u8 = self.ly - self.wy;
        let wxp: u8 = self.wx.wrapping_add(7);
        let x: u8 = (i as u8) - wxp;
        let tmap: usize = if self.control & 0x40 != 0 {
            0x1c00
        } else {
            0x1800
        };
        let tn = self.vram[tmap + (y / 8) as usize * 32 + (x / 8) as usize];
        let ta = tile_addr(self.control, tn);
        let line = (y % 8) as usize * 2;
        let d0 = self.vram[ta + line];
        let d1 = self.vram[ta + line + 1];
        let mask = 7 - (x % 8);
        (((d0 >> mask) & 1) << 1) | ((d1 >> mask) & 1)
    }

    /// Sprite `j`'s color number at screen column `c`; the sprite must
    /// cover the column and lie on the current line.
    #[verifier::rlimit(100)]
    #[verifier::spinoff_prover]
    fn sprite_pixel(&self, j: usize, c: usize) -> (num: u8)
        requires
            self@.wf(),
            j < 40,
            c < 160,
            self@.sprite_on_line(j),
            self@.sprite_covers(j, c as int),
        ensures
            num == self@.sprite_pixel_num(j, c as int),
            num <= 3,
    {
        proof {
            lemma_pixel_bits();
        }
        let ghost p = self@;
        let a = 4 * j;
        let sx = self.oam[a + 1].wrapping_sub(8);
        let k = (c as u8).wrapping_sub(sx);
        let size: u8 = if self.control & 0x04 != 0 {
            16
        } else {
            8
        };
        let sy = self.oam[a].wrapping_sub(16);
        let dy = self.ly.wrapping_sub(sy);
        let flags = self.oam[a + 3];
        proof {
            assert(sx == (p.oam[4 * j + 1] - 8) % 256);
            assert(k == (c - ((p.oam[4 * j + 1] - 8) % 256)) % 256);
            assert(dy == (p.ly - ((p.oam[4 * j] - 16) % 256)) % 256);
        }
        let rr = if flags & 0x40 != 0 {
            size - 1 - dy
        } else {
            dy
        };
        let t0 = self.oam[a + 2];
        let tn = if self.control & 0x04 != 0 {
            if rr < 8 {
                t0 & 0xfe
            } else {
                t0 | 0x01
            }
        } else {
            t0
        };
        let col = if flags & 0x20 != 0 {
            7 - k
        } else {
            k
        };
        let ta = tile_addr(self.control, tn);
        let line = (rr % 8) as usize * 2;
        let d0 = self.vram[ta + line];
        let d1 = self.vram[ta + line + 1];
        let mask = 7 - col;
        let num = (((d0 >> mask) & 1) << 1) | ((d1 >> mask) & 1);
        proof {
            reveal(PpuV::sprite_pixel_num);
            assert(num == tile_pixel_num(
                p.vram,
                spec_tile_addr(p.control, tn),
                rr as int % 8,
                col as int,
            ));
        }
        num
    }

    /// Among the selected sprites, the one that paints column `c`: smallest
    /// X wins, earliest table entry on ties; transparent pixels and pixels
    /// deferring to the background mask never win.
    #[verifier::rlimit(100)]
    #[verifier::spinoff_prover]
    fn sprite_winner_at(&self, sprites: &Vec<usize>, pri: &Vec<bool>, c: usize) -> (best: Option<
        (u8, u32),
    >)
        requires
            self@.wf(),
            c < 160,
            sprites@ == self@.selected_sprites(40),
            pri@.len() == 160,
            forall|k: int| 0 <= k < 160 ==> pri@[k] == self@.bg_pri(k),
        ensures
            best == self@.sprite_winner(self@.selected_sprites(40), c as int),
    {
        let ghost p = self@;
        let mut best: Option<(u8, u32)> = None;
        let mut t: usize = 0;
        while t < sprites.len()
            invariant
                p == self@,
                self@.wf(),
                c < 160,
                t <= sprites@.len(),
                sprites@ == p.selected_sprites(40),
                pri@.len() == 160,
                forall|k: int| 0 <= k < 160 ==> pri@[k] == p.bg_pri(k),
                best == p.sprite_winner(sprites@.take(t as int), c as int),
            decreases sprites@.len() - t,
        {
            let j = sprites[t];
            proof {
                lemma_selected_sprites_bounded(p, 40, t as int);
                assert(sprites@.take(t as int + 1).drop_last() =~= sprites@.take(t as int));
                assert(sprites@.take(t as int + 1).last() == j);
            }
            let a = 4 * j;
            let sx = self.oam[a + 1].wrapping_sub(8);
            let k = (c as u8).wrapping_sub(sx);
            if k < 8 {
                let num = self.sprite_pixel(j, c);
                let flags = self.oam[a + 3];
                if num != 0 && (flags & 0x80 == 0 || !pri[c]) {
                    let raw_x = self.oam[a + 1];
                    let replace = match best {
                        None => true,
                        Some(b) => raw_x < b.0,
                    };
                    if replace {
                        let palette = if flags & 0x10 != 0 {
                            self.obp1
                        } else {
                            self.obp0
                        };
                        best = Some((raw_x, palette_color(palette, num)));
                    }
                }
            } else {
                proof {
                    assert(!p.sprite_qualifies(j, c as int));
                }
            }
            t = t + 1;
        }
        proof {
            assert(sprites@.take(sprites@.len() as int) =~= sprites@);
        }
        best
    }
}

/// Every selected sprite index refers to one of the forty table entries,
/// and every selected sprite lies on the current line.
proof fn lemma_selected_sprites_bounded(p: PpuV, j: nat, t: int)
    requires
        0 <= t < p.selected_sprites(j).len(),
    ensures
        p.selected_sprites(j)[t] < j,
        p.sprite_on_line(p.selected_sprites(j)[t]),
    decreases j,
{
    if j > 0 {
        let s = p.selected_sprites((j - 1) as nat);
        if t < s.len() {
            lemma_selected_sprites_bounded(p, (j - 1) as nat, t);
        }
    }
}


/// With the LCD enabled, each run call advances the frame position by
/// exactly its tick, modulo the 70224-cycle frame; and the frame position
/// is zero exactly at entry into sprite scan at line 0. So the cycles
/// consumed between two successive such entries sum to exactly 70224.
pub proof fn lemma_frame_cycle(p: PpuV, tick: u32)
    requires
        p.wf(),
        lcd_enable(p.control),
        tick <= 24,
    ensures
        p.spec_run(tick).frame_pos() == (p.frame_pos() + tick) % 70224,
        (p.frame_pos() == 0) <==> (p.mode == Mode::AccessOAM && p.ly == 0 && p.clocks == 0),
{
    assert(p.frame_pos() < 70224);
    let q = p.spec_run(tick);
    match p.mode {
        Mode::AccessOAM => {
            assert(q.frame_pos() == p.frame_pos() + tick);
        },
        Mode::AccessVRAM => {
            assert(q.frame_pos() == p.frame_pos() + tick);
        },
        Mode::HBlank => {
            assert(q.frame_pos() == p.frame_pos() + tick);
        },
        Mode::VBlank => {
            if p.clocks + tick >= 456 && p.ly == 153 {
                assert(q.frame_pos() == p.frame_pos() + tick - 70224);
            } else {
                assert(q.frame_pos() == p.frame_pos() + tick);
            }
        },
    }
}


/// Sprite priority, stated over any selection and column: no winner exactly
/// when no selected sprite qualifies at the column; otherwise the winner
/// carries the smallest X among the qualifying sprites, and its color is
/// that of the earliest table entry with that X — table order breaks ties
/// only between equal X values.
pub proof fn lemma_sprite_priority(p: PpuV, js: Seq<usize>, c: int)
    ensures
        (p.sprite_winner(js, c) is None) <==> (forall|t: int|
            0 <= t < js.len() ==> !p.sprite_qualifies(#[trigger] js[t], c)),
        (p.sprite_winner(js, c) matches Some(w) ==> {
            &&& (forall|t: int|
                0 <= t < js.len() && p.sprite_qualifies(#[trigger] js[t], c) ==> w.0 <= p.oam[
                    4 * js[t] + 1
                ])
            &&& (exists|t: int|
                0 <= t < js.len() && p.sprite_qualifies(#[trigger] js[t], c) && p.oam[4 * js[t]
                    + 1] == w.0 && p.sprite_color(js[t], c) == w.1 && (forall|u: int|
                    0 <= u < t && p.sprite_qualifies(#[trigger] js[u], c) ==> p.oam[4 * js[u] + 1]
                        > w.0))
        }),
    decreases js.len(),
{
    if js.len() > 0 {
        let prev = p.sprite_winner(js.drop_last(), c);
        lemma_sprite_priority(p, js.drop_last(), c);
        assert(forall|t: int| 0 <= t < js.len() - 1 ==> js.drop_last()[t] == #[trigger] js[t]);
        let j = js.last();
        if p.sprite_qualifies(j, c) && (prev is None || p.oam[4 * j + 1] < prev->Some_0.0) {
            let w = p.sprite_winner(js, c)->Some_0;
            assert(p.sprite_qualifies(js[js.len() - 1], c));
            assert(exists|t: int|
                0 <= t < js.len() && p.sprite_qualifies(#[trigger] js[t], c) && p.oam[4 * js[t]
                    + 1] == w.0 && p.sprite_color(js[t], c) == w.1 && (forall|u: int|
                    0 <= u < t && p.sprite_qualifies(#[trigger] js[u], c) ==> p.oam[4 * js[u] + 1]
                        > w.0)) by {
                assert(0 <= js.len() - 1 < js.len() && p.sprite_qualifies(
                    js[js.len() - 1],
                    c,
                ) && p.oam[4 * js[js.len() - 1] + 1] == w.0 && p.sprite_color(
                    js[js.len() - 1],
                    c,
                ) == w.1 && (forall|u: int|
                    0 <= u < js.len() - 1 && p.sprite_qualifies(#[trigger] js[u], c) ==> p.oam[4
                        * js[u] + 1] > w.0));
            }
        } else {
            if p.sprite_winner(js, c) is Some {
                let w = p.sprite_winner(js, c)->Some_0;
                assert(exists|t: int|
                    0 <= t < js.len() && p.sprite_qualifies(#[trigger] js[t], c) && p.oam[4 * js[t]
                        + 1] == w.0 && p.sprite_color(js[t], c) == w.1 && (forall|u: int|
                        0 <= u < t && p.sprite_qualifies(#[trigger] js[u], c) ==> p.oam[4 * js[u]
                            + 1] > w.0)) by {
                    let t0 = choose|t: int|
                        0 <= t < js.len() - 1 && p.sprite_qualifies(#[trigger] js.drop_last()[t], c)
                            && p.oam[4 * js.drop_last()[t] + 1] == w.0 && p.sprite_color(
                            js.drop_last()[t],
                            c,
                        ) == w.1 && (forall|u: int|
                            0 <= u < t && p.sprite_qualifies(
                                #[trigger] js.drop_last()[u],
                                c,
                            ) ==> p.oam[4 * js.drop_last()[u] + 1] > w.0);
                    assert(0 <= t0 < js.len() && p.sprite_qualifies(js[t0], c) && p.oam[4 * js[t0]
                        + 1] == w.0 && p.sprite_color(js[t0], c) == w.1 && (forall|u: int|
                        0 <= u < t0 && p.sprite_qualifies(#[trigger] js[u], c) ==> p.oam[4 * js[u]
                            + 1] > w.0));
                }
            }
        }
    }
}

} // verus!
