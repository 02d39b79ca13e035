pub mod background;
pub mod colors;
pub mod mem;
pub mod palette;
pub mod register;
pub mod sprite;
pub mod tile;

use crate::cpu::memory::ram_read;
use crate::cpu::memory::Ram;
use crate::ppu::background::bg_entry;
use crate::ppu::background::bg_pixel_rgb;
use crate::ppu::background::bgv_pixel_entry;
use crate::ppu::background::Background;
use crate::ppu::background::BackgroundV;
use crate::ppu::colors::spec_color;
use crate::ppu::mem::ppumem_read;
use crate::ppu::mem::PpuMem;
use crate::ppu::mem::PpuMemV;
use crate::ppu::register::dma_dest;
use crate::ppu::register::PpuRegister;
use crate::ppu::sprite::plane_pixel;
use crate::ppu::tile::Tile;
use crate::ppu::palette::pal_index;
use crate::renderer::frame_set_pixel;
use crate::renderer::get_rgb;
use crate::renderer::Frame;
use crate::rom::Cartbridge;
use vstd::prelude::*;

verus! {

/// One PPU frame: 262 scanlines of 341 dots.
pub const DOTS_PER_LINE: u16 = 341;
pub const LINES_PER_FRAME: u16 = 262;
pub const DOTS_PER_FRAME: u32 = 89342;

#[derive(Clone, Copy, PartialEq, Eq, Structural, Debug)]
pub enum PpuStatus {
    PROCESSING,
    RENDERING,
    INTERRUPTNMI,
}

pub struct Ppu {
    pub register: PpuRegister,
    pub mem: PpuMem,
    pub background: Background,
    /// Current dot, 0-340.
    pub dot: u16,
    /// Current scanline: 0-239 visible, 240 idle, 241-260 VBlank, 261
    /// pre-render.
    pub line: u16,
    /// Pattern tables decoded for the debug overlay.
    pub tileset: Vec<Tile>,
    pub updated: bool,
    pub oam_addr: u8,
    /// Set when a $2000 write enables NMI while VBlank is already high.
    pub nmi_latch: bool,
}

/// Serial position of (line, dot) inside the 89,342-dot frame.
pub open spec fn dot_index(line: u16, dot: u16) -> int {
    line * 341 + dot
}

/// Loopy coarse-X increment: at the end of a tile, wrap and flip the
/// horizontal nametable bit.
pub open spec fn spec_increment_x(reg: PpuRegister) -> PpuRegister {
    if reg.r_addr & 0x001F == 31 {
        PpuRegister { r_addr: ((reg.r_addr & 0xFFE0) ^ 0x0400) as u16, ..reg }
    } else {
        PpuRegister { r_addr: (reg.r_addr + 1) as u16, ..reg }
    }
}

/// Loopy Y increment: fine Y rolls into coarse Y, whose 29 -> 0 wrap
/// flips the vertical nametable bit; 31 wraps without the flip.
pub open spec fn spec_increment_y(reg: PpuRegister) -> PpuRegister {
    if reg.r_addr & 0x7000 != 0x7000 {
        PpuRegister { r_addr: (reg.r_addr + 0x1000) as u16, ..reg }
    } else {
        let a = (reg.r_addr & 0x8FFF) as u16;
        let y = (a & 0x03E0) >> 5;
        if y == 29 {
            PpuRegister { r_addr: ((a ^ 0x0800) & 0xFC1F) as u16, ..reg }
        } else if y == 31 {
            PpuRegister { r_addr: (a & 0xFC1F) as u16, ..reg }
        } else {
            PpuRegister { r_addr: ((a & 0xFC1F) | (((y + 1) as u16) << 5)) as u16, ..reg }
        }
    }
}

/// Dot 257: the horizontal bits of `t` go into `v`.
pub open spec fn spec_copy_x(reg: PpuRegister) -> PpuRegister {
    PpuRegister { r_addr: ((reg.r_addr & 0xFBE0) | (reg.r_t_addr & 0x041F)) as u16, ..reg }
}

/// Pre-render dots 280-304: the vertical bits of `t` go into `v`.
pub open spec fn spec_copy_y(reg: PpuRegister) -> PpuRegister {
    PpuRegister { r_addr: ((reg.r_addr & 0x841F) | (reg.r_t_addr & 0x7BE0)) as u16, ..reg }
}

/// Whether the scroll pipeline runs on this line: visible lines and the
/// pre-render line.
pub open spec fn render_line(line: u16) -> bool {
    line < 240 || line == 261
}

/// Whether this dot sits in one of the two tile-fetch spans.
pub open spec fn fetch_dot(dot: u16) -> bool {
    (1 <= dot <= 256) || (321 <= dot <= 336)
}

/// The register file after one dot at (line, dot): the loopy updates
/// when rendering is enabled, then the VBlank set at (241, 1) and the
/// flag clears at (261, 1).
pub open spec fn spec_run_reg(reg: PpuRegister, line: u16, dot: u16) -> PpuRegister {
    let en = reg.spec_rendering_enabled();
    let r1 = if en && render_line(line) && fetch_dot(dot) && dot % 8 == 0 {
        spec_increment_x(reg)
    } else {
        reg
    };
    let r2 = if en && render_line(line) && dot == 256 {
        spec_increment_y(r1)
    } else {
        r1
    };
    let r3 = if en && render_line(line) && dot == 257 {
        spec_copy_x(r2)
    } else {
        r2
    };
    let r4 = if en && line == 261 && 280 <= dot <= 304 {
        spec_copy_y(r3)
    } else {
        r3
    };
    let r5 = if line == 241 && dot == 1 {
        PpuRegister { s_vblank: true, ..r4 }
    } else {
        r4
    };
    if line == 261 && dot == 1 {
        PpuRegister { s_vblank: false, s_sprite_zero: false, s_overflow: false, ..r5 }
    } else {
        r5
    }
}

/// The decoded window after phase 0: entries 7-14 take the fetched tile
/// row and both pattern latches end shifted out.
pub open spec fn bg_store(bg: BackgroundV) -> BackgroundV {
    BackgroundV {
        tiles_data: Seq::new(
            16,
            |i: int|
                if 7 <= i < 15 {
                    bg_entry(bg.tile_attr, bg.tile_low_byte, bg.tile_hi_byte, (i - 7) as u8)
                } else {
                    bg.tiles_data[i]
                },
        ),
        tile_low_byte: 0,
        tile_hi_byte: 0,
        ..bg
    }
}

/// The window slid one dot: each entry takes the next one's value, the
/// last keeps its own.
pub open spec fn bg_shift(bg: BackgroundV) -> BackgroundV {
    BackgroundV {
        tiles_data: Seq::new(
            16,
            |i: int|
                if i < 15 {
                    bg.tiles_data[i + 1]
                } else {
                    bg.tiles_data[15]
                },
        ),
        ..bg
    }
}

/// The fetch phase this dot performs on the pipeline latches.
pub open spec fn bg_fetch_phase(
    bg: BackgroundV,
    reg: PpuRegister,
    mem: PpuMemV,
    dot: u16,
) -> BackgroundV {
    let ph = dot % 8;
    if ph == 0 {
        bg_store(bg)
    } else if ph == 1 {
        BackgroundV { nametable_addr: (0x2000u16 | (reg.r_addr & 0x0FFF)) as int, ..bg }
    } else if ph == 3 {
        BackgroundV {
            tile_attr: ((ppumem_read(mem, Background::spec_attr_addr(reg.r_addr) as int) >> ((((
            reg.r_addr >> 4) & 4) | (reg.r_addr & 2)) as u8)) & 3) << 2,
            ..bg
        }
    } else if ph == 5 {
        let ta = Background::spec_pattern_addr(
            ppumem_read(mem, bg.nametable_addr),
            (reg.r_ctrl_zero >> 4) & 0x01,
            reg.r_addr,
        );
        BackgroundV { tile_addr: ta, tile_low_byte: ppumem_read(mem, ta), ..bg }
    } else if ph == 7 {
        let ta = 8 + Background::spec_pattern_addr(
            ppumem_read(mem, bg.nametable_addr),
            (reg.r_ctrl_zero >> 4) & 0x01,
            reg.r_addr,
        );
        BackgroundV { tile_addr: ta, tile_hi_byte: ppumem_read(mem, ta), ..bg }
    } else {
        bg
    }
}

/// The pipeline latches after one dot at (line, dot): the fetch phase on
/// render lines inside the fetch spans, then the slide on visible pixel
/// dots; untouched when rendering is disabled.
pub open spec fn spec_run_bg(
    bg: BackgroundV,
    reg: PpuRegister,
    mem: PpuMemV,
    line: u16,
    dot: u16,
) -> BackgroundV {
    if !reg.spec_rendering_enabled() {
        bg
    } else {
        let b1 = if render_line(line) && fetch_dot(dot) {
            bg_fetch_phase(bg, reg, mem, dot)
        } else {
            bg
        };
        if line < 240 && 1 <= dot <= 256 {
            bg_shift(b1)
        } else {
            b1
        }
    }
}

/// Whether this dot scores a sprite-0 hit: on a visible pixel dot other
/// than 255, with background and sprites both shown, the dot lies inside
/// sprite 0's 8 x 8 box (one line below its OAM Y), its pattern bit
/// there is opaque, and so is the background pixel the slid window
/// selects. Attribute flips are not modelled.
pub open spec fn spec_sprite0_hit(
    bg: BackgroundV,
    reg: PpuRegister,
    mem: PpuMemV,
    line: u16,
    dot: u16,
) -> bool {
    let y0 = mem.oam[0];
    let tile0 = mem.oam[1];
    let x0 = mem.oam[3];
    let px = dot - 1;
    &&& line < 240 && 1 <= dot <= 256 && dot != 255
    &&& (reg.r_ctrl_one >> 3) & 0x01 == 1
    &&& (reg.r_ctrl_one >> 4) & 0x01 == 1
    &&& x0 <= px < x0 + 8
    &&& y0 + 1 <= line < y0 + 9
    &&& ({
        let cx = (px - x0) as u8;
        let cy = line - (y0 + 1);
        let pl = ppumem_read(mem, tile0 * 16 + cy);
        let ph = ppumem_read(mem, tile0 * 16 + cy + 8);
        (((pl >> ((7 - cx) as u8)) & 1) | ((ph >> ((7 - cx) as u8)) & 1)) != 0
    })
    &&& bg.tiles_data[reg.r_fine_scroll_x as int] & 3 != 0
}

/// The register file after one dot, sprite-0 hit included: the flag
/// rises when `spec_sprite0_hit` holds of the slid window, then the
/// loopy and VBlank transitions of `spec_run_reg` apply.
pub open spec fn spec_run_ppu(
    reg: PpuRegister,
    bg: BackgroundV,
    mem: PpuMemV,
    line: u16,
    dot: u16,
) -> PpuRegister {
    let hit = spec_sprite0_hit(spec_run_bg(bg, reg, mem, line, dot), reg, mem, line, dot);
    let r0 = if hit {
        PpuRegister { s_sprite_zero: true, ..reg }
    } else {
        reg
    };
    spec_run_reg(r0, line, dot)
}

/// The frame after the sprite-pattern pass paints its pixel for
/// (line, dot): the OAM slot picked by the dot's fetch column and the
/// line's row, its pattern sampled from the tables and coloured from the
/// sprite palette.
pub open spec fn spec_sprite_dot(frame: Seq<u8>, mem: PpuMemV, line: u16, dot: u16) -> Seq<u8> {
    let n = ((dot - 257) / 8) * 4 + (line / 8) * 4;
    let y = mem.oam[n];
    let index = mem.oam[n + 1];
    let attr = mem.oam[n + 2];
    let x = mem.oam[n + 3];
    let xoff = (dot - 257) % 8;
    let yoff = line % 8;
    let pl = ppumem_read(mem, index * 16 + yoff) << (xoff as u8);
    let ph = ppumem_read(mem, index * 16 + yoff + 8) << (xoff as u8);
    let pixel = (((pl & 0x80) >> 7) | ((ph & 0x80) >> 6)) as u8;
    let c = spec_color(mem.palette[pal_index(0x3F10 + (attr & 3) * 4 + pixel)]);
    frame_set_pixel(
        frame,
        (x + xoff) as u32,
        (y + yoff) as u32,
        ((((c & 0xFF0000) >> 16) as u8), (((c & 0x00FF00) >> 8) as u8), ((c & 0x0000FF) as u8)),
    )
}

/// The frame after one dot: the background pixel on visible pixel dots
/// when PPUMASK shows the background, the sprite pass's pixel on its
/// span, untouched everywhere else or with rendering off.
pub open spec fn spec_run_frame(
    frame: Seq<u8>,
    bg: BackgroundV,
    reg: PpuRegister,
    mem: PpuMemV,
    line: u16,
    dot: u16,
) -> Seq<u8> {
    if !reg.spec_rendering_enabled() {
        frame
    } else if line < 240 && 1 <= dot <= 256 {
        if (reg.r_ctrl_one >> 3) & 0x01 == 1 {
            frame_set_pixel(
                frame,
                (dot - 1) as u32,
                line as u32,
                bg_pixel_rgb(
                    mem,
                    bgv_pixel_entry(spec_run_bg(bg, reg, mem, line, dot), reg.r_fine_scroll_x),
                ),
            )
        } else {
            frame
        }
    } else if 1 <= line <= 239 && 257 <= dot <= 320 {
        spec_sprite_dot(frame, mem, line, dot)
    } else {
        frame
    }
}

/// Scanline of serial frame position `pos`.
pub open spec fn line_of(pos: int) -> u16 {
    (pos / 341) as u16
}

/// Dot of serial frame position `pos`.
pub open spec fn dot_of(pos: int) -> u16 {
    (pos % 341) as u16
}

/// The register file and pipeline window after `n` further dots from
/// serial frame position `pos0`: `spec_run_ppu` and `spec_run_bg`
/// applied once per dot, the position wrapping at the frame boundary.
pub open spec fn spec_run_ppu_n(
    reg: PpuRegister,
    bg: BackgroundV,
    mem: PpuMemV,
    pos0: int,
    n: nat,
) -> (PpuRegister, BackgroundV)
    decreases n,
{
    if n == 0 {
        (reg, bg)
    } else {
        let prev = spec_run_ppu_n(reg, bg, mem, pos0, (n - 1) as nat);
        let p = (pos0 + n - 1) % (DOTS_PER_FRAME as int);
        (
            spec_run_ppu(prev.0, prev.1, mem, line_of(p), dot_of(p)),
            spec_run_bg(prev.1, prev.0, mem, line_of(p), dot_of(p)),
        )
    }
}

/// Whether any of the `n` dots from position `pos0` raises an NMI
/// request, the register file and window evolving dot by dot.
pub open spec fn spec_nmi_in_ticks(
    reg: PpuRegister,
    bg: BackgroundV,
    mem: PpuMemV,
    pos0: int,
    n: nat,
) -> bool
    decreases n,
{
    if n == 0 {
        false
    } else {
        let p = (pos0 + n - 1) % (DOTS_PER_FRAME as int);
        spec_nmi_in_ticks(reg, bg, mem, pos0, (n - 1) as nat) || spec_run_status(
            spec_run_ppu_n(reg, bg, mem, pos0, (n - 1) as nat).0,
            line_of(p),
            dot_of(p),
        ) == PpuStatus::INTERRUPTNMI
    }
}

/// Status the orchestrator sees for one dot at (line, dot).
pub open spec fn spec_run_status(reg: PpuRegister, line: u16, dot: u16) -> PpuStatus {
    if line == 241 && dot == 1 && (reg.r_ctrl_zero >> 7) & 0x01 == 1 {
        PpuStatus::INTERRUPTNMI
    } else if line == 261 && dot == 340 {
        PpuStatus::RENDERING
    } else {
        PpuStatus::PROCESSING
    }
}

/// At scanline 241, dot 1, the VBlank flag rises and an NMI is asked
/// for exactly when PPUCTRL enables it; a $2002 read of the risen state
/// then reports $80 (when the sprite flags are down) and clears both
/// the flag and the write toggle. No sprite-0 hit can score there.
pub proof fn lemma_vblank_rise(reg: PpuRegister, bg: BackgroundV, mem: PpuMemV)
    ensures
        spec_run_ppu(reg, bg, mem, 241, 1).s_vblank,
        spec_run_status(reg, 241, 1) == (if (reg.r_ctrl_zero >> 7) & 0x01 == 1 {
            PpuStatus::INTERRUPTNMI
        } else {
            PpuStatus::PROCESSING
        }),
        !reg.s_sprite_zero && !reg.s_overflow ==> spec_run_ppu(
            reg,
            bg,
            mem,
            241,
            1,
        ).spec_status_byte() == 0x80,
        !spec_run_ppu(reg, bg, mem, 241, 1).spec_read_status().s_vblank,
        !spec_run_ppu(reg, bg, mem, 241, 1).spec_read_status().r_writing_lower_addr,
{
}

impl Ppu {
    pub open spec fn wf(&self) -> bool {
        &&& self.register.wf()
        &&& self.mem.wf()
        &&& self.background.wf()
        &&& self.dot < DOTS_PER_LINE
        &&& self.line < LINES_PER_FRAME
    }

    pub fn new() -> (r: Ppu)
        ensures
            r.wf(),
            r.register == PpuRegister::spec_power_on(),
            r.dot == 0,
            r.line == 0,
            !r.updated,
            !r.nmi_latch,
            r.tileset@.len() == 0,
    {
        Ppu {
            background: Background::new(),
            register: PpuRegister::new(),
            mem: PpuMem::new(),
            tileset: Vec::new(),
            dot: 0,
            line: 0,
            updated: false,
            oam_addr: 0,
            nmi_latch: false,
        }
    }

    /// CPU read of a PPU register; `i` is anywhere in $2000-$3FFF and is
    /// mirrored onto $2000-$2007.
    pub fn peek(&mut self, i: u16) -> (r: u8)
        requires
            old(self).wf(),
        ensures
            final(self).wf(),
            r == ppu_read_val(*old(self), i),
            final(self).register == ppu_read_reg(*old(self), i),
            final(self).mem@ == old(self).mem@,
            final(self).background == old(self).background,
            final(self).dot == old(self).dot,
            final(self).line == old(self).line,
            final(self).updated == old(self).updated,
            final(self).nmi_latch == old(self).nmi_latch,
            final(self).tileset@ == old(self).tileset@,
            final(self).oam_addr == old(self).oam_addr,
    {
        let reg = i & 0x0007;
        if reg == 2 {
            self.register.read_status()
        } else if reg == 4 {
            self.register.read_oam(&self.mem)
        } else if reg == 7 {
            self.register.read_data(&self.mem)
        } else {
            0
        }
    }

    /// CPU write of a PPU register; `i` is mirrored onto $2000-$2007.
    /// A $2000 write that turns NMI on while VBlank is high latches an
    /// immediate NMI request.
    pub fn write(&mut self, i: u16, v: u8) -> (r: u8)
        requires
            old(self).wf(),
        ensures
            final(self).wf(),
            r == v,
            final(self).register == ppu_write_reg(*old(self), i, v),
            final(self).mem@ == ppu_write_mem(*old(self), i, v),
            final(self).updated,
            final(self).nmi_latch == (old(self).nmi_latch || ((i & 7) == 0
                && old(self).register.s_vblank && (old(self).register.r_ctrl_zero >> 7) & 0x01 == 0
                && (v >> 7) & 0x01 == 1)),
            final(self).background == old(self).background,
            final(self).dot == old(self).dot,
            final(self).line == old(self).line,
            final(self).tileset@ == old(self).tileset@,
            final(self).oam_addr == old(self).oam_addr,
    {
        self.updated = true;
        let reg = i & 0x0007;
        if reg == 0 {
            if self.register.s_vblank && self.register.get_nmi_enable() == 0 && (v >> 7) & 0x01
                == 1 {
                self.nmi_latch = true;
            }
            self.register.set_ctrl_zero(v);
        } else if reg == 1 {
            self.register.set_ctrl_one(v);
        } else if reg == 3 {
            self.register.set_oam_addr(v);
        } else if reg == 4 {
            let addr = self.register.get_oam_addr();
            self.mem.write_sprite_data(addr as usize, v);
            self.register.set_oam_addr(addr.wrapping_add(1));
        } else if reg == 5 {
            self.register.set_scroll(v);
        } else if reg == 6 {
            self.register.set_addr(v as u16);
        } else if reg == 7 {
            self.register.write_data(v, &mut self.mem);
        }
        v
    }

    /// OAM DMA from CPU RAM page `v`.
    pub fn write_dma(&mut self, v: u8, ram: &Ram) -> (r: u8)
        requires
            old(self).wf(),
            ram.wf(),
        ensures
            final(self).wf(),
            r == v,
            final(self).register == (PpuRegister { r_oam_dma: v, ..old(self).register }),
            forall|k: int|
                0 <= k < 256 ==> final(self).mem@.oam[dma_dest(old(self).register.r_oam_addr, k)]
                    == ram_read(ram@, ((v as u16) * 0x100 + k) as u16),
            final(self).mem@.chr == old(self).mem@.chr,
            final(self).mem@.nt == old(self).mem@.nt,
            final(self).mem@.palette == old(self).mem@.palette,
            final(self).mem@.mirroring == old(self).mem@.mirroring,
            final(self).updated,
            final(self).dot == old(self).dot,
            final(self).line == old(self).line,
            final(self).nmi_latch == old(self).nmi_latch,
            final(self).background == old(self).background,
            final(self).tileset@ == old(self).tileset@,
            final(self).oam_addr == old(self).oam_addr,
    {
        self.updated = true;
        self.register.write_oam_data(v, &mut self.mem, ram);
        v
    }

    /// Loads the cartridge's CHR into the pattern tables, adopts its
    /// mirroring, and decodes the first pattern table into 256 tiles for
    /// the debug overlay.
    pub fn init(&mut self, rom: &Cartbridge)
        requires
            old(self).wf(),
            rom.wf(),
        ensures
            final(self).wf(),
            forall|i: int|
                0 <= i < 0x2000 ==> final(self).mem@.chr[i] == rom.character@[i],
            final(self).mem@.mirroring == rom.mirroring,
            final(self).mem@.nt == old(self).mem@.nt,
            final(self).mem@.palette == old(self).mem@.palette,
            final(self).mem@.oam == old(self).mem@.oam,
            final(self).tileset@.len() == 256,
            forall|t: int, j: int, k: int|
                0 <= t < 256 && 0 <= j < 8 && 0 <= k < 8
                    ==> #[trigger] final(self).tileset@[t].pixels@[j]@[k] == plane_pixel(
                    final(self).mem@.chr[t * 16 + j],
                    final(self).mem@.chr[t * 16 + j + 8],
                    k as u8,
                ),
            final(self).register == old(self).register,
            final(self).dot == old(self).dot,
            final(self).line == old(self).line,
    {
        self.mem.set_cram(rom.get_character());
        self.mem.set_mirroring(rom.mirroring);
        let mut tileset: Vec<Tile> = Vec::new();
        let mut t: usize = 0;
        while t < 256
            invariant
                self.wf(),
                t <= 256,
                tileset@.len() == t,
                forall|a: int, j: int, k: int|
                    0 <= a < t && 0 <= j < 8 && 0 <= k < 8
                        ==> #[trigger] tileset@[a].pixels@[j]@[k] == plane_pixel(
                        self.mem@.chr[a * 16 + j],
                        self.mem@.chr[a * 16 + j + 8],
                        k as u8,
                    ),
            decreases 256 - t,
        {
            let mut slice: Vec<u8> = Vec::new();
            let mut j: usize = 0;
            while j < 16
                invariant
                    self.wf(),
                    t < 256,
                    j <= 16,
                    slice@.len() == j,
                    forall|b: int| 0 <= b < j ==> slice@[b] == self.mem@.chr[t * 16 + b],
                decreases 16 - j,
            {
                slice.push(self.mem.peek(t * 16 + j));
                j = j + 1;
            }
            let mut tile = Tile::new();
            tile.build_tile(&slice, t * 16 + 16);
            tileset.push(tile);
            t = t + 1;
        }
        self.tileset = tileset;
    }

    /// Power-state reset: memory, registers and the tileset start over;
    /// the frame position is kept, as the hardware's counters free-run.
    pub fn reset(&mut self)
        requires
            old(self).wf(),
        ensures
            final(self).wf(),
            final(self).register == PpuRegister::spec_power_on(),
            final(self).tileset@.len() == 0,
            final(self).dot == old(self).dot,
            final(self).line == old(self).line,
    {
        self.mem = PpuMem::new();
        self.register = PpuRegister::new();
        self.tileset = Vec::new();
    }

    /// Coarse-X step of `v` (loopy increment across a tile row).
    pub fn increment_x(&mut self)
        requires
            old(self).wf(),
        ensures
            final(self).wf(),
            final(self).register == spec_increment_x(old(self).register),
            final(self).mem@ == old(self).mem@,
            final(self).background == old(self).background,
            final(self).dot == old(self).dot,
            final(self).line == old(self).line,
            final(self).updated == old(self).updated,
            final(self).nmi_latch == old(self).nmi_latch,
            final(self).tileset@ == old(self).tileset@,
            final(self).oam_addr == old(self).oam_addr,
    {
        proof {
            let a = old(self).register.r_addr;
            assert(a & 0x001F != 31 ==> a + 1 < 0x8000) by (bit_vector)
                requires a < 0x8000;
            assert(((a & 0xFFE0) ^ 0x0400) < 0x8000) by (bit_vector)
                requires a < 0x8000;
        }
        if self.register.get_addr() & 0x001F == 31 {
            let a = self.register.get_addr();
            self.register.set_addr_plain((a & 0xFFE0) ^ 0x0400);
        } else {
            let a = self.register.get_addr();
            self.register.set_addr_plain(a + 1);
        }
    }

    /// Y step of `v` at dot 256: fine Y, then coarse Y with the 29 -> 0
    /// wrap that flips the vertical nametable bit.
    pub fn increment_y(&mut self)
        requires
            old(self).wf(),
        ensures
            final(self).wf(),
            final(self).register == spec_increment_y(old(self).register),
            final(self).mem@ == old(self).mem@,
            final(self).background == old(self).background,
            final(self).dot == old(self).dot,
            final(self).line == old(self).line,
            final(self).updated == old(self).updated,
            final(self).nmi_latch == old(self).nmi_latch,
            final(self).tileset@ == old(self).tileset@,
            final(self).oam_addr == old(self).oam_addr,
    {
        let addr = self.register.get_addr();
        proof {
            let a = addr;
            assert(a & 0x7000 != 0x7000 ==> a + 0x1000 < 0x8000) by (bit_vector)
                requires a < 0x8000;
            assert((a & 0x8FFF) < 0x8000) by (bit_vector)
                requires a < 0x8000;
            let b = (a & 0x8FFF) as u16;
            assert(((b ^ 0x0800) & 0xFC1F) < 0x8000 && (b & 0xFC1F) < 0x8000) by (bit_vector)
                requires b < 0x8000;
            assert((b & 0x03E0) >> 5 < 32) by (bit_vector);
        }
        if addr & 0x7000 != 0x7000 {
            self.register.set_addr_plain(addr + 0x1000);
        } else {
            let a = addr & 0x8FFF;
            let y = (a & 0x03E0) >> 5;
            if y == 29 {
                self.register.set_addr_plain((a ^ 0x0800) & 0xFC1F);
            } else if y == 31 {
                self.register.set_addr_plain(a & 0xFC1F);
            } else {
                proof {
                    let b = a;
                    assert(((b & 0xFC1F) | ((((b & 0x03E0) >> 5) + 1) as u16) << 5) < 0x8000)
                        by (bit_vector)
                        requires b < 0x8000 && (b & 0x03E0) >> 5 < 31;
                }
                self.register.set_addr_plain((a & 0xFC1F) | ((y + 1) << 5));
            }
        }
    }

    /// Dot 257: horizontal bits of `t` into `v`.
    pub fn copy_x(&mut self)
        requires
            old(self).wf(),
        ensures
            final(self).wf(),
            final(self).register == spec_copy_x(old(self).register),
            final(self).mem@ == old(self).mem@,
            final(self).background == old(self).background,
            final(self).dot == old(self).dot,
            final(self).line == old(self).line,
            final(self).updated == old(self).updated,
            final(self).nmi_latch == old(self).nmi_latch,
            final(self).tileset@ == old(self).tileset@,
            final(self).oam_addr == old(self).oam_addr,
    {
        let addr = self.register.get_addr();
        let temp_addr = self.register.get_temp_addr();
        proof {
            let a = addr;
            let t = temp_addr;
            assert(((a & 0xFBE0) | (t & 0x041F)) < 0x8000) by (bit_vector)
                requires a < 0x8000;
        }
        self.register.set_addr_plain((addr & 0xFBE0) | (temp_addr & 0x041F));
    }

    /// Pre-render dots 280-304: vertical bits of `t` into `v`.
    pub fn copy_y(&mut self)
        requires
            old(self).wf(),
        ensures
            final(self).wf(),
            final(self).register == spec_copy_y(old(self).register),
            final(self).mem@ == old(self).mem@,
            final(self).background == old(self).background,
            final(self).dot == old(self).dot,
            final(self).line == old(self).line,
            final(self).updated == old(self).updated,
            final(self).nmi_latch == old(self).nmi_latch,
            final(self).tileset@ == old(self).tileset@,
            final(self).oam_addr == old(self).oam_addr,
    {
        let addr = self.register.get_addr();
        let temp_addr = self.register.get_temp_addr();
        proof {
            let a = addr;
            let t = temp_addr;
            assert(((a & 0x841F) | (t & 0x7BE0)) < 0x8000) by (bit_vector)
                requires a < 0x8000 && t < 0x8000;
        }
        self.register.set_addr_plain((addr & 0x841F) | (temp_addr & 0x7BE0));
    }

    /// Advances the PPU by exactly one dot.
    ///
    /// The frame counter steps serially through all 262 x 341 = 89,342
    /// dots and wraps; the VBlank flag rises at (241, 1) and falls with
    /// the sprite flags at (261, 1). The result asks the orchestrator
    /// for an NMI at (241, 1) when PPUCTRL enables it, and to present
    /// the finished frame at (261, 340). When PPUMASK shows neither
    /// background nor sprites, the frame and the pipeline latches are
    /// untouched. On visible pixel dots the sprite-0-hit flag rises when
    /// `spec_sprite0_hit` holds; full sprite evaluation (secondary OAM,
    /// the 8-sprite rule, the overflow flag) is not modelled, so the
    /// overflow flag only ever falls, at (261, 1).
    #[verifier::rlimit(100)]
    #[verifier::spinoff_prover]
    pub fn run(&mut self, frame: &mut Frame) -> (r: PpuStatus)
        requires
            old(self).wf(),
            old(frame).wf(),
        ensures
            final(self).wf(),
            final(frame).wf(),
            final(self).register == spec_run_ppu(
                old(self).register,
                old(self).background@,
                old(self).mem@,
                old(self).line,
                old(self).dot,
            ),
            r == spec_run_status(old(self).register, old(self).line, old(self).dot),
            dot_index(final(self).line, final(self).dot) == (dot_index(
                old(self).line,
                old(self).dot,
            ) + 1) % (DOTS_PER_FRAME as int),
            final(self).mem@ == old(self).mem@,
            final(self).updated == old(self).updated,
            final(self).nmi_latch == old(self).nmi_latch,
            final(self).tileset@ == old(self).tileset@,
            final(self).background@ == spec_run_bg(
                old(self).background@,
                old(self).register,
                old(self).mem@,
                old(self).line,
                old(self).dot,
            ),
            final(frame)@ == spec_run_frame(
                old(frame)@,
                old(self).background@,
                old(self).register,
                old(self).mem@,
                old(self).line,
                old(self).dot,
            ),
    {
        let mut status = PpuStatus::PROCESSING;
        let line = self.line;
        let dot = self.dot;
        let ghost bg0 = old(self).background@;
        let enabled = self.register.rendering_enabled();
        if enabled {
            if (line < 240 || line == 261) && ((dot >= 1 && dot <= 256) || (dot >= 321 && dot
                <= 336)) {
                let phase = dot % 8;
                if phase == 0 {
                    self.background.store_tile_data();
                    proof {
                        assert(self.background@.tiles_data =~= bg_store(bg0).tiles_data);
                    }
                } else if phase == 1 {
                    self.background.fetch_nametable(&self.register);
                } else if phase == 3 {
                    self.background.fetch_attribute(&self.mem, &self.register);
                } else if phase == 5 {
                    self.background.fetch_loworder_byte(&self.mem, &self.register);
                } else if phase == 7 {
                    self.background.fetch_highorder_byte(&self.mem, &self.register);
                }
            }
            proof {
                if render_line(line) && fetch_dot(dot) {
                    assert(self.background@ == bg_fetch_phase(
                        bg0,
                        old(self).register,
                        old(self).mem@,
                        dot,
                    ));
                }
            }
            let ghost bg1 = self.background@;
            if line < 240 && dot >= 1 && dot <= 256 {
                self.background.shit_tile_data();
                proof {
                    assert(self.background@.tiles_data =~= bg_shift(bg1).tiles_data);
                    assert(self.background@ == spec_run_bg(
                        bg0,
                        old(self).register,
                        old(self).mem@,
                        line,
                        dot,
                    ));
                }
                self.check_sprite_zero_hit(line, dot);
                self.background.render(dot as u32, line as u32, frame, &self.mem, &self.register);
            }
            if line >= 1 && line <= 239 && dot == 65 {
                self.oam_addr = 0;
            }
            if line >= 1 && line <= 239 && dot >= 257 && dot <= 320 {
                self.draw_sprite_dot(dot, line, frame);
            }
            if line < 240 || line == 261 {
                if ((dot >= 1 && dot <= 256) || (dot >= 321 && dot <= 336)) && dot % 8 == 0 {
                    self.increment_x();
                }
                if dot == 256 {
                    self.increment_y();
                }
                if dot == 257 {
                    self.copy_x();
                }
            }
            if line == 261 && dot >= 280 && dot <= 304 {
                self.copy_y();
            }
        }
        if line == 241 && dot == 1 {
            self.register.set_vblank();
            if self.register.get_nmi_enable() == 1 {
                status = PpuStatus::INTERRUPTNMI;
            }
        }
        if line == 261 && dot == 1 {
            self.register.clear_vblank();
            self.register.clear_spritehit();
            self.register.clear_overflow();
        }
        if line == 261 && dot == 340 {
            status = PpuStatus::RENDERING;
        }
        if self.dot < 340 {
            self.dot = self.dot + 1;
        } else {
            self.dot = 0;
            self.line = if self.line < 261 {
                self.line + 1
            } else {
                0
            };
        }
        proof {
            let idx = dot_index(old(self).line, old(self).dot);
            if idx + 1 < DOTS_PER_FRAME {
                vstd::arithmetic::div_mod::lemma_small_mod((idx + 1) as nat, DOTS_PER_FRAME as nat);
            } else {
                vstd::arithmetic::div_mod::lemma_mod_self_0(DOTS_PER_FRAME as int);
            }
        }
        status
    }

    /// Scores the sprite-0 hit for one visible pixel dot, exactly as
    /// `spec_sprite0_hit` says of the current (slid) window.
    fn check_sprite_zero_hit(&mut self, line: u16, dot: u16)
        requires
            old(self).wf(),
            line < 240,
            1 <= dot <= 256,
        ensures
            final(self).wf(),
            ({
                let hit = spec_sprite0_hit(
                    old(self).background@,
                    old(self).register,
                    old(self).mem@,
                    line,
                    dot,
                );
                final(self).register == (if hit {
                    PpuRegister { s_sprite_zero: true, ..old(self).register }
                } else {
                    old(self).register
                })
            }),
            final(self).mem@ == old(self).mem@,
            final(self).background == old(self).background,
            final(self).dot == old(self).dot,
            final(self).line == old(self).line,
            final(self).updated == old(self).updated,
            final(self).nmi_latch == old(self).nmi_latch,
            final(self).tileset@ == old(self).tileset@,
            final(self).oam_addr == old(self).oam_addr,
    {
        if dot != 255 && self.register.get_background_visibility() == 1
            && self.register.get_sprite_visibility() == 1 {
            let y0 = self.mem.spr_mem.oam[0];
            let tile0 = self.mem.spr_mem.oam[1];
            let x0 = self.mem.spr_mem.oam[3];
            let px = dot - 1;
            if (x0 as u16) <= px && px < (x0 as u16) + 8 && (y0 as u16) + 1 <= line && line < (y0
                as u16) + 9 {
                let cx = (px - (x0 as u16)) as u8;
                let cy = (line - ((y0 as u16) + 1)) as usize;
                let pl = self.mem.peek((tile0 as usize) * 16 + cy);
                let ph = self.mem.peek((tile0 as usize) * 16 + cy + 8);
                let sp_opaque = ((pl >> (7 - cx)) & 1) | ((ph >> (7 - cx)) & 1);
                let fine_x = self.register.get_r_fine_scroll_x() as usize;
                let bg_px = self.background.tiles_data[fine_x];
                if sp_opaque != 0 && bg_px & 3 != 0 {
                    self.register.set_spritehit();
                }
            }
        }
    }

    /// One dot of the sprite-pattern pass (dots 257-320 of a visible
    /// line): reads the slot's OAM entry and paints its pixel for this
    /// dot from the pattern tables, exactly as `spec_sprite_dot` says.
    fn draw_sprite_dot(&mut self, dot: u16, line: u16, frame: &mut Frame)
        requires
            old(self).wf(),
            old(frame).wf(),
            1 <= line <= 239,
            257 <= dot <= 320,
        ensures
            final(self).wf(),
            final(frame).wf(),
            *final(self) == *old(self),
            final(frame)@ == spec_sprite_dot(old(frame)@, old(self).mem@, line, dot),
    {
        let spr_row: u16 = (dot - 257) / 8;
        let spr_line: u16 = line / 8;
        let spr_number: usize = (spr_row as usize) * 4 + (spr_line as usize) * 4;
        let y = self.mem.spr_mem.oam[spr_number];
        let index = self.mem.spr_mem.oam[spr_number + 1];
        let attr = self.mem.spr_mem.oam[spr_number + 2];
        let x = self.mem.spr_mem.oam[spr_number + 3];
        let xoffset: u16 = (dot - 257) % 8;
        let yoffset: u16 = line % 8;
        let patternlow = self.mem.peek((index as usize) * 16 + (yoffset as usize)) << (xoffset
            as u8);
        let patternhi = self.mem.peek((index as usize) * 16 + (yoffset as usize) + 8) << (xoffset
            as u8);
        let low = (patternlow & 0x80) >> 7;
        let hi = (patternhi & 0x80) >> 6;
        let pixel = low | hi;
        proof {
            let a = attr;
            assert((a & 3) < 4) by (bit_vector);
            let pl = patternlow;
            let ph = patternhi;
            assert((((pl & 0x80) >> 7) | ((ph & 0x80) >> 6)) < 4) by (bit_vector);
        }
        let color = get_rgb(self.mem.palette.peek_color_sprite(attr & 3, pixel));
        frame.set_pixel_rgb((x as u32) + (xoffset as u32), (y as u32) + (yoffset as u32), color);
    }

    pub fn has_been_updated(&self) -> (r: bool)
        ensures
            r == self.updated,
    {
        self.updated
    }

    pub fn clear_updated(&mut self)
        ensures
            *final(self) == (Ppu { updated: false, ..*old(self) }),
    {
        self.updated = false;
    }

    pub fn force_update(&mut self)
        ensures
            *final(self) == (Ppu { updated: true, ..*old(self) }),
    {
        self.updated = true;
    }
}

/// Byte a CPU read of PPU register `i` returns.
pub open spec fn ppu_read_val(p: Ppu, i: u16) -> u8 {
    let reg = i & 7;
    if reg == 2 {
        p.register.spec_status_byte()
    } else if reg == 4 {
        p.mem@.oam[p.register.r_oam_addr as int]
    } else if reg == 7 {
        p.register.spec_read_data_val(p.mem@)
    } else {
        0u8
    }
}

/// Register file after a CPU read of PPU register `i`.
pub open spec fn ppu_read_reg(p: Ppu, i: u16) -> PpuRegister {
    let reg = i & 7;
    if reg == 2 {
        p.register.spec_read_status()
    } else if reg == 7 {
        p.register.spec_read_data_post(p.mem@)
    } else {
        p.register
    }
}

/// Register file after a CPU write of `v` to PPU register `i`.
pub open spec fn ppu_write_reg(p: Ppu, i: u16, v: u8) -> PpuRegister {
    let reg = i & 7;
    if reg == 0 {
        p.register.spec_set_ctrl_zero(v)
    } else if reg == 1 {
        PpuRegister { r_ctrl_one: v, ..p.register }
    } else if reg == 3 {
        PpuRegister { r_oam_addr: v, ..p.register }
    } else if reg == 4 {
        PpuRegister {
            r_oam_addr: vstd::wrapping::u8_specs::wrapping_add(p.register.r_oam_addr, 1),
            ..p.register
        }
    } else if reg == 5 {
        p.register.spec_set_scroll(v)
    } else if reg == 6 {
        p.register.spec_set_addr(v as u16)
    } else if reg == 7 {
        p.register.spec_write_data_post(p.mem@, v).0
    } else {
        p.register
    }
}

/// PPU memory after a CPU write of `v` to PPU register `i`.
pub open spec fn ppu_write_mem(p: Ppu, i: u16, v: u8) -> PpuMemV {
    let reg = i & 7;
    if reg == 4 {
        PpuMemV { oam: p.mem@.oam.update(p.register.r_oam_addr as int, v), ..p.mem@ }
    } else if reg == 7 {
        p.register.spec_write_data_post(p.mem@, v).1
    } else {
        p.mem@
    }
}

} // verus!
