//! Pixel-processing unit.
//!
//! The LCD controller steps one dot per clock cycle through a per-scanline
//! mode machine: OAM scan (mode 2), pixel draw (mode 3), horizontal blank
//! (mode 0) and, after the last visible line, vertical blank (mode 1).
//! Drawing runs a fetcher that fills an eight-pixel background/window FIFO,
//! merges scanned sprites into a second FIFO, and shifts colorized pixels
//! into the framebuffer.

use vstd::prelude::*;
use crate::pic::{Interrupt, Pic};
use crate::Color;

verus! {

/// Dots per scanline; the dot clock always stays below this.
pub const LINE_DOTS: u16 = 456;

/// Scanlines per frame, vertical blank included; `LY` always stays below
/// this.
pub const FRAME_LINES: u8 = 154;

/// First scanline of the vertical blank.
pub const VBLANK_LINE: u8 = 144;

/// Dots spent in OAM scan at the start of a visible line.
pub const SCAN_DOTS: u16 = 80;

/// One entry of the object attribute memory.
#[derive(Clone, Copy, Debug, PartialEq, Eq, Structural)]
pub struct Sprite {
    /// Screen y plus 16.
    pub y: u8,
    /// Screen x plus 8.
    pub x: u8,
    /// Tile index.
    pub tile: u8,
    /// Attribute bits: 7 priority, 6 y-flip, 5 x-flip, 4 palette.
    pub attr: u8,
}

impl Sprite {
    /// A sprite that never matches any pixel.
    pub fn blank() -> (r: Sprite)
        ensures
            r == (Sprite { y: 0, x: 0, tile: 0, attr: 0 }),
    {
        Sprite { y: 0, x: 0, tile: 0, attr: 0 }
    }
}

/// One pixel inside a FIFO: a two-bit colour index with the metadata that
/// colorizes it.
#[derive(Clone, Copy, Debug, PartialEq, Eq, Structural)]
pub struct Pixel {
    /// Two-bit colour index.
    pub col: u8,
    /// Palette register: 0 `BGP`, 1 `OBP0`, 2 `OBP1`.
    pub pal: u8,
    /// Background-over-object priority bit carried from the sprite.
    pub bgpri: bool,
}

impl Pixel {
    /// A transparent background pixel.
    pub fn clear() -> (r: Pixel)
        ensures
            r == (Pixel { col: 0, pal: 0, bgpri: false }),
    {
        Pixel { col: 0, pal: 0, bgpri: false }
    }
}

/// An eight-entry pixel queue; index 0 leaves first.
#[derive(Clone, Copy, Debug, PartialEq, Eq)]
pub struct Fifo {
    /// Queue storage; entries below `len` are valid.
    pub buf: [Pixel; 8],
    /// Number of queued pixels.
    pub len: u8,
}

impl Fifo {
    /// Queue length stays within the storage.
    pub open spec fn wf(self) -> bool {
        self.len <= 8
    }

    /// An empty queue.
    pub fn empty() -> (r: Fifo)
        ensures
            r.wf(),
            r.len == 0,
    {
        Fifo { buf: [Pixel::clear(); 8], len: 0 }
    }

    /// Removes and returns the front pixel.
    pub fn pop(&mut self) -> (r: Pixel)
        requires
            old(self).wf(),
            old(self).len > 0,
        ensures
            final(self).wf(),
            final(self).len == old(self).len - 1,
            r == old(self).buf[0],
            forall|i: int| 0 <= i < 7 ==> final(self).buf@[i] == old(self).buf@[i + 1],
            final(self).buf@[7] == old(self).buf@[7],
    {
        let out = self.buf[0];
        let mut i: usize = 0;
        while i < 7
            invariant
                i <= 7,
                0 < self.len <= 8,
                self.len == old(self).len,
                forall|j: int| 0 <= j < i ==> self.buf@[j] == old(self).buf@[j + 1],
                forall|j: int| i <= j < 8 ==> self.buf@[j] == old(self).buf@[j],
            decreases 7 - i,
        {
            self.buf[i] = self.buf[i + 1];
            i = i + 1;
        }
        self.len = self.len - 1;
        out
    }
}

/// Which tile map the fetcher is walking.
#[derive(Clone, Copy, Debug, PartialEq, Eq, Structural)]
pub enum Layer {
    /// The scrolled background.
    Bg,
    /// The window overlay.
    Win,
}

/// Fetcher progress, one state per dot: tile lookup, low byte, high byte,
/// then pushing eight pixels once the background FIFO is empty.
#[derive(Clone, Copy, Debug, PartialEq, Eq, Structural)]
pub enum Fetch {
    /// Look the tile index up in the tile map.
    GetTile,
    /// Read the low bitplane byte of the tile row.
    GetLo(u8),
    /// Read the high bitplane byte of the tile row.
    GetHi(u8, u8),
    /// Push the decoded row into the background FIFO when it drains.
    Push(u8, u8),
}

/// The pixel pipeline run during mode 3.
#[derive(Clone, Copy, Debug, PartialEq, Eq)]
pub struct Pipeline {
    /// Number of scrolled-out background pixels still to discard
    /// (`SCX % 8` at line start).
    pub discard: u8,
    /// Next screen column to draw.
    pub lx: u8,
    /// Source layer the fetcher reads.
    pub loc: Layer,
    /// Fetcher state.
    pub fetch: Fetch,
    /// Fetcher tile counter within the line.
    pub fx: u8,
    /// Background/window FIFO.
    pub bg: Fifo,
    /// Sprite FIFO.
    pub obj: Fifo,
}

impl Pipeline {
    /// FIFO bounds hold and the draw column never passes the screen edge.
    pub open spec fn wf(self) -> bool {
        self.bg.wf() && self.obj.wf() && self.lx <= 160
    }
}

/// Mode 2: OAM scan.
#[derive(Clone, Copy, Debug, PartialEq, Eq)]
pub struct Scan {
    /// Sprites intersecting the current line, in OAM order.
    pub objs: [Sprite; 10],
    /// Number of scanned sprites.
    pub count: u8,
    /// Next OAM entry to consider.
    pub idx: u8,
}

impl Scan {
    /// Counters stay within OAM and the sprite list.
    pub open spec fn wf(self) -> bool {
        self.count <= 10 && self.idx <= 40
    }

    /// A scan at the start of a line.
    pub fn begin() -> (r: Scan)
        ensures
            r.wf(),
            r.count == 0 && r.idx == 0,
    {
        Scan { objs: [Sprite::blank(); 10], count: 0, idx: 0 }
    }
}

/// Mode 3: draw pixels.
#[derive(Clone, Copy, Debug, PartialEq, Eq)]
pub struct Draw {
    /// Pixel pipeline.
    pub pipe: Pipeline,
    /// Scanned sprites for this line.
    pub objs: [Sprite; 10],
    /// Number of scanned sprites.
    pub count: u8,
    /// Sprites already fetched into the sprite FIFO.
    pub used: [bool; 10],
}

impl Draw {
    /// Pipeline bounds hold and the sprite count stays in range.
    pub open spec fn wf(self) -> bool {
        self.pipe.wf() && self.count <= 10
    }
}

/// Mode 0: horizontal blank.
#[derive(Clone, Copy, Debug, PartialEq, Eq, Structural)]
pub struct HBlank {}

/// Mode 1: vertical blank.
#[derive(Clone, Copy, Debug, PartialEq, Eq, Structural)]
pub struct VBlank {}

/// PPU mode, carrying the state the mode works on.
#[derive(Clone, Copy, Debug, PartialEq, Eq)]
pub enum Mode {
    HBlank(HBlank),
    VBlank(VBlank),
    Scan(Scan),
    Draw(Draw),
}

impl Mode {
    /// Mode-specific state is well-formed.
    pub open spec fn wf(self) -> bool {
        match self {
            Mode::HBlank(_) => true,
            Mode::VBlank(_) => true,
            Mode::Scan(s) => s.wf(),
            Mode::Draw(d) => d.wf(),
        }
    }

    /// The two-bit mode number `STAT` exposes.
    pub fn number(self) -> (r: u8)
        ensures
            r < 4,
            r == self.spec_number(),
    {
        match self {
            Mode::HBlank(_) => 0,
            Mode::VBlank(_) => 1,
            Mode::Scan(_) => 2,
            Mode::Draw(_) => 3,
        }
    }

    /// The two-bit mode number `STAT` exposes.
    pub open spec fn spec_number(self) -> u8 {
        match self {
            Mode::HBlank(_) => 0,
            Mode::VBlank(_) => 1,
            Mode::Scan(_) => 2,
            Mode::Draw(_) => 3,
        }
    }
}

/// LCD controller state.
#[derive(Clone, Debug)]
pub struct Ppu {
    /// LCD control (`0xff40`).
    pub lcdc: u8,
    /// LCD status (`0xff41`); the low three bits are refreshed while the
    /// PPU runs.
    pub stat: u8,
    /// Background scroll (`0xff42..0xff44`).
    pub scy: u8,
    pub scx: u8,
    /// Current scanline (`0xff44`); always below [`FRAME_LINES`].
    pub ly: u8,
    /// Scanline compare (`0xff45`).
    pub lyc: u8,
    /// Palettes (`0xff47..0xff4a`).
    pub bgp: u8,
    pub obp0: u8,
    pub obp1: u8,
    /// Window position (`0xff4a..0xff4c`).
    pub wy: u8,
    pub wx: u8,
    /// Video RAM (`0x8000..0xa000`).
    pub vram: Vec<u8>,
    /// Object attribute memory (`0xfe00..0xfea0`).
    pub oam: Vec<u8>,
    /// Dot clock within the scanline; always below [`LINE_DOTS`].
    pub dot: u16,
    /// Mode state machine.
    pub mode: Mode,
    /// Window internal line counter.
    pub winln: u8,
    /// Framebuffer of 160x144 two-bit shades.
    pub fbuf: Vec<u8>,
    /// A completed frame awaits redraw.
    pub frame: bool,
    /// Level of the LCD-status interrupt line last cycle, for edge
    /// detection.
    pub stat_line: bool,
}

impl Ppu {
    /// Memory sizes, dot and line bounds, and mode-state sanity; drawing
    /// only happens on visible lines.
    pub open spec fn wf(self) -> bool {
        &&& self.vram@.len() == 0x2000
        &&& self.oam@.len() == 0xa0
        &&& self.fbuf@.len() == 160 * 144
        &&& self.dot < LINE_DOTS
        &&& self.ly < FRAME_LINES
        &&& self.mode.wf()
        &&& (self.mode matches Mode::Draw(_) ==> self.ly < VBLANK_LINE)
        &&& (self.mode matches Mode::Scan(_) ==> self.ly < VBLANK_LINE)
        &&& (self.mode matches Mode::Scan(_) ==> self.dot < SCAN_DOTS)
    }

    /// The memory buffers have their fixed sizes.
    pub open spec fn wf_mem(self) -> bool {
        &&& self.vram@.len() == 0x2000
        &&& self.oam@.len() == 0xa0
        &&& self.fbuf@.len() == 160 * 144
    }

    /// A PPU in its post-reset state: cleared registers, cleared memories,
    /// first line starting in OAM scan.
    pub fn new() -> (r: Ppu)
        ensures
            r.wf(),
            r.lcdc == 0 && r.stat == 0 && r.scy == 0 && r.scx == 0,
            r.ly == 0 && r.lyc == 0 && r.bgp == 0 && r.obp0 == 0 && r.obp1 == 0,
            r.wy == 0 && r.wx == 0,
            r.dot == 0 && r.winln == 0 && !r.frame && !r.stat_line,
            r.vram@ == Seq::new(0x2000, |i: int| 0u8),
            r.oam@ == Seq::new(0xa0, |i: int| 0u8),
            r.fbuf@ == Seq::new((160 * 144) as nat, |i: int| 0u8),
            r.mode is Scan,
    {
        let p = Ppu {
            lcdc: 0,
            stat: 0,
            scy: 0,
            scx: 0,
            ly: 0,
            lyc: 0,
            bgp: 0,
            obp0: 0,
            obp1: 0,
            wy: 0,
            wx: 0,
            vram: vec![0u8; 0x2000],
            oam: vec![0u8; 0xa0],
            dot: 0,
            mode: Mode::Scan(Scan::begin()),
            winln: 0,
            fbuf: vec![0u8; 160 * 144],
            frame: false,
            stat_line: false,
        };
        proof {
            assert(p.vram@ =~= Seq::new(0x2000, |i: int| 0u8));
            assert(p.oam@ =~= Seq::new(0xa0, |i: int| 0u8));
            assert(p.fbuf@ =~= Seq::new((160 * 144) as nat, |i: int| 0u8));
        }
        p
    }

    /// The LCD (and so the PPU clock) is enabled: `LCDC` bit 7.
    pub fn enabled(&self) -> (r: bool)
        ensures
            r == ((self.lcdc / 128) % 2 == 1),
    {
        (self.lcdc / 128) % 2 == 1
    }

    /// Colours a pixel through the palette register its metadata selects:
    /// the two-bit colour index picks a two-bit shade out of the palette
    /// byte.
    pub fn color(&self, pixel: &Pixel) -> (r: Color)
        ensures
            r == spec_color(*self, *pixel),
    {
        let pal: u8 = match pixel.pal {
            0 => self.bgp,
            1 => self.obp0,
            _ => self.obp1,
        };
        let shade: u8 = match pixel.col % 4 {
            0 => pal % 4,
            1 => (pal / 4) % 4,
            2 => (pal / 16) % 4,
            _ => (pal / 64) % 4,
        };
        Color::from_bits(shade)
    }
}

/// The control state a mode step never touches: every LCD register but
/// the scanline counter, and the status interrupt line level.
pub open spec fn spec_ctrl_unchanged(a: Ppu, b: Ppu) -> bool {
    &&& b.lcdc == a.lcdc
    &&& b.stat == a.stat
    &&& b.scy == a.scy
    &&& b.scx == a.scx
    &&& b.lyc == a.lyc
    &&& b.bgp == a.bgp
    &&& b.obp0 == a.obp0
    &&& b.obp1 == a.obp1
    &&& b.wy == a.wy
    &&& b.wx == a.wx
    &&& b.stat_line == a.stat_line
}

/// The shade a pixel colorizes to: palette byte selected by the pixel's
/// metadata, two-bit entry selected by its colour index.
pub open spec fn spec_color(p: Ppu, pixel: Pixel) -> Color {
    let pal: u8 = if pixel.pal == 0 {
        p.bgp
    } else if pixel.pal == 1 {
        p.obp0
    } else {
        p.obp1
    };
    let shade: u8 = if pixel.col % 4 == 0 {
        pal % 4
    } else if pixel.col % 4 == 1 {
        (pal / 4) % 4
    } else if pixel.col % 4 == 2 {
        (pal / 16) % 4
    } else {
        (pal / 64) % 4
    };
    Color::spec_from_bits(shade)
}

impl HBlank {
    /// One horizontal-blank dot: idle until the 456th dot of the line,
    /// then start the next line — OAM scan while lines remain, otherwise
    /// enter vertical blank, request the VBlank interrupt and publish the
    /// frame.
    pub fn exec(self, ppu: &mut Ppu, pic: &mut Pic) -> (m: Mode)
        requires
            old(ppu).wf(),
        ensures
            final(ppu).wf_mem(),
            m.wf(),
            final(ppu).dot < LINE_DOTS,
            final(ppu).ly < FRAME_LINES,
            m is Scan ==> final(ppu).dot < SCAN_DOTS && final(ppu).ly < VBLANK_LINE,
            m is Draw ==> final(ppu).ly < VBLANK_LINE,
            final(ppu).vram@ == old(ppu).vram@,
            final(ppu).oam@ == old(ppu).oam@,
            final(ppu).fbuf@ == old(ppu).fbuf@,
            final(pic).enable == old(pic).enable,
            spec_ctrl_unchanged(*old(ppu), *final(ppu)),
            old(ppu).dot < LINE_DOTS - 1 ==> {
                &&& final(ppu).dot == old(ppu).dot + 1
                &&& final(ppu).ly == old(ppu).ly
                &&& final(ppu).winln == old(ppu).winln
                &&& final(ppu).frame == old(ppu).frame
                &&& m == Mode::HBlank(self)
                &&& final(pic).active == old(pic).active
            },
            old(ppu).dot == LINE_DOTS - 1 ==> {
                &&& final(ppu).dot == 0
                &&& final(ppu).ly == if old(ppu).ly + 1 < FRAME_LINES {
                    old(ppu).ly + 1
                } else {
                    0
                }
                &&& (final(ppu).ly < VBLANK_LINE ==> {
                    &&& m matches Mode::Scan(sc) && sc.count == 0 && sc.idx == 0
                    &&& final(pic).active == old(pic).active
                    &&& final(ppu).winln == old(ppu).winln
                    &&& final(ppu).frame == old(ppu).frame
                })
                &&& (final(ppu).ly >= VBLANK_LINE ==> {
                    &&& m == Mode::VBlank(VBlank {  })
                    &&& final(ppu).frame
                    &&& final(ppu).winln == 0
                    &&& final(pic).active == crate::pic::spec_set_bit(
                        old(pic).active,
                        Interrupt::VBlank.spec_mask(),
                    )
                })
            },
    {
        if self.dots_left(ppu) {
            ppu.dot = ppu.dot + 1;
            Mode::HBlank(self)
        } else {
            ppu.dot = 0;
            let ly = if ppu.ly + 1 < FRAME_LINES {
                ppu.ly + 1
            } else {
                0
            };
            ppu.ly = ly;
            if ly < VBLANK_LINE {
                Mode::Scan(Scan::begin())
            } else {
                ppu.winln = 0;
                ppu.frame = true;
                pic.req(Interrupt::VBlank);
                Mode::VBlank(VBlank {})
            }
        }
    }

    /// The line still has dots to idle through.
    fn dots_left(self, ppu: &Ppu) -> (r: bool)
        requires
            ppu.wf(),
        ensures
            r == (ppu.dot < LINE_DOTS - 1),
    {
        ppu.dot < LINE_DOTS - 1
    }
}

impl VBlank {
    /// One vertical-blank dot: spin through ten blank lines, then wrap to
    /// line zero and begin the next frame's OAM scan.
    pub fn exec(self, ppu: &mut Ppu) -> (m: Mode)
        requires
            old(ppu).wf(),
        ensures
            final(ppu).wf_mem(),
            m.wf(),
            final(ppu).dot < LINE_DOTS,
            final(ppu).ly < FRAME_LINES,
            m is Scan ==> final(ppu).dot < SCAN_DOTS && final(ppu).ly < VBLANK_LINE,
            m is Draw ==> final(ppu).ly < VBLANK_LINE,
            final(ppu).vram@ == old(ppu).vram@,
            final(ppu).oam@ == old(ppu).oam@,
            final(ppu).fbuf@ == old(ppu).fbuf@,
            spec_ctrl_unchanged(*old(ppu), *final(ppu)),
            final(ppu).frame == old(ppu).frame,
            old(ppu).dot < LINE_DOTS - 1 ==> {
                &&& final(ppu).dot == old(ppu).dot + 1
                &&& final(ppu).ly == old(ppu).ly
                &&& final(ppu).winln == old(ppu).winln
                &&& m == Mode::VBlank(self)
            },
            old(ppu).dot == LINE_DOTS - 1 ==> {
                &&& final(ppu).dot == 0
                &&& (old(ppu).ly + 1 < FRAME_LINES ==> final(ppu).ly == old(ppu).ly + 1 && m
                    == Mode::VBlank(self) && final(ppu).winln == old(ppu).winln)
                &&& (old(ppu).ly + 1 >= FRAME_LINES ==> final(ppu).ly == 0
                    && final(ppu).winln == 0 && (m matches Mode::Scan(sc) && sc.count == 0
                    && sc.idx == 0))
            },
    {
        if ppu.dot < LINE_DOTS - 1 {
            ppu.dot = ppu.dot + 1;
            Mode::VBlank(self)
        } else {
            ppu.dot = 0;
            if ppu.ly + 1 < FRAME_LINES {
                ppu.ly = ppu.ly + 1;
                Mode::VBlank(self)
            } else {
                ppu.ly = 0;
                ppu.winln = 0;
                Mode::Scan(Scan::begin())
            }
        }
    }
}

/// The OAM entry at index `i`, as a sprite.
pub open spec fn spec_sprite_at(p: Ppu, i: int) -> Sprite {
    Sprite {
        y: p.oam@[4 * i],
        x: p.oam@[4 * i + 1],
        tile: p.oam@[4 * i + 2],
        attr: p.oam@[4 * i + 3],
    }
}

/// OAM entry `i` intersects the current scanline, for the sprite height
/// `LCDC` bit 2 selects.
pub open spec fn spec_sprite_hit(p: Ppu, i: int) -> bool {
    let y = p.oam@[4 * i];
    let height: int = if (p.lcdc / 4) % 2 == 1 {
        16
    } else {
        8
    };
    y <= p.ly + 16 < y + height
}

impl Scan {
    /// One OAM-scan dot: every second dot considers one OAM entry, keeping
    /// at most ten sprites that intersect the current line; after the 80th
    /// dot, drawing begins with the scroll discard latched.
    pub fn exec(self, ppu: &mut Ppu) -> (m: Mode)
        requires
            old(ppu).wf(),
            old(ppu).mode == Mode::Scan(self),
        ensures
            final(ppu).wf_mem(),
            m.wf(),
            final(ppu).dot < LINE_DOTS,
            final(ppu).ly < FRAME_LINES,
            m is Scan ==> final(ppu).dot < SCAN_DOTS && final(ppu).ly < VBLANK_LINE,
            m is Draw ==> final(ppu).ly < VBLANK_LINE,
            final(ppu).vram@ == old(ppu).vram@,
            final(ppu).oam@ == old(ppu).oam@,
            final(ppu).fbuf@ == old(ppu).fbuf@,
            final(ppu).ly == old(ppu).ly,
            final(ppu).winln == old(ppu).winln,
            final(ppu).frame == old(ppu).frame,
            spec_ctrl_unchanged(*old(ppu), *final(ppu)),
            old(ppu).dot < SCAN_DOTS - 1 ==> final(ppu).dot == old(ppu).dot + 1 && m is Scan,
            old(ppu).dot >= SCAN_DOTS - 1 ==> final(ppu).dot == old(ppu).dot + 1 && m is Draw,
            ({
                let consider = old(ppu).dot % 2 == 0 && self.idx < 40;
                let hit = consider && self.count < 10 && spec_sprite_hit(
                    *old(ppu),
                    self.idx as int,
                );
                let nidx: int = if consider {
                    self.idx + 1
                } else {
                    self.idx as int
                };
                let ncount: int = if hit {
                    self.count + 1
                } else {
                    self.count as int
                };
                let nobjs = if hit {
                    self.objs@.update(self.count as int, spec_sprite_at(*old(ppu), self.idx as int))
                } else {
                    self.objs@
                };
                &&& (m matches Mode::Scan(next) ==> next.idx == nidx && next.count == ncount
                    && next.objs@ == nobjs)
                &&& (m matches Mode::Draw(d) ==> d.count == ncount && d.objs@ == nobjs
                    && d.pipe.discard == old(ppu).scx % 8 && d.pipe.lx == 0 && d.pipe.bg.len
                    == 0 && d.pipe.obj.len == 0 && d.pipe.loc is Bg)
            }),
    {
        let mut next = self;
        if ppu.dot % 2 == 0 && next.idx < 40 && next.count < 10 {
            let base: usize = 4 * (next.idx as usize);
            let y = ppu.oam[base];
            let height: u16 = if (ppu.lcdc / 4) % 2 == 1 {
                16
            } else {
                8
            };
            let line: u16 = ppu.ly as u16 + 16;
            if y as u16 <= line && line < y as u16 + height {
                let s = Sprite {
                    y,
                    x: ppu.oam[base + 1],
                    tile: ppu.oam[base + 2],
                    attr: ppu.oam[base + 3],
                };
                next.objs[next.count as usize] = s;
                next.count = next.count + 1;
            }
            next.idx = next.idx + 1;
        } else if ppu.dot % 2 == 0 && next.idx < 40 {
            next.idx = next.idx + 1;
        }
        if ppu.dot < SCAN_DOTS - 1 {
            ppu.dot = ppu.dot + 1;
            Mode::Scan(next)
        } else {
            ppu.dot = ppu.dot + 1;
            let pipe = Pipeline {
                discard: ppu.scx % 8,
                lx: 0,
                loc: Layer::Bg,
                fetch: Fetch::GetTile,
                fx: 0,
                bg: Fifo::empty(),
                obj: Fifo::empty(),
            };
            Mode::Draw(
                Draw { pipe, objs: next.objs, count: next.count, used: [false; 10] },
            )
        }
    }
}

/// The window takes over this dot: the fetcher is on the background, the
/// window is enabled, and the current position has reached it.
pub open spec fn spec_win_trigger(p: Ppu, d: Draw) -> bool {
    d.pipe.loc is Bg && (p.lcdc / 32) % 2 == 1 && p.wy <= p.ly && d.pipe.lx + 7 >= p.wx
}

/// The pipeline after the window check: on a trigger the fetcher restarts
/// on the window layer with the background queue drained.
pub open spec fn spec_pipe_windowed(p: Ppu, d: Draw) -> Pipeline {
    if spec_win_trigger(p, d) {
        Pipeline {
            loc: Layer::Win,
            fetch: Fetch::GetTile,
            fx: 0,
            bg: Fifo { buf: d.pipe.bg.buf, len: 0 },
            ..d.pipe
        }
    } else {
        d.pipe
    }
}

/// Front of the sprite queue (and whether it holds pixels) after every
/// sprite triggering at the current column has merged, walking the
/// scanned list from entry `i` with the queue front so far.
pub open spec fn spec_obj_front(p: Ppu, d: Draw, i: int, front: Pixel, has: bool) -> (
    Pixel,
    bool,
)
    decreases 10 - i,
{
    if i >= d.count || i >= 10 || i < 0 {
        (front, has)
    } else {
        let s = d.objs@[i];
        let trig = (p.lcdc / 2) % 2 == 1 && !d.used@[i] && s.x == d.pipe.lx + 8;
        if trig && spec_sprite_covers(p, s) {
            let sp = spec_sprite_pixel(p, s, 0);
            let nf = if has && !(front.col % 4 == 0 && sp.col % 4 != 0) {
                front
            } else {
                sp
            };
            spec_obj_front(p, d, i + 1, nf, true)
        } else {
            spec_obj_front(p, d, i + 1, front, has)
        }
    }
}

/// With sprites disabled no entry triggers: the walk leaves the queue
/// front alone.
pub proof fn lemma_obj_front_disabled(p: Ppu, d: Draw, i: int, front: Pixel, has: bool)
    requires
        (p.lcdc / 2) % 2 != 1,
    ensures
        spec_obj_front(p, d, i, front, has) == (front, has),
    decreases 10 - i,
{
    if !(i >= d.count || i >= 10 || i < 0) {
        lemma_obj_front_disabled(p, d, i + 1, front, has);
    }
}

/// Front of the background queue (and whether a pixel can shift) after
/// the fetcher's dot: a push into a drained queue makes its first decoded
/// pixel available at once.
pub open spec fn spec_bg_after_fetch(p: Ppu, pipe: Pipeline) -> (Pixel, bool) {
    match pipe.fetch {
        Fetch::Push(lo, hi) => if pipe.bg.len == 0 {
            (Pixel { col: spec_row_pixel(lo, hi, 0), pal: 0, bgpri: false }, true)
        } else {
            (pipe.bg.buf@[0], pipe.bg.len > 0)
        },
        _ => (pipe.bg.buf@[0], pipe.bg.len > 0),
    }
}

impl Draw {
    /// One draw dot: switch the fetcher to the window when its conditions
    /// are met, merge a sprite that triggers at the current column, step
    /// the fetcher, and shift one colorized pixel into the framebuffer;
    /// after the 160th pixel the line enters horizontal blank, bumping the
    /// window line counter if the window was drawn.
    pub fn exec(self, ppu: &mut Ppu, pic: &mut Pic) -> (m: Mode)
        requires
            old(ppu).wf(),
            old(ppu).mode == Mode::Draw(self),
        ensures
            final(ppu).wf_mem(),
            m.wf(),
            final(ppu).dot < LINE_DOTS,
            final(ppu).ly < FRAME_LINES,
            m is Scan ==> final(ppu).dot < SCAN_DOTS && final(ppu).ly < VBLANK_LINE,
            m is Draw ==> final(ppu).ly < VBLANK_LINE,
            final(ppu).vram@ == old(ppu).vram@,
            final(ppu).oam@ == old(ppu).oam@,
            final(ppu).ly == old(ppu).ly,
            final(ppu).fbuf@.len() == old(ppu).fbuf@.len(),
            final(pic).enable == old(pic).enable,
            final(pic).active == old(pic).active,
            m is Draw || m is HBlank,
            final(ppu).dot == if old(ppu).dot < LINE_DOTS - 1 {
                (old(ppu).dot + 1) as u16
            } else {
                old(ppu).dot
            },
            final(ppu).frame == old(ppu).frame,
            spec_ctrl_unchanged(*old(ppu), *final(ppu)),
            ({
                let pw = spec_pipe_windowed(*old(ppu), self);
                let bgf = spec_bg_after_fetch(*old(ppu), pw);
                let obf = spec_obj_front(
                    *old(ppu),
                    self,
                    0,
                    if self.pipe.obj.len > 0 {
                        self.pipe.obj.buf@[0]
                    } else {
                        Pixel { col: 0, pal: 0, bgpri: false }
                    },
                    self.pipe.obj.len > 0,
                );
                let shift = bgf.1 && self.pipe.lx < 160;
                let drawn = shift && pw.discard == 0;
                let chosen = spec_mix(
                    old(ppu).lcdc,
                    bgf.0,
                    if obf.1 {
                        obf.0
                    } else {
                        Pixel { col: 0, pal: 0, bgpri: false }
                    },
                );
                let lx2: int = if drawn {
                    self.pipe.lx + 1
                } else {
                    self.pipe.lx as int
                };
                &&& (drawn ==> final(ppu).fbuf@ == old(ppu).fbuf@.update(
                    old(ppu).ly * 160 + self.pipe.lx,
                    spec_color(*old(ppu), chosen).spec_index(),
                ))
                &&& (!drawn ==> final(ppu).fbuf@ == old(ppu).fbuf@)
                &&& (m is HBlank <==> lx2 >= 160)
                &&& (m matches Mode::Draw(d2) ==> d2.pipe.lx == lx2 && d2.pipe.loc == pw.loc
                    && d2.pipe.discard == (if shift && pw.discard > 0 {
                    (pw.discard - 1) as u8
                } else {
                    pw.discard
                }))
                &&& (m is Draw ==> final(ppu).winln == old(ppu).winln)
                &&& (m is HBlank ==> final(ppu).winln == (if pw.loc is Win {
                    if old(ppu).winln < 255 {
                        (old(ppu).winln + 1) as u8
                    } else {
                        old(ppu).winln
                    }
                } else {
                    old(ppu).winln
                }))
            }),
    {
        let mut this = self;
        // Window transition: switch the fetcher source and restart the
        // background FIFO.
        if matches!(this.pipe.loc, Layer::Bg) && (ppu.lcdc / 32) % 2 == 1 && ppu.wy <= ppu.ly
            && this.pipe.lx + 7 >= ppu.wx {
            this.pipe.loc = Layer::Win;
            this.pipe.fetch = Fetch::GetTile;
            this.pipe.fx = 0;
            this.pipe.bg.len = 0;
        }
        // Sprite trigger: fetch and merge a scanned sprite whose left edge
        // reaches the current column.
        if (ppu.lcdc / 2) % 2 == 1 {
            let mut i: usize = 0;
            let count: usize = if this.count <= 10 {
                this.count as usize
            } else {
                10
            };
            while i < count
                invariant
                    count == self.count,
                    count <= 10,
                    i <= count,
                    (ppu.lcdc / 2) % 2 == 1,
                    this.pipe.wf(),
                    this.count == self.count,
                    this.objs == self.objs,
                    this.pipe.lx == self.pipe.lx,
                    this.pipe.bg == spec_pipe_windowed(*old(ppu), self).bg,
                    this.pipe.fetch == spec_pipe_windowed(*old(ppu), self).fetch,
                    this.pipe.loc == spec_pipe_windowed(*old(ppu), self).loc,
                    this.pipe.fx == spec_pipe_windowed(*old(ppu), self).fx,
                    this.pipe.discard == self.pipe.discard,
                    forall|j: int| i <= j < 10 ==> this.used@[j] == self.used@[j],
                    ppu.wf(),
                    ppu == old(ppu),
                    spec_obj_front(
                        *old(ppu),
                        self,
                        i as int,
                        if this.pipe.obj.len > 0 {
                            this.pipe.obj.buf@[0]
                        } else {
                            Pixel { col: 0, pal: 0, bgpri: false }
                        },
                        this.pipe.obj.len > 0,
                    ) == spec_obj_front(
                        *old(ppu),
                        self,
                        0,
                        if self.pipe.obj.len > 0 {
                            self.pipe.obj.buf@[0]
                        } else {
                            Pixel { col: 0, pal: 0, bgpri: false }
                        },
                        self.pipe.obj.len > 0,
                    ),
                decreases count - i,
            {
                if !this.used[i] && this.objs[i].x == this.pipe.lx + 8 {
                    this.used[i] = true;
                    let merged = merge_sprite(ppu, this.objs[i], this.pipe.obj);
                    this.pipe.obj = merged;
                }
                i = i + 1;
            }
        } else {
            proof {
                lemma_obj_front_disabled(
                    *old(ppu),
                    self,
                    0,
                    if this.pipe.obj.len > 0 {
                        this.pipe.obj.buf@[0]
                    } else {
                        Pixel { col: 0, pal: 0, bgpri: false }
                    },
                    this.pipe.obj.len > 0,
                );
            }
        }
        // Fetcher step.
        this.pipe = fetch_step(ppu, this.pipe);
        // Pixel shift.
        if this.pipe.bg.len > 0 && this.pipe.lx < 160 {
            let bg_pix = this.pipe.bg.pop();
            if this.pipe.discard > 0 {
                this.pipe.discard = this.pipe.discard - 1;
            } else {
                let obj_pix = if this.pipe.obj.len > 0 {
                    this.pipe.obj.pop()
                } else {
                    Pixel::clear()
                };
                let chosen = mix(ppu.lcdc, bg_pix, obj_pix);
                let shade = ppu.color(&chosen);
                let idx: usize = (ppu.ly as usize) * 160 + (this.pipe.lx as usize);
                ppu.fbuf[idx] = shade.index();
                this.pipe.lx = this.pipe.lx + 1;
            }
        }
        ppu.dot = if ppu.dot < LINE_DOTS - 1 {
            ppu.dot + 1
        } else {
            ppu.dot
        };
        if this.pipe.lx < 160 {
            Mode::Draw(this)
        } else {
            if matches!(this.pipe.loc, Layer::Win) {
                if ppu.winln < 255 {
                    ppu.winln = ppu.winln + 1;
                }
            }
            Mode::HBlank(HBlank {})
        }
    }
}

/// The pixel that wins at one screen position: the sprite pixel when
/// sprites are enabled, it is not transparent, and its background-over
/// priority bit does not defer to a visible background pixel; otherwise
/// the background pixel, blanked entirely when the background is
/// disabled.
pub open spec fn spec_mix(lcdc: u8, bg: Pixel, obj: Pixel) -> Pixel {
    let bg_col: u8 = if lcdc % 2 == 1 {
        bg.col
    } else {
        0
    };
    if (lcdc / 2) % 2 == 1 && obj.col % 4 != 0 && !(obj.bgpri && bg_col % 4 != 0) {
        obj
    } else {
        Pixel { col: bg_col, pal: 0, bgpri: false }
    }
}

/// The pixel that wins at one screen position.
pub fn mix(lcdc: u8, bg: Pixel, obj: Pixel) -> (r: Pixel)
    ensures
        r == spec_mix(lcdc, bg, obj),
{
    let bg_col: u8 = if lcdc % 2 == 1 {
        bg.col
    } else {
        0
    };
    if (lcdc / 2) % 2 == 1 && obj.col % 4 != 0 && !(obj.bgpri && bg_col % 4 != 0) {
        obj
    } else {
        Pixel { col: bg_col, pal: 0, bgpri: false }
    }
}

/// Reads a VRAM byte by VRAM offset.
fn vram_at(ppu: &Ppu, off: u16) -> (r: u8)
    requires
        ppu.wf(),
        off < 0x2000,
    ensures
        r == ppu.vram@[off as int],
{
    ppu.vram[off as usize]
}

/// The bit weight of pixel `i` within a tile row byte: pixel 0 sits in
/// bit 7.
pub open spec fn spec_pixel_weight(i: u8) -> u8 {
    if i == 0 {
        128u8
    } else if i == 1 {
        64u8
    } else if i == 2 {
        32u8
    } else if i == 3 {
        16u8
    } else if i == 4 {
        8u8
    } else if i == 5 {
        4u8
    } else if i == 6 {
        2u8
    } else {
        1u8
    }
}

/// The two-bit colour index of pixel `i` of a tile row: its bit of the
/// low bitplane plus twice its bit of the high bitplane.
pub open spec fn spec_row_pixel(lo: u8, hi: u8, i: u8) -> u8 {
    let w = spec_pixel_weight(i);
    (((lo / w) % 2) + 2 * ((hi / w) % 2)) as u8
}

/// Decodes pixel `i` (0 = leftmost) of a tile row from its two bitplane
/// bytes.
fn row_pixel(lo: u8, hi: u8, i: u8) -> (r: u8)
    requires
        i < 8,
    ensures
        r == spec_row_pixel(lo, hi, i),
        r < 4,
{
    let shift: u8 = match 7 - i {
        0 => 1,
        1 => 2,
        2 => 4,
        3 => 8,
        4 => 16,
        5 => 32,
        6 => 64,
        _ => 128,
    };
    ((lo / shift) % 2) + 2 * ((hi / shift) % 2)
}

/// The tile index the fetcher reads for its current tile: the scrolled
/// background coordinates, or the window's own, in the tile map `LCDC`
/// selects for the layer.
pub open spec fn spec_tile_id(p: Ppu, loc: Layer, fx: u8) -> u8 {
    let tx: int = if loc is Bg {
        (p.scx / 8 + fx) % 32
    } else {
        (fx % 32) as int
    };
    let ty: int = if loc is Bg {
        ((p.ly + p.scy) % 256) / 8
    } else {
        (p.winln / 8) as int
    };
    let map: int = if loc is Bg {
        if (p.lcdc / 8) % 2 == 1 {
            0x1c00
        } else {
            0x1800
        }
    } else {
        if (p.lcdc / 64) % 2 == 1 {
            0x1c00
        } else {
            0x1800
        }
    };
    p.vram@[map + (ty % 32) * 32 + tx]
}

/// VRAM offset of the current row's low bitplane byte for tile `id`,
/// honouring the `LCDC` addressing-mode bit.
pub open spec fn spec_tile_row_off(p: Ppu, loc: Layer, id: u8) -> int {
    let row: int = if loc is Bg {
        (p.ly + p.scy) % 8
    } else {
        (p.winln % 8) as int
    };
    let base: int = if (p.lcdc / 16) % 2 == 1 {
        id * 16
    } else {
        if id < 128 {
            0x1000 + id * 16
        } else {
            id * 16
        }
    };
    base + row * 2
}

/// One fetcher state per dot: tile lookup, low byte, high byte, push.
fn fetch_step(ppu: &Ppu, pipe: Pipeline) -> (r: Pipeline)
    requires
        ppu.wf(),
        pipe.wf(),
    ensures
        r.wf(),
        r.lx == pipe.lx,
        r.discard == pipe.discard,
        r.obj == pipe.obj,
        r.loc == pipe.loc,
        pipe.fetch is GetTile ==> r == (Pipeline {
            fetch: Fetch::GetLo(spec_tile_id(*ppu, pipe.loc, pipe.fx)),
            ..pipe
        }),
        pipe.fetch matches Fetch::GetLo(id) ==> r == (Pipeline {
            fetch: Fetch::GetHi(id, ppu.vram@[spec_tile_row_off(*ppu, pipe.loc, id)]),
            ..pipe
        }),
        pipe.fetch matches Fetch::GetHi(id, lo) ==> r == (Pipeline {
            fetch: Fetch::Push(lo, ppu.vram@[spec_tile_row_off(*ppu, pipe.loc, id) + 1]),
            ..pipe
        }),
        pipe.fetch matches Fetch::Push(lo, hi) ==> if pipe.bg.len == 0 {
            &&& r.fetch is GetTile
            &&& r.bg.len == 8
            &&& forall|i: u8|
                i < 8 ==> r.bg.buf@[i as int] == (Pixel {
                    col: spec_row_pixel(lo, hi, i),
                    pal: 0,
                    bgpri: false,
                })
            &&& r.fx == if pipe.fx < 255 {
                (pipe.fx + 1) as u8
            } else {
                0u8
            }
        } else {
            r == pipe
        },
{
    let mut next = pipe;
    match pipe.fetch {
        Fetch::GetTile => {
            let (tx, ty): (u16, u16) = match pipe.loc {
                Layer::Bg => (
                    ((ppu.scx as u16 / 8) + pipe.fx as u16) % 32,
                    (((ppu.ly as u16 + ppu.scy as u16) % 256) / 8),
                ),
                Layer::Win => ((pipe.fx as u16) % 32, (ppu.winln as u16) / 8),
            };
            let map: u16 = match pipe.loc {
                Layer::Bg => if (ppu.lcdc / 8) % 2 == 1 {
                    0x1c00
                } else {
                    0x1800
                },
                Layer::Win => if (ppu.lcdc / 64) % 2 == 1 {
                    0x1c00
                } else {
                    0x1800
                },
            };
            let id = vram_at(ppu, map + (ty % 32) * 32 + tx);
            next.fetch = Fetch::GetLo(id);
        },
        Fetch::GetLo(id) => {
            let off = tile_row_off(ppu, pipe.loc, id);
            let lo = vram_at(ppu, off);
            next.fetch = Fetch::GetHi(id, lo);
        },
        Fetch::GetHi(id, lo) => {
            let off = tile_row_off(ppu, pipe.loc, id);
            let hi = vram_at(ppu, off + 1);
            next.fetch = Fetch::Push(lo, hi);
        },
        Fetch::Push(lo, hi) => {
            if pipe.bg.len == 0 {
                let mut buf = [Pixel::clear(); 8];
                let mut i: u8 = 0;
                while i < 8
                    invariant
                        i <= 8,
                        forall|j: u8|
                            j < i ==> buf@[j as int] == (Pixel {
                                col: spec_row_pixel(lo, hi, j),
                                pal: 0,
                                bgpri: false,
                            }),
                    decreases 8 - i,
                {
                    buf[i as usize] = Pixel { col: row_pixel(lo, hi, i), pal: 0, bgpri: false };
                    i = i + 1;
                }
                next.bg = Fifo { buf, len: 8 };
                next.fx = if next.fx < 255 {
                    next.fx + 1
                } else {
                    0
                };
                next.fetch = Fetch::GetTile;
            }
        },
    }
    next
}

/// VRAM offset of the current row's low bitplane byte for background or
/// window tile `id`, honouring the `LCDC` addressing-mode bit.
fn tile_row_off(ppu: &Ppu, loc: Layer, id: u8) -> (r: u16)
    ensures
        r == spec_tile_row_off(*ppu, loc, id),
        r < 0x1fff,
{
    let row: u16 = match loc {
        Layer::Bg => (ppu.ly as u16 + ppu.scy as u16) % 8,
        Layer::Win => (ppu.winln as u16) % 8,
    };
    let base: u16 = if (ppu.lcdc / 16) % 2 == 1 {
        (id as u16) * 16
    } else {
        if id < 128 {
            0x1000 + (id as u16) * 16
        } else {
            (id as u16) * 16
        }
    };
    base + row * 2
}

/// The visible register file of the PPU, as one spec value.
pub struct Regs {
    pub lcdc: u8,
    pub stat: u8,
    pub scy: u8,
    pub scx: u8,
    pub ly: u8,
    pub lyc: u8,
    pub bgp: u8,
    pub obp0: u8,
    pub obp1: u8,
    pub wy: u8,
    pub wx: u8,
}

/// The register file of a PPU.
pub open spec fn spec_regs(p: Ppu) -> Regs {
    Regs {
        lcdc: p.lcdc,
        stat: p.stat,
        scy: p.scy,
        scx: p.scx,
        ly: p.ly,
        lyc: p.lyc,
        bgp: p.bgp,
        obp0: p.obp0,
        obp1: p.obp1,
        wy: p.wy,
        wx: p.wx,
    }
}

/// The byte a read of LCD register `off` (its low bus offset within
/// `0xff40..0xff4c`, the DMA register excluded) returns.
pub open spec fn spec_reg_read(r: Regs, off: int) -> u8 {
    if off == 0 {
        r.lcdc
    } else if off == 1 {
        r.stat
    } else if off == 2 {
        r.scy
    } else if off == 3 {
        r.scx
    } else if off == 4 {
        r.ly
    } else if off == 5 {
        r.lyc
    } else if off == 7 {
        r.bgp
    } else if off == 8 {
        r.obp0
    } else if off == 9 {
        r.obp1
    } else if off == 10 {
        r.wy
    } else {
        r.wx
    }
}

/// The register file after a write of `v` to LCD register `off`. A scanline
/// value of 144 or more is refused for `LY`, which only ever holds visible
/// or blanking lines.
pub open spec fn spec_reg_write(r: Regs, off: int, v: u8) -> Regs {
    if off == 0 {
        if (v / 128) % 2 == 0 {
            Regs { lcdc: v, ly: 0, ..r }
        } else {
            Regs { lcdc: v, ..r }
        }
    } else if off == 1 {
        Regs { stat: v, ..r }
    } else if off == 2 {
        Regs { scy: v, ..r }
    } else if off == 3 {
        Regs { scx: v, ..r }
    } else if off == 4 {
        if v < VBLANK_LINE {
            Regs { ly: v, ..r }
        } else {
            r
        }
    } else if off == 5 {
        Regs { lyc: v, ..r }
    } else if off == 7 {
        Regs { bgp: v, ..r }
    } else if off == 8 {
        Regs { obp0: v, ..r }
    } else if off == 9 {
        Regs { obp1: v, ..r }
    } else if off == 10 {
        Regs { wy: v, ..r }
    } else {
        Regs { wx: v, ..r }
    }
}

/// The interrupt requests a mode step itself raises: entering the
/// vertical blank requests the VBlank source.
pub open spec fn spec_mode_irq(p: Ppu, a: u8) -> u8 {
    if p.mode is HBlank && p.dot == LINE_DOTS - 1 && p.ly + 1 < FRAME_LINES && p.ly + 1
        >= VBLANK_LINE {
        crate::pic::spec_set_bit(a, 1)
    } else {
        a
    }
}

/// Level of the LCD-status interrupt line: the OR of the `STAT`-enabled
/// sources.
pub open spec fn spec_stat_level(stat: u8, mode: Mode, coinc: bool) -> bool {
    ||| ((stat / 8) % 2 == 1 && mode is HBlank)
    ||| ((stat / 16) % 2 == 1 && mode is VBlank)
    ||| ((stat / 32) % 2 == 1 && mode is Scan)
    ||| ((stat / 64) % 2 == 1 && coinc)
}

impl Ppu {
    /// Reads LCD register `off` (low bus offset, DMA excluded).
    pub fn read_reg(&self, off: u16) -> (r: u8)
        requires
            off < 12,
            off != 6,
        ensures
            r == spec_reg_read(spec_regs(*self), off as int),
    {
        match off {
            0 => self.lcdc,
            1 => self.stat,
            2 => self.scy,
            3 => self.scx,
            4 => self.ly,
            5 => self.lyc,
            7 => self.bgp,
            8 => self.obp0,
            9 => self.obp1,
            10 => self.wy,
            _ => self.wx,
        }
    }

    /// Writes LCD register `off` (low bus offset, DMA excluded).
    /// Disabling the LCD resets the scanline, the dot clock and the mode.
    pub fn write_reg(&mut self, off: u16, v: u8)
        requires
            old(self).wf(),
            off < 12,
            off != 6,
        ensures
            final(self).wf(),
            spec_regs(*final(self)) == spec_reg_write(spec_regs(*old(self)), off as int, v),
            final(self).vram@ == old(self).vram@,
            final(self).oam@ == old(self).oam@,
            final(self).fbuf@ == old(self).fbuf@,
            final(self).winln == old(self).winln,
            final(self).frame == old(self).frame,
            final(self).dot == if off == 0 && (v / 128) % 2 == 0 {
                0u16
            } else {
                old(self).dot
            },
            final(self).mode == if off == 0 && (v / 128) % 2 == 0 {
                Mode::HBlank(HBlank {})
            } else {
                old(self).mode
            },
    {
        match off {
            0 => {
                self.lcdc = v;
                if (v / 128) % 2 == 0 {
                    self.ly = 0;
                    self.dot = 0;
                    self.mode = Mode::HBlank(HBlank {});
                }
            },
            1 => { self.stat = v; },
            2 => { self.scy = v; },
            3 => { self.scx = v; },
            4 => {
                if v < VBLANK_LINE {
                    self.ly = v;
                }
            },
            5 => { self.lyc = v; },
            7 => { self.bgp = v; },
            8 => { self.obp0 = v; },
            9 => { self.obp1 = v; },
            10 => { self.wy = v; },
            _ => { self.wx = v; },
        }
    }

    /// Reads a VRAM byte by VRAM offset.
    pub fn vram_read(&self, off: u16) -> (r: u8)
        requires
            self.wf(),
            off < 0x2000,
        ensures
            r == self.vram@[off as int],
    {
        self.vram[off as usize]
    }

    /// Writes a VRAM byte by VRAM offset.
    pub fn vram_write(&mut self, off: u16, v: u8)
        requires
            old(self).wf(),
            off < 0x2000,
        ensures
            *final(self) == (Ppu { vram: final(self).vram, ..*old(self) }),
            final(self).vram@ == old(self).vram@.update(off as int, v),
    {
        self.vram[off as usize] = v;
    }

    /// Reads an OAM byte by OAM offset.
    pub fn oam_read(&self, off: u16) -> (r: u8)
        requires
            self.wf(),
            off < 0xa0,
        ensures
            r == self.oam@[off as int],
    {
        self.oam[off as usize]
    }

    /// Writes an OAM byte by OAM offset.
    pub fn oam_write(&mut self, off: u16, v: u8)
        requires
            old(self).wf(),
            off < 0xa0,
        ensures
            *final(self) == (Ppu { oam: final(self).oam, ..*old(self) }),
            final(self).oam@ == old(self).oam@.update(off as int, v),
    {
        self.oam[off as usize] = v;
    }

    /// A completed frame awaits redraw.
    pub fn refresh(&self) -> (r: bool)
        ensures
            r == self.frame,
    {
        self.frame
    }

    /// Advances the PPU one dot: steps the current mode, then refreshes
    /// the `STAT` mode and coincidence bits and raises the LCD-status
    /// interrupt on a rising edge of its line. The scanline and dot
    /// counters always stay below [`FRAME_LINES`] and [`LINE_DOTS`].
    pub fn cycle(&mut self, pic: &mut Pic)
        requires
            old(self).wf(),
        ensures
            final(self).wf(),
            final(self).ly < FRAME_LINES,
            final(self).dot < LINE_DOTS,
            final(pic).enable == old(pic).enable,
            final(self).vram@ == old(self).vram@,
            final(self).oam@ == old(self).oam@,
            final(self).lcdc == old(self).lcdc,
            final(self).scy == old(self).scy,
            final(self).scx == old(self).scx,
            final(self).lyc == old(self).lyc,
            final(self).bgp == old(self).bgp,
            final(self).obp0 == old(self).obp0,
            final(self).obp1 == old(self).obp1,
            final(self).wy == old(self).wy,
            final(self).wx == old(self).wx,
            ({
                // After the mode step, the low status bits refresh and a
                // rising edge of the status line requests its interrupt.
                let a1 = spec_mode_irq(*old(self), old(pic).active);
                let coinc = final(self).ly == old(self).lyc;
                let stat2 = ((old(self).stat / 8) * 8 + (if coinc {
                    4int
                } else {
                    0int
                }) + final(self).mode.spec_number()) as u8;
                let lvl = spec_stat_level(stat2, final(self).mode, coinc);
                &&& final(self).stat == stat2
                &&& final(self).stat_line == lvl
                &&& final(pic).active == if lvl && !old(self).stat_line {
                    crate::pic::spec_set_bit(a1, 2)
                } else {
                    a1
                }
            }),
            old(self).mode is HBlank ==> {
                &&& final(self).fbuf@ == old(self).fbuf@
                &&& (old(self).dot < LINE_DOTS - 1 ==> final(self).dot == old(self).dot + 1
                    && final(self).ly == old(self).ly && final(self).mode is HBlank)
                &&& (old(self).dot == LINE_DOTS - 1 ==> final(self).dot == 0
                    && (final(self).ly < VBLANK_LINE ==> final(self).mode is Scan)
                    && (final(self).ly >= VBLANK_LINE ==> final(self).mode is VBlank
                    && final(self).frame && final(self).winln == 0))
            },
            old(self).mode is VBlank ==> {
                &&& final(self).fbuf@ == old(self).fbuf@
                &&& (old(self).dot < LINE_DOTS - 1 ==> final(self).dot == old(self).dot + 1
                    && final(self).ly == old(self).ly && final(self).mode is VBlank)
                &&& (old(self).dot == LINE_DOTS - 1 ==> final(self).dot == 0
                    && (old(self).ly + 1 < FRAME_LINES ==> final(self).mode is VBlank
                    && final(self).ly == old(self).ly + 1)
                    && (old(self).ly + 1 >= FRAME_LINES ==> final(self).mode is Scan
                    && final(self).ly == 0))
            },
            old(self).mode is Scan ==> {
                &&& final(self).fbuf@ == old(self).fbuf@
                &&& final(self).dot == old(self).dot + 1
                &&& final(self).ly == old(self).ly
                &&& (old(self).dot < SCAN_DOTS - 1 ==> final(self).mode is Scan)
                &&& (old(self).dot >= SCAN_DOTS - 1 ==> final(self).mode is Draw)
            },
            old(self).mode is Draw ==> {
                &&& final(self).ly == old(self).ly
                &&& final(self).dot == if old(self).dot < LINE_DOTS - 1 {
                    (old(self).dot + 1) as u16
                } else {
                    old(self).dot
                }
                &&& (final(self).mode is Draw || final(self).mode is HBlank)
                &&& final(self).fbuf@.len() == old(self).fbuf@.len()
            },
    {
        let m = self.mode;
        let next = match m {
            Mode::HBlank(h) => h.exec(self, pic),
            Mode::VBlank(v) => v.exec(self),
            Mode::Scan(s) => s.exec(self),
            Mode::Draw(d) => d.exec(self, pic),
        };
        self.mode = next;
        let coinc = self.ly == self.lyc;
        let mnum = next.number();
        self.stat = (self.stat / 8) * 8 + (if coinc {
            4u8
        } else {
            0u8
        }) + mnum;
        let level = self.stat_level(coinc);
        if level && !self.stat_line {
            pic.req(Interrupt::LcdStat);
        }
        self.stat_line = level;
    }

    /// Level of the LCD-status interrupt line for the current state.
    fn stat_level(&self, coinc: bool) -> (r: bool)
        ensures
            r == spec_stat_level(self.stat, self.mode, coinc),
    {
        ((self.stat / 8) % 2 == 1 && matches!(self.mode, Mode::HBlank(_))) || ((self.stat / 16)
            % 2 == 1 && matches!(self.mode, Mode::VBlank(_))) || ((self.stat / 32) % 2 == 1
            && matches!(self.mode, Mode::Scan(_))) || ((self.stat / 64) % 2 == 1 && coinc)
    }

    /// Returns the PPU to its post-reset state: registers, counters, mode
    /// and memories cleared.
    pub fn reset(&mut self)
        ensures
            final(self).wf(),
            final(self).lcdc == 0 && final(self).stat == 0,
            final(self).scy == 0 && final(self).scx == 0,
            final(self).ly == 0 && final(self).lyc == 0,
            final(self).bgp == 0 && final(self).obp0 == 0 && final(self).obp1 == 0,
            final(self).wy == 0 && final(self).wx == 0,
            final(self).dot == 0 && final(self).winln == 0,
            !final(self).frame && !final(self).stat_line,
            final(self).vram@ == Seq::new(0x2000, |i: int| 0u8),
            final(self).oam@ == Seq::new(0xa0, |i: int| 0u8),
            final(self).fbuf@ == Seq::new((160 * 144) as nat, |i: int| 0u8),
            final(self).mode is Scan,
    {
        *self = Ppu::new();
    }
}

/// The sprite intersects the current scanline, for the height `LCDC`
/// bit 2 selects.
pub open spec fn spec_sprite_covers(p: Ppu, s: Sprite) -> bool {
    let height: int = if (p.lcdc / 4) % 2 == 1 {
        16
    } else {
        8
    };
    s.y <= p.ly + 16 < s.y + height
}

/// Pixel `i` (0 = leftmost) of a covering sprite on the current
/// scanline: the decoded tile-row pixel, honouring both flip bits, with
/// the palette and priority its attributes carry.
pub open spec fn spec_sprite_pixel(p: Ppu, s: Sprite, i: u8) -> Pixel {
    let height: int = if (p.lcdc / 4) % 2 == 1 {
        16
    } else {
        8
    };
    let row0: int = p.ly + 16 - s.y;
    let row: int = if (s.attr / 64) % 2 == 1 {
        height - 1 - row0
    } else {
        row0
    };
    let tile: int = if height == 16 {
        (s.tile / 2) * 2 + row / 8
    } else {
        s.tile as int
    };
    let off: int = tile * 16 + (row % 8) * 2;
    let src: u8 = if (s.attr / 32) % 2 == 1 {
        (7 - (i % 8)) as u8
    } else {
        (i % 8) as u8
    };
    Pixel {
        col: spec_row_pixel(p.vram@[off], p.vram@[off + 1], src),
        pal: if (s.attr / 16) % 2 == 1 {
            2u8
        } else {
            1u8
        },
        bgpri: (s.attr / 128) % 2 == 1,
    }
}

/// Pixel `i` of a covering sprite on the current scanline.
fn sprite_pixel(ppu: &Ppu, s: Sprite, i: u8) -> (r: Pixel)
    requires
        ppu.wf(),
        spec_sprite_covers(*ppu, s),
        i < 8,
    ensures
        r == spec_sprite_pixel(*ppu, s, i),
{
    let tall = (ppu.lcdc / 4) % 2 == 1;
    let height: u16 = if tall {
        16
    } else {
        8
    };
    let row0: u16 = ppu.ly as u16 + 16 - s.y as u16;
    let row: u16 = if (s.attr / 64) % 2 == 1 {
        (height - 1) - row0
    } else {
        row0
    };
    let tile: u16 = if tall {
        ((s.tile / 2) as u16) * 2 + (row / 8)
    } else {
        s.tile as u16
    };
    let off: u16 = tile * 16 + (row % 8) * 2;
    let lo = vram_at(ppu, off);
    let hi = vram_at(ppu, off + 1);
    let src: u8 = if (s.attr / 32) % 2 == 1 {
        7 - (i % 8)
    } else {
        i % 8
    };
    Pixel {
        col: row_pixel(lo, hi, src),
        pal: if (s.attr / 16) % 2 == 1 {
            2
        } else {
            1
        },
        bgpri: (s.attr / 128) % 2 == 1,
    }
}

/// Fetches the row bytes of a triggered sprite and merges its eight
/// pixels into the sprite FIFO: transparent slots take the new pixel,
/// occupied slots keep the earlier sprite, and the queue fills to its
/// full eight entries.
fn merge_sprite(ppu: &Ppu, s: Sprite, fifo: Fifo) -> (r: Fifo)
    requires
        ppu.wf(),
        fifo.wf(),
    ensures
        r.wf(),
        !spec_sprite_covers(*ppu, s) ==> r == fifo,
        spec_sprite_covers(*ppu, s) ==> {
            &&& r.len == 8
            &&& forall|i: u8|
                i < 8 ==> r.buf@[i as int] == ({
                    let sp = spec_sprite_pixel(*ppu, s, i);
                    if i < fifo.len && !(fifo.buf@[i as int].col % 4 == 0 && sp.col % 4 != 0) {
                        fifo.buf@[i as int]
                    } else {
                        sp
                    }
                })
        },
{
    let tall = (ppu.lcdc / 4) % 2 == 1;
    let height: u16 = if tall {
        16
    } else {
        8
    };
    let line: u16 = ppu.ly as u16 + 16;
    if !(s.y as u16 <= line && line < s.y as u16 + height) {
        return fifo;
    }
    let mut out = fifo;
    let mut i: u8 = 0;
    while i < 8
        invariant
            i <= 8,
            out.len == fifo.len,
            fifo.wf(),
            ppu.wf(),
            spec_sprite_covers(*ppu, s),
            forall|j: u8|
                j < i ==> out.buf@[j as int] == ({
                    let sp = spec_sprite_pixel(*ppu, s, j);
                    if j < fifo.len && !(fifo.buf@[j as int].col % 4 == 0 && sp.col % 4 != 0) {
                        fifo.buf@[j as int]
                    } else {
                        sp
                    }
                }),
            forall|j: int| i <= j < 8 ==> out.buf@[j] == fifo.buf@[j],
        decreases 8 - i,
    {
        let px = sprite_pixel(ppu, s, i);
        if i < out.len {
            if out.buf[i as usize].col % 4 == 0 && px.col % 4 != 0 {
                out.buf[i as usize] = px;
            }
        } else {
            out.buf[i as usize] = px;
        }
        i = i + 1;
    }
    out.len = 8;
    out
}

} // verus!
