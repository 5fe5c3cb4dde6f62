//! Memory bus.
//!
//! A 16-bit address, 8-bit data map of overlapping priority regions: the
//! boot ROM shadows the cartridge while enabled, the cartridge covers
//! `0x0000..0x8000` and the external-RAM window, onboard RAMs and the
//! memory-mapped registers fill the top of the space, and a fallback
//! returns `0xff` for every address no region claims. Reads serve the
//! highest-priority region; writes reach every region that accepts them,
//! with ROM-area writes routed to the bank controller.

use vstd::prelude::*;
use crate::apu::Apu;
use crate::boot::Boot;
use crate::cart::Cartridge;
use crate::dma::{Dma, DmaState};
use crate::header::Kind;
use crate::joypad::{self, Joypad};
use crate::mbc::{self, Mbc};
use crate::pic::Pic;
use crate::ppu::{self, Ppu};
use crate::serial::Serial;
use crate::timer::Timer;

verus! {

/// The bus: every memory-mapped device of the console.
#[derive(Clone, Debug)]
pub struct Bus {
    /// Boot ROM shadowing `0x0000..0x0100` while enabled.
    pub boot: Boot,
    /// Cartridge at `0x0000..0x8000` and `0xa000..0xc000`.
    pub cart: Cartridge,
    /// Work RAM at `0xc000..0xe000`, echoed at `0xe000..0xfe00`.
    pub wram: Vec<u8>,
    /// High RAM at `0xff80..0xffff`.
    pub hram: Vec<u8>,
    /// Joypad register at `0xff00`.
    pub joypad: Joypad,
    /// Serial registers at `0xff01..0xff03`.
    pub serial: Serial,
    /// Timer registers at `0xff04..0xff08`.
    pub timer: Timer,
    /// Interrupt controller: `IF` at `0xff0f`, `IE` at `0xffff`.
    pub pic: Pic,
    /// Audio registers at `0xff10..0xff27` and `0xff30..0xff40`.
    pub apu: Apu,
    /// LCD registers at `0xff40..0xff4c`, video RAM and OAM.
    pub ppu: Ppu,
    /// OAM transfer engine; its register sits at `0xff46`.
    pub dma: Dma,
}

/// Ghost model of the bus: every byte and register the memory map serves.
#[verifier::ext_equal]
pub struct BusV {
    pub boot_rom: Seq<u8>,
    pub boot_reg: u8,
    pub boot_off: bool,
    pub cart_rom: Seq<u8>,
    pub cart_ram: Seq<u8>,
    pub cart_mbc: Mbc,
    pub cart_kind: Kind,
    pub wram: Seq<u8>,
    pub hram: Seq<u8>,
    pub joypad: Joypad,
    pub serial: Serial,
    pub timer: Timer,
    pub pic: Pic,
    pub apu_ctl: Seq<u8>,
    pub apu_wave: Seq<u8>,
    pub lcd: ppu::Regs,
    pub vram: Seq<u8>,
    pub oam: Seq<u8>,
    pub dma: Dma,
}

impl View for Bus {
    type V = BusV;

    open spec fn view(&self) -> BusV {
        BusV {
            boot_rom: self.boot.rom@,
            boot_reg: self.boot.reg,
            boot_off: self.boot.disabled,
            cart_rom: self.cart.rom@,
            cart_ram: self.cart.ram@,
            cart_mbc: self.cart.mbc,
            cart_kind: self.cart.header.cart,
            wram: self.wram@,
            hram: self.hram@,
            joypad: self.joypad,
            serial: self.serial,
            timer: self.timer,
            pic: self.pic,
            apu_ctl: self.apu.ctl@,
            apu_wave: self.apu.wave@,
            lcd: ppu::spec_regs(self.ppu),
            vram: self.ppu.vram@,
            oam: self.ppu.oam@,
            dma: self.dma,
        }
    }
}

/// Well-formedness of the model: buffer sizes, controller ranges.
pub open spec fn spec_wf(v: BusV) -> bool {
    &&& v.boot_rom.len() == 0x100
    &&& mbc::spec_romsz_valid(v.cart_rom.len() as int)
    &&& mbc::spec_ramlen_valid(v.cart_ram.len() as int)
    &&& v.cart_mbc.wf()
    &&& v.wram.len() == 0x2000
    &&& v.hram.len() == 0x7f
    &&& v.apu_ctl.len() == 0x17
    &&& v.apu_wave.len() == 0x10
    &&& v.vram.len() == 0x2000
    &&& v.oam.len() == 0xa0
    &&& v.joypad.select < 4
    &&& v.lcd.ly < ppu::FRAME_LINES
}

/// The address lies in a region backed by writable RAM that is reachable:
/// video RAM, reachable external RAM, work RAM, its echo, OAM, or high
/// RAM.
pub open spec fn spec_is_ram(v: BusV, addr: u16) -> bool {
    ||| (0x8000 <= addr < 0xa000)
    ||| (0xa000 <= addr < 0xc000 && mbc::spec_ram_index(
        v.cart_mbc,
        v.cart_ram.len() as int,
        addr - 0xa000,
    ) is Some)
    ||| (0xc000 <= addr < 0xfe00)
    ||| (0xfe00 <= addr < 0xfea0)
    ||| (0xff80 <= addr < 0xffff)
}

/// The address falls through every region: the prohibited window and the
/// gaps of the register page.
pub open spec fn spec_is_unmapped(addr: u16) -> bool {
    ||| (0xfea0 <= addr < 0xff00)
    ||| addr == 0xff03
    ||| (0xff08 <= addr < 0xff0f)
    ||| (0xff27 <= addr < 0xff30)
    ||| (0xff4c <= addr < 0xff50)
    ||| (0xff51 <= addr < 0xff80)
}

/// The byte `read` returns at `addr`: the highest-priority region holding
/// the address, `0xff` where none does.
pub open spec fn spec_read(v: BusV, addr: u16) -> u8 {
    if addr < 0x100 && !v.boot_off {
        v.boot_rom[addr as int]
    } else if addr < 0x8000 {
        v.cart_rom[mbc::spec_rom_index(v.cart_mbc, v.cart_rom.len() as int, addr as int)]
    } else if addr < 0xa000 {
        v.vram[addr - 0x8000]
    } else if addr < 0xc000 {
        match mbc::spec_ram_index(v.cart_mbc, v.cart_ram.len() as int, addr - 0xa000) {
            Some(i) => v.cart_ram[i],
            None => 0xffu8,
        }
    } else if addr < 0xe000 {
        v.wram[addr - 0xc000]
    } else if addr < 0xfe00 {
        v.wram[addr - 0xe000]
    } else if addr < 0xfea0 {
        v.oam[addr - 0xfe00]
    } else if addr < 0xff00 {
        0xffu8
    } else if addr == 0xff00 {
        joypad::spec_p1(v.joypad)
    } else if addr == 0xff01 {
        v.serial.sb
    } else if addr == 0xff02 {
        v.serial.sc
    } else if addr == 0xff04 {
        (v.timer.ctr / 256) as u8
    } else if addr == 0xff05 {
        v.timer.tima
    } else if addr == 0xff06 {
        v.timer.tma
    } else if addr == 0xff07 {
        v.timer.tac
    } else if addr == 0xff0f {
        v.pic.active
    } else if 0xff10 <= addr < 0xff27 {
        v.apu_ctl[addr - 0xff10]
    } else if 0xff30 <= addr < 0xff40 {
        v.apu_wave[addr - 0xff30]
    } else if addr == 0xff46 {
        v.dma.page
    } else if 0xff40 <= addr < 0xff4c {
        ppu::spec_reg_read(v.lcd, addr - 0xff40)
    } else if addr == 0xff50 {
        v.boot_reg
    } else if 0xff80 <= addr < 0xffff {
        v.hram[addr - 0xff80]
    } else if addr == 0xffff {
        v.pic.enable
    } else {
        0xffu8
    }
}

/// The model after `write` stores `val` at `addr`: ROM-area writes reach
/// the bank controller, RAM and register writes their region, everything
/// else is dropped.
pub open spec fn spec_write(v: BusV, addr: u16, val: u8) -> BusV {
    if addr < 0x8000 {
        BusV { cart_mbc: mbc::spec_mbc_write(v.cart_mbc, addr as int, val), ..v }
    } else if addr < 0xa000 {
        BusV { vram: v.vram.update(addr - 0x8000, val), ..v }
    } else if addr < 0xc000 {
        match mbc::spec_ram_index(v.cart_mbc, v.cart_ram.len() as int, addr - 0xa000) {
            Some(i) => BusV { cart_ram: v.cart_ram.update(i, val), ..v },
            None => v,
        }
    } else if addr < 0xe000 {
        BusV { wram: v.wram.update(addr - 0xc000, val), ..v }
    } else if addr < 0xfe00 {
        BusV { wram: v.wram.update(addr - 0xe000, val), ..v }
    } else if addr < 0xfea0 {
        BusV { oam: v.oam.update(addr - 0xfe00, val), ..v }
    } else if addr < 0xff00 {
        v
    } else if addr == 0xff00 {
        BusV { joypad: Joypad { select: (val / 16) % 4, ..v.joypad }, ..v }
    } else if addr == 0xff01 {
        BusV { serial: Serial { sb: val, ..v.serial }, ..v }
    } else if addr == 0xff02 {
        BusV { serial: Serial { sc: val, ..v.serial }, ..v }
    } else if addr == 0xff04 {
        BusV { timer: spec_div_write(v.timer), ..v }
    } else if addr == 0xff05 {
        BusV { timer: Timer { tima: val, reload: false, ..v.timer }, ..v }
    } else if addr == 0xff06 {
        BusV { timer: Timer { tma: val, ..v.timer }, ..v }
    } else if addr == 0xff07 {
        BusV { timer: spec_tac_write(v.timer, val), ..v }
    } else if addr == 0xff0f {
        BusV { pic: Pic { active: val, ..v.pic }, ..v }
    } else if 0xff10 <= addr < 0xff27 {
        BusV { apu_ctl: v.apu_ctl.update(addr - 0xff10, val), ..v }
    } else if 0xff30 <= addr < 0xff40 {
        BusV { apu_wave: v.apu_wave.update(addr - 0xff30, val), ..v }
    } else if addr == 0xff46 {
        BusV { dma: Dma { page: val, state: DmaState::Req(val) }, ..v }
    } else if 0xff40 <= addr < 0xff4c {
        BusV { lcd: ppu::spec_reg_write(v.lcd, addr - 0xff40, val), ..v }
    } else if addr == 0xff50 {
        BusV { boot_reg: val, boot_off: v.boot_off || val != 0, ..v }
    } else if 0xff80 <= addr < 0xffff {
        BusV { hram: v.hram.update(addr - 0xff80, val), ..v }
    } else if addr == 0xffff {
        BusV { pic: Pic { enable: val, ..v.pic }, ..v }
    } else {
        v
    }
}

/// Timer state after a `DIV` write: the counter resets, and the falling
/// edge this may cause increments `TIMA`.
pub open spec fn spec_div_write(t: Timer) -> Timer {
    let edge = crate::timer::spec_signal(t.tac, t.ctr) && !crate::timer::spec_signal(t.tac, 0);
    if edge {
        Timer {
            ctr: 0,
            tima: crate::timer::spec_tima_inc(t.tima),
            reload: t.tima == 0xff,
            ..t
        }
    } else {
        Timer { ctr: 0, ..t }
    }
}

/// Timer state after a `TAC` write: the control changes, and the falling
/// edge this may cause increments `TIMA`.
pub open spec fn spec_tac_write(t: Timer, val: u8) -> Timer {
    let edge = crate::timer::spec_signal(t.tac, t.ctr) && !crate::timer::spec_signal(val, t.ctr);
    if edge {
        Timer {
            tac: val,
            tima: crate::timer::spec_tima_inc(t.tima),
            reload: t.tima == 0xff,
            ..t
        }
    } else {
        Timer { tac: val, ..t }
    }
}

/// The byte the processor observes at `addr`: during an active OAM
/// transfer every address outside high RAM reads `0xff`.
pub open spec fn spec_read_cpu(v: BusV, addr: u16) -> u8 {
    if v.dma.state matches DmaState::On { .. } && !(0xff80 <= addr < 0xffff) {
        0xffu8
    } else {
        spec_read(v, addr)
    }
}

impl Bus {
    /// Everything on the bus is well-formed.
    pub open spec fn wf(self) -> bool {
        &&& self.boot.wf()
        &&& self.cart.wf()
        &&& self.wram@.len() == 0x2000
        &&& self.hram@.len() == 0x7f
        &&& self.apu.wf()
        &&& self.ppu.wf()
        &&& self.joypad.select < 4
    }

    /// Reads the byte at `addr`: the highest-priority region containing
    /// the address, `0xff` where none does.
    pub fn read(&self, addr: u16) -> (r: u8)
        requires
            self.wf(),
        ensures
            r == spec_read(self@, addr),
    {
        if addr < 0x100 && !self.boot.disabled {
            self.boot.read(addr)
        } else if addr < 0x8000 {
            self.cart.rom_read(addr)
        } else if addr < 0xa000 {
            self.ppu.vram_read(addr - 0x8000)
        } else if addr < 0xc000 {
            self.cart.ram_read(addr - 0xa000)
        } else if addr < 0xe000 {
            self.wram[(addr - 0xc000) as usize]
        } else if addr < 0xfe00 {
            self.wram[(addr - 0xe000) as usize]
        } else if addr < 0xfea0 {
            self.ppu.oam_read(addr - 0xfe00)
        } else if addr < 0xff00 {
            0xff
        } else if addr == 0xff00 {
            self.joypad.read()
        } else if addr == 0xff01 || addr == 0xff02 {
            self.serial.read(addr - 0xff01)
        } else if addr == 0xff04 {
            self.timer.read_div()
        } else if addr == 0xff05 {
            self.timer.tima
        } else if addr == 0xff06 {
            self.timer.tma
        } else if addr == 0xff07 {
            self.timer.tac
        } else if addr == 0xff0f {
            self.pic.active
        } else if 0xff10 <= addr && addr < 0xff27 {
            self.apu.read_ctl(addr - 0xff10)
        } else if 0xff30 <= addr && addr < 0xff40 {
            self.apu.read_wave(addr - 0xff30)
        } else if addr == 0xff46 {
            self.dma.load()
        } else if 0xff40 <= addr && addr < 0xff4c {
            self.ppu.read_reg(addr - 0xff40)
        } else if addr == 0xff50 {
            self.boot.read_ctl()
        } else if 0xff80 <= addr && addr < 0xffff {
            self.hram[(addr - 0xff80) as usize]
        } else if addr == 0xffff {
            self.pic.enable
        } else {
            0xff
        }
    }

    /// The byte the processor observes at `addr`: during an active OAM
    /// transfer every address outside high RAM reads `0xff`.
    pub fn read_cpu(&self, addr: u16) -> (r: u8)
        requires
            self.wf(),
        ensures
            r == spec_read_cpu(self@, addr),
    {
        let blocked = matches!(self.dma.state, DmaState::On { .. });
        if blocked && !(0xff80 <= addr && addr < 0xffff) {
            0xff
        } else {
            self.read(addr)
        }
    }

    /// Writes `val` at `addr`: dispatched to every region that accepts
    /// writes there, with ROM-area writes routed to the bank controller
    /// and unclaimed addresses dropping the byte.
    pub fn write(&mut self, addr: u16, val: u8)
        requires
            old(self).wf(),
        ensures
            final(self).wf(),
            final(self)@ == spec_write(old(self)@, addr, val),
            final(self).ppu.dot == if addr == 0xff40 && (val / 128) % 2 == 0 {
                0u16
            } else {
                old(self).ppu.dot
            },
            final(self).ppu.mode == if addr == 0xff40 && (val / 128) % 2 == 0 {
                ppu::Mode::HBlank(ppu::HBlank {  })
            } else {
                old(self).ppu.mode
            },
            final(self).ppu.fbuf@ == old(self).ppu.fbuf@,
            final(self).ppu.frame == old(self).ppu.frame,
            final(self).ppu.winln == old(self).ppu.winln,
            final(self).timer == if addr == 0xff04 {
                spec_div_write(old(self).timer)
            } else if addr == 0xff05 {
                Timer { tima: val, reload: false, ..old(self).timer }
            } else if addr == 0xff06 {
                Timer { tma: val, ..old(self).timer }
            } else if addr == 0xff07 {
                spec_tac_write(old(self).timer, val)
            } else {
                old(self).timer
            },
    {
        let ghost pre = self@;
        if addr < 0x8000 {
            self.cart.rom_write(addr, val);
        } else if addr < 0xa000 {
            self.ppu.vram_write(addr - 0x8000, val);
        } else if addr < 0xc000 {
            self.cart.ram_write(addr - 0xa000, val);
        } else if addr < 0xe000 {
            self.wram[(addr - 0xc000) as usize] = val;
        } else if addr < 0xfe00 {
            self.wram[(addr - 0xe000) as usize] = val;
        } else if addr < 0xfea0 {
            self.ppu.oam_write(addr - 0xfe00, val);
        } else if addr < 0xff00 {
        } else if addr == 0xff00 {
            self.joypad.write(val);
        } else if addr == 0xff01 || addr == 0xff02 {
            self.serial.write(addr - 0xff01, val);
        } else if addr == 0xff04 {
            self.timer.write_div();
        } else if addr == 0xff05 {
            self.timer.write_tima(val);
        } else if addr == 0xff06 {
            self.timer.write_tma(val);
        } else if addr == 0xff07 {
            self.timer.write_tac(val);
        } else if addr == 0xff0f {
            self.pic.active = val;
        } else if 0xff10 <= addr && addr < 0xff27 {
            self.apu.write_ctl(addr - 0xff10, val);
        } else if 0xff30 <= addr && addr < 0xff40 {
            self.apu.write_wave(addr - 0xff30, val);
        } else if addr == 0xff46 {
            self.dma.store(val);
        } else if 0xff40 <= addr && addr < 0xff4c {
            self.ppu.write_reg(addr - 0xff40, val);
        } else if addr == 0xff50 {
            self.boot.write_ctl(val);
        } else if 0xff80 <= addr && addr < 0xffff {
            self.hram[(addr - 0xff80) as usize] = val;
        } else if addr == 0xffff {
            self.pic.enable = val;
        }
        proof {
            assert(self@ =~= spec_write(pre, addr, val));
        }
    }

    /// Advances the OAM transfer engine one machine cycle: a requested
    /// transfer begins and copies its first byte; an active transfer
    /// copies one byte from `(page << 8) | idx` into OAM and retires
    /// after the 160th.
    pub fn dma_cycle(&mut self)
        requires
            old(self).wf(),
        ensures
            final(self).wf(),
            final(self)@ == spec_dma_cycle(old(self)@),
            final(self).ppu.dot == old(self).ppu.dot,
            final(self).ppu.mode == old(self).ppu.mode,
            final(self).ppu.fbuf@ == old(self).ppu.fbuf@,
            final(self).ppu.frame == old(self).ppu.frame,
            final(self).timer == old(self).timer,
    {
        let ghost pre = self@;
        match self.dma.state {
            DmaState::Off => {},
            DmaState::Req(src) => {
                let data = self.read((src as u16) * 256);
                self.ppu.oam_write(0, data);
                self.dma.state = DmaState::On { src, idx: 1 };
            },
            DmaState::On { src, idx } => {
                if idx < 160 {
                    let data = self.read((src as u16) * 256 + idx as u16);
                    self.ppu.oam_write(idx as u16, data);
                    if idx + 1 < 160 {
                        self.dma.state = DmaState::On { src, idx: idx + 1 };
                    } else {
                        self.dma.state = DmaState::Off;
                    }
                } else {
                    self.dma.state = DmaState::Off;
                }
            },
        }
        proof {
            assert(self@ =~= spec_dma_cycle(pre));
        }
    }
}

/// The model after one OAM-transfer machine cycle.
pub open spec fn spec_dma_cycle(v: BusV) -> BusV {
    match v.dma.state {
        DmaState::Off => v,
        DmaState::Req(src) => BusV {
            oam: v.oam.update(0, spec_read(v, ((src as u16) * 256) as u16)),
            dma: Dma { state: DmaState::On { src, idx: 1 }, ..v.dma },
            ..v
        },
        DmaState::On { src, idx } => {
            if idx < 160 {
                let v2 = BusV {
                    oam: v.oam.update(idx as int, spec_read(v, ((src as u16) * 256 + idx) as u16)),
                    ..v
                };
                if idx + 1 < 160 {
                    BusV { dma: Dma { state: DmaState::On { src, idx: (idx + 1) as u8 }, ..v.dma }, ..v2 }
                } else {
                    BusV { dma: Dma { state: DmaState::Off, ..v.dma }, ..v2 }
                }
            } else {
                BusV { dma: Dma { state: DmaState::Off, ..v.dma }, ..v }
            }
        },
    }
}

/// Reads after writes, region by region: a reachable RAM byte returns the
/// written value; a ROM-area read still serves the (unchanged) ROM buffer
/// through whatever bank the write selected; an unmapped or prohibited
/// address reads `0xff` whatever was written.
pub proof fn lemma_write_read_round_trip(v: BusV, addr: u16, val: u8)
    requires
        spec_wf(v),
    ensures
        spec_is_ram(v, addr) ==> spec_read(spec_write(v, addr, val), addr) == val,
        (addr < 0x8000 && (v.boot_off || addr >= 0x100)) ==> {
            let w = spec_write(v, addr, val);
            &&& w.cart_rom == v.cart_rom
            &&& spec_read(w, addr) == v.cart_rom[mbc::spec_rom_index(
                w.cart_mbc,
                v.cart_rom.len() as int,
                addr as int,
            )]
        },
        spec_is_unmapped(addr) ==> spec_read(spec_write(v, addr, val), addr) == 0xff,
{
    if spec_is_ram(v, addr) {
        if 0xa000 <= addr && addr < 0xc000 {
            mbc::lemma_ram_index_in_bounds(v.cart_mbc, v.cart_ram.len() as int, addr - 0xa000);
        }
    }
    if addr < 0x8000 && (v.boot_off || addr >= 0x100) {
        mbc::lemma_mbc_write_wf(v.cart_mbc, addr as int, val);
        mbc::lemma_rom_index_in_bounds(
            mbc::spec_mbc_write(v.cart_mbc, addr as int, val),
            v.cart_rom.len() as int,
            addr as int,
        );
    }
}

/// Writes never panic and never change the size of any buffer; reads of
/// the prohibited window always observe `0xff` and writes there are
/// dropped entirely.
pub proof fn lemma_prohibited_window(v: BusV, addr: u16, val: u8)
    requires
        spec_wf(v),
        0xfea0 <= addr < 0xff00,
    ensures
        spec_read(v, addr) == 0xff,
        spec_write(v, addr, val) == v,
{
}

} // verus!
