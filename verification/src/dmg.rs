//! The DMG-01 console: the processor and the bus with every device,
//! driven by one clock.
//!
//! Each tick advances, in fixed order: the processor (every fourth tick,
//! its machine cycle), the pixel-processing unit (one dot, while the LCD
//! is enabled), the timer, and the OAM transfer engine (one byte per
//! machine cycle).

use vstd::prelude::*;
use crate::bus::{self, Bus, BusV};
use crate::cart::{self, Cartridge};
use crate::cpu::{self, Cpu};
use crate::apu::Apu;
use crate::boot::Boot;
use crate::dma::Dma;
use crate::joypad::{Button, Joypad};
use crate::pic::Pic;
use crate::ppu::Ppu;
use crate::serial::Serial;
use crate::timer::Timer;

verus! {

/// Screen shade `i`, as a host colour, lightest first.
pub fn palette(shade: u8) -> (r: u32)
    ensures
        r == spec_palette(shade),
{
    match shade % 4 {
        0 => 0xe9efec,
        1 => 0xa0a08b,
        2 => 0x555568,
        _ => 0x211e20,
    }
}

/// Screen shade `i`, as a host colour.
pub open spec fn spec_palette(shade: u8) -> u32 {
    if shade % 4 == 0 {
        0xe9efecu32
    } else if shade % 4 == 1 {
        0xa0a08bu32
    } else if shade % 4 == 2 {
        0x555568u32
    } else {
        0x211e20u32
    }
}

/// The bus model after one timer tick: the timer advances one cycle and
/// an applied overflow reload requests the timer interrupt.
pub open spec fn spec_timer_tick_bus(b: BusV) -> BusV {
    BusV {
        timer: crate::timer::spec_timer_cycle(b.timer),
        pic: Pic {
            active: if crate::timer::spec_timer_irq(b.timer) {
                crate::pic::spec_set_bit(b.pic.active, crate::pic::Interrupt::Timer.spec_mask())
            } else {
                b.pic.active
            },
            ..b.pic
        },
        ..b
    }
}

/// The console.
#[derive(Clone, Debug)]
pub struct GameBoy {
    /// Ticks elapsed, wrapping; the processor runs on every fourth.
    pub cycle: u64,
    /// SM83 processor.
    pub cpu: Cpu,
    /// Memory bus with every device.
    pub bus: Bus,
}

/// The observable state of the console: processor, tick counter, bus
/// model, and the PPU internals the bus model does not carry.
#[verifier::ext_equal]
pub struct GbObs {
    pub cycle: u64,
    pub cpu: Cpu,
    pub bus: BusV,
    pub dot: u16,
    pub mode_num: u8,
    pub winln: u8,
    pub fbuf: Seq<u8>,
    pub frame: bool,
}

/// The observable state of a console.
pub open spec fn spec_obs(gb: GameBoy) -> GbObs {
    GbObs {
        cycle: gb.cycle,
        cpu: gb.cpu,
        bus: gb.bus@,
        dot: gb.bus.ppu.dot,
        mode_num: gb.bus.ppu.mode.spec_number(),
        winln: gb.bus.ppu.winln,
        fbuf: gb.bus.ppu.fbuf@,
        frame: gb.bus.ppu.frame,
    }
}

/// The observable state after a reset: every device returns to its
/// post-reset defaults; the cartridge (ROM, external RAM and kind), the
/// boot program, the onboard RAM contents and the tick counter persist.
pub open spec fn spec_reset_obs(o: GbObs) -> GbObs {
    GbObs {
        cycle: o.cycle,
        cpu: Cpu::spec_reset(),
        bus: BusV {
            boot_rom: o.bus.boot_rom,
            boot_reg: 0,
            boot_off: false,
            cart_rom: o.bus.cart_rom,
            cart_ram: o.bus.cart_ram,
            cart_mbc: match cart::spec_mbc_init(o.bus.cart_kind) {
                Some(m) => m,
                None => o.bus.cart_mbc,
            },
            cart_kind: o.bus.cart_kind,
            wram: o.bus.wram,
            hram: o.bus.hram,
            joypad: Joypad { select: 3, keys: 0 },
            serial: Serial { sb: 0, sc: 0 },
            timer: Timer { ctr: 0, tima: 0, tma: 0, tac: 0, reload: false },
            pic: Pic { active: 0, enable: 0 },
            apu_ctl: Seq::new(0x17, |i: int| 0u8),
            apu_wave: Seq::new(0x10, |i: int| 0u8),
            lcd: crate::ppu::Regs {
                lcdc: 0,
                stat: 0,
                scy: 0,
                scx: 0,
                ly: 0,
                lyc: 0,
                bgp: 0,
                obp0: 0,
                obp1: 0,
                wy: 0,
                wx: 0,
            },
            vram: Seq::new(0x2000, |i: int| 0u8),
            oam: Seq::new(0xa0, |i: int| 0u8),
            dma: Dma { page: 0, state: crate::dma::DmaState::Off },
        },
        dot: 0,
        mode_num: 2,
        winln: 0,
        fbuf: Seq::new((160 * 144) as nat, |i: int| 0u8),
        frame: false,
    }
}

/// Resetting twice observes the same state as resetting once: the reset
/// lands every component on fixed defaults and only carries the
/// cartridge, the boot program and the onboard RAM contents through.
pub proof fn lemma_reset_idempotent(o: GbObs)
    ensures
        spec_reset_obs(spec_reset_obs(o)) == spec_reset_obs(o),
{
    assert(spec_reset_obs(spec_reset_obs(o)) =~~= spec_reset_obs(o));
}

impl GameBoy {
    /// Everything on the bus is well-formed.
    pub open spec fn wf(self) -> bool {
        self.bus.wf()
    }

    /// Builds a console around a cartridge and resets it.
    pub fn new(cart: Cartridge) -> (r: GameBoy)
        requires
            cart.wf(),
        ensures
            r.wf(),
            r.cycle == 0,
            r.cpu == Cpu::spec_reset(),
            r.bus.cart.rom@ == cart.rom@,
            r.bus.cart.ram@ == cart.ram@,
            r.bus.cart.header == cart.header,
            !r.bus.boot.disabled,
            spec_obs(r) == spec_reset_obs(spec_obs(r)),
    {
        let mut this = GameBoy {
            cycle: 0,
            cpu: Cpu::new(),
            bus: Bus {
                boot: Boot::dmg(),
                cart,
                wram: vec![0u8; 0x2000],
                hram: vec![0u8; 0x7f],
                joypad: Joypad::new(),
                serial: Serial::new(),
                timer: Timer::new(),
                pic: Pic::new(),
                apu: Apu::new(),
                ppu: Ppu::new(),
                dma: Dma::new(),
            },
        };
        this.reset();
        proof {
            lemma_reset_idempotent(spec_obs(this));
        }
        this
    }

    /// Returns the console to its post-reset state: every device lands on
    /// its defaults; the cartridge ROM and external RAM, the boot
    /// program, and the onboard RAM contents persist. Resetting is
    /// idempotent ([`lemma_reset_idempotent`]).
    pub fn reset(&mut self)
        requires
            old(self).wf(),
        ensures
            final(self).wf(),
            spec_obs(*final(self)) == spec_reset_obs(spec_obs(*old(self))),
            final(self).bus.cart.header == old(self).bus.cart.header,
    {
        self.cpu.reset();
        self.bus.boot.reset();
        self.bus.cart.reset();
        self.bus.joypad.reset();
        self.bus.serial.reset();
        self.bus.timer.reset();
        self.bus.pic.reset();
        self.bus.apu = Apu::new();
        self.bus.ppu.reset();
        self.bus.dma.reset();
        proof {
            assert(spec_obs(*self) =~~= spec_reset_obs(spec_obs(*old(self))));
        }
    }

    /// Reads the byte the bus serves at `addr`.
    pub fn read(&self, addr: u16) -> (r: u8)
        requires
            self.wf(),
        ensures
            r == bus::spec_read(self.bus@, addr),
    {
        self.bus.read(addr)
    }

    /// Writes `val` at `addr` on the bus.
    pub fn write(&mut self, addr: u16, val: u8)
        requires
            old(self).wf(),
        ensures
            final(self).wf(),
            final(self).bus@ == bus::spec_write(old(self).bus@, addr, val),
            final(self).cpu == old(self).cpu,
            final(self).cycle == old(self).cycle,
    {
        self.bus.write(addr, val);
    }

    /// Advances the console one tick: the processor on every fourth tick
    /// (its machine cycle), then the PPU by one dot while the LCD runs,
    /// then the timer, then the transfer engine on machine cycles. The
    /// scanline and dot counters stay in range on every path, and a
    /// processor fault (an undefined opcode) surfaces to the host.
    pub fn cycle(&mut self) -> (r: Result<(), cpu::Error>)
        requires
            old(self).wf(),
        ensures
            final(self).wf(),
            final(self).cycle == vstd::wrapping::u64_specs::wrapping_add(old(self).cycle, 1),
            final(self).bus.ppu.ly < crate::ppu::FRAME_LINES,
            final(self).bus.ppu.dot < crate::ppu::LINE_DOTS,
            old(self).cycle % 4 != 0 ==> {
                &&& r == Ok::<(), cpu::Error>(())
                &&& final(self).cpu == old(self).cpu
                &&& final(self).bus.timer == crate::timer::spec_timer_cycle(old(self).bus.timer)
                &&& final(self).bus.dma == old(self).bus.dma
                &&& final(self).bus.cart.rom@ == old(self).bus.cart.rom@
                &&& final(self).bus.wram@ == old(self).bus.wram@
                &&& final(self).bus.hram@ == old(self).bus.hram@
                &&& ((old(self).bus@.lcd.lcdc / 128) % 2 == 0 ==> final(self).bus@
                    == spec_timer_tick_bus(old(self).bus@))
            },
            old(self).cycle % 4 == 0 ==> ({
                // The processor's machine cycle runs first, exactly per
                // its interpreter function; the timer then ticks on the
                // bus the processor left; with the LCD off the whole
                // remaining tick is the timer followed by the transfer
                // engine.
                let step = cpu::spec_cpu_cycle(old(self).cpu, old(self).bus@);
                &&& final(self).cpu == step.0
                &&& r == step.2
                &&& final(self).bus.timer == crate::timer::spec_timer_cycle(step.1.timer)
                &&& ((step.1.lcd.lcdc / 128) % 2 == 0 ==> final(self).bus@
                    == bus::spec_dma_cycle(spec_timer_tick_bus(step.1)))
            }),
    {
        let mut out: Result<(), cpu::Error> = Ok(());
        if self.cycle % 4 == 0 {
            out = self.cpu.cycle(&mut self.bus);
        }
        if self.bus.ppu.enabled() {
            ppu_tick(&mut self.bus);
        }
        timer_tick(&mut self.bus);
        if self.cycle % 4 == 0 {
            self.bus.dma_cycle();
        }
        self.cycle = self.cycle.wrapping_add(1);
        out
    }

    /// Replaces the joypad sample with `btns`; a newly pressed selected
    /// button requests the joypad interrupt.
    pub fn send(&mut self, btns: &Vec<Button>)
        requires
            old(self).wf(),
        ensures
            final(self).wf(),
            final(self).bus.joypad.keys == crate::joypad::spec_keys_of(btns@),
    {
        let bus = &mut self.bus;
        bus.joypad.recv(btns, &mut bus.pic);
    }

    /// The console can do useful work: the processor is running or an
    /// interrupt is pending to wake it.
    pub fn enabled(&self) -> (r: bool)
        ensures
            r == (!self.cpu.halted || crate::pic::spec_pending(self.bus.pic)),
    {
        self.cpu.enabled(&self.bus)
    }

    /// The console can do useful work; how the web embedding asks
    /// [`GameBoy::enabled`].
    pub fn ready(&self) -> (r: bool)
        ensures
            r == (!self.cpu.halted || crate::pic::spec_pending(self.bus.pic)),
    {
        self.cpu.enabled(&self.bus)
    }

    /// Takes the completed frame, if one awaits redraw, colorized through
    /// the fixed palette.
    pub fn redraw(&mut self) -> (r: Option<Vec<u32>>)
        requires
            old(self).wf(),
        ensures
            final(self).wf(),
            r is Some <==> old(self).bus.ppu.frame,
            !final(self).bus.ppu.frame,
            r matches Some(buf) ==> {
                &&& buf@.len() == old(self).bus.ppu.fbuf@.len()
                &&& forall|i: int|
                    0 <= i < buf@.len() ==> buf@[i] == spec_palette(
                        old(self).bus.ppu.fbuf@[i],
                    )
            },
            final(self).bus.ppu.fbuf@ == old(self).bus.ppu.fbuf@,
            final(self).cpu == old(self).cpu,
    {
        if !self.bus.ppu.refresh() {
            return None;
        }
        let n = self.bus.ppu.fbuf.len();
        let mut buf: Vec<u32> = Vec::new();
        let mut i: usize = 0;
        while i < n
            invariant
                i <= n,
                n == self.bus.ppu.fbuf@.len(),
                self == old(self),
                buf@.len() == i,
                forall|j: int|
                    0 <= j < i ==> buf@[j] == spec_palette(self.bus.ppu.fbuf@[j]),
            decreases n - i,
        {
            buf.push(palette(self.bus.ppu.fbuf[i]));
            i = i + 1;
        }
        self.bus.ppu.frame = false;
        Some(buf)
    }
}

/// One PPU dot; only the PPU and the interrupt requests change.
fn ppu_tick(bus: &mut Bus)
    requires
        old(bus).wf(),
    ensures
        final(bus).wf(),
        final(bus).timer == old(bus).timer,
        final(bus).dma == old(bus).dma,
        final(bus).cart == old(bus).cart,
        final(bus).wram == old(bus).wram,
        final(bus).hram == old(bus).hram,
        final(bus).joypad == old(bus).joypad,
        final(bus).serial == old(bus).serial,
        final(bus).boot == old(bus).boot,
        final(bus).apu == old(bus).apu,
        final(bus).pic.enable == old(bus).pic.enable,
{
    let b = bus;
    let ppu = &mut b.ppu;
    let pic = &mut b.pic;
    ppu.cycle(pic);
}

/// One timer tick; only the timer and the interrupt requests change.
fn timer_tick(bus: &mut Bus)
    requires
        old(bus).wf(),
    ensures
        final(bus).wf(),
        final(bus).timer == crate::timer::spec_timer_cycle(old(bus).timer),
        final(bus)@ == spec_timer_tick_bus(old(bus)@),
        final(bus).dma == old(bus).dma,
        final(bus).cart == old(bus).cart,
        final(bus).wram == old(bus).wram,
        final(bus).hram == old(bus).hram,
        final(bus).joypad == old(bus).joypad,
        final(bus).serial == old(bus).serial,
        final(bus).boot == old(bus).boot,
        final(bus).apu == old(bus).apu,
        final(bus).ppu == old(bus).ppu,
        final(bus).pic.enable == old(bus).pic.enable,
{
    let b = bus;
    let timer = &mut b.timer;
    let pic = &mut b.pic;
    timer.cycle(pic);
}

} // verus!
