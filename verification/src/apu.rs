//! Audio processing unit.
//!
//! Audio register I/O appears on the bus as memory-mapped state: a 23-byte
//! control block at `0xff10..0xff27` and 16 bytes of waveform RAM at
//! `0xff30..0xff40`. Sound synthesis itself is outside the core.

use vstd::prelude::*;

verus! {

/// Length of the control block.
pub const CTL_LEN: usize = 0x17;

/// Length of the waveform RAM.
pub const WAVE_LEN: usize = 0x10;

/// Audio registers as memory-mapped state.
#[derive(Clone, Debug)]
pub struct Apu {
    /// Control registers `NR10..NR52` (`0xff10..0xff27`).
    pub ctl: Vec<u8>,
    /// Waveform RAM (`0xff30..0xff40`).
    pub wave: Vec<u8>,
}

impl Apu {
    /// Buffer sizes match their bus windows.
    pub open spec fn wf(self) -> bool {
        self.ctl@.len() == CTL_LEN && self.wave@.len() == WAVE_LEN
    }

    /// An APU with cleared registers.
    pub fn new() -> (r: Apu)
        ensures
            r.wf(),
            r.ctl@ == Seq::new(CTL_LEN as nat, |i: int| 0u8),
            r.wave@ == Seq::new(WAVE_LEN as nat, |i: int| 0u8),
    {
        let a = Apu { ctl: vec![0u8; CTL_LEN], wave: vec![0u8; WAVE_LEN] };
        proof {
            assert(a.ctl@ =~= Seq::new(CTL_LEN as nat, |i: int| 0u8));
            assert(a.wave@ =~= Seq::new(WAVE_LEN as nat, |i: int| 0u8));
        }
        a
    }

    /// Reads control byte `off`.
    pub fn read_ctl(&self, off: u16) -> (r: u8)
        requires
            self.wf(),
            off < CTL_LEN,
        ensures
            r == self.ctl@[off as int],
    {
        self.ctl[off as usize]
    }

    /// Writes control byte `off`.
    pub fn write_ctl(&mut self, off: u16, v: u8)
        requires
            old(self).wf(),
            off < CTL_LEN,
        ensures
            final(self).wf(),
            final(self).ctl@ == old(self).ctl@.update(off as int, v),
            final(self).wave@ == old(self).wave@,
    {
        self.ctl[off as usize] = v;
    }

    /// Reads waveform byte `off`.
    pub fn read_wave(&self, off: u16) -> (r: u8)
        requires
            self.wf(),
            off < WAVE_LEN,
        ensures
            r == self.wave@[off as int],
    {
        self.wave[off as usize]
    }

    /// Writes waveform byte `off`.
    pub fn write_wave(&mut self, off: u16, v: u8)
        requires
            old(self).wf(),
            off < WAVE_LEN,
        ensures
            final(self).wf(),
            final(self).wave@ == old(self).wave@.update(off as int, v),
            final(self).ctl@ == old(self).ctl@,
    {
        self.wave[off as usize] = v;
    }
}

} // verus!
