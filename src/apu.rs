use vstd::prelude::*;
use crate::mmu::{GbcMmu, MmuState};

verus! {

pub const NR30_REGISTER_ADDRESS: u16 = 0xFF1A;
pub const NR31_REGISTER_ADDRESS: u16 = 0xFF1B;
pub const NR32_REGISTER_ADDRESS: u16 = 0xFF1C;
pub const NR33_REGISTER_ADDRESS: u16 = 0xFF1D;
pub const NR34_REGISTER_ADDRESS: u16 = 0xFF1E;
pub const WAVE_RAM_ADDRESS: u16 = 0xFF30;
pub const WAVE_RAM_SIZE: usize = 16;

/// The settings of the wave channel, as NR30-NR34 and wave RAM hold them.
pub struct WaveChannel {
    pub enable: bool,
    pub sound_length: u8,
    /// The output level, NR32 bits 6-5.
    pub volume: u8,
    /// The 11-bit frequency divider: NR33 and NR34 bits 2-0.
    pub frequency: u16,
    pub trigger: bool,
    pub length_enable: bool,
    /// 32 4-bit samples, two per byte.
    pub wave_samples: Vec<u8>,
}

/// The wave channel that bus `m` configures.
pub open spec fn wave_channel_of(c: &WaveChannel, m: MmuState) -> bool {
    let nr34 = m.read_unprotected(NR34_REGISTER_ADDRESS);
    &&& c.enable == ((m.read_unprotected(NR30_REGISTER_ADDRESS) >> 7u8) % 2 == 1)
    &&& c.sound_length == m.read_unprotected(NR31_REGISTER_ADDRESS)
    &&& c.volume == (m.read_unprotected(NR32_REGISTER_ADDRESS) >> 5u8) % 4
    &&& c.frequency == m.read_unprotected(NR33_REGISTER_ADDRESS) as int + (nr34 % 8) as int * 256
    &&& c.trigger == ((nr34 >> 7u8) % 2 == 1)
    &&& c.length_enable == ((nr34 >> 6u8) % 2 == 1)
    &&& c.wave_samples@.len() == WAVE_RAM_SIZE
    &&& forall|i: int|
        0 <= i < WAVE_RAM_SIZE ==> c.wave_samples@[i] == m.read_unprotected(
            (WAVE_RAM_ADDRESS + i) as u16,
        )
}

impl WaveChannel {
    /// Reads the wave channel's settings from NR30-NR34 and wave RAM.
    pub fn prepare_wave_channel(memory: &GbcMmu) -> (r: WaveChannel)
        requires
            memory@.wf(),
        ensures
            wave_channel_of(&r, memory@),
    {
        let nr34 = memory.read_unprotected(NR34_REGISTER_ADDRESS);
        let mut wave_samples: Vec<u8> = Vec::new();
        let mut i: u16 = 0;
        while i < WAVE_RAM_SIZE as u16
            invariant
                i <= WAVE_RAM_SIZE,
                memory@.wf(),
                wave_samples@.len() == i,
                forall|k: int|
                    0 <= k < i ==> wave_samples@[k] == memory@.read_unprotected(
                        (WAVE_RAM_ADDRESS + k) as u16,
                    ),
            decreases WAVE_RAM_SIZE - i,
        {
            wave_samples.push(memory.read_unprotected(WAVE_RAM_ADDRESS + i));
            i = i + 1;
        }
        WaveChannel {
            enable: (memory.read_unprotected(NR30_REGISTER_ADDRESS) >> 7u8) % 2 == 1,
            sound_length: memory.read_unprotected(NR31_REGISTER_ADDRESS),
            volume: (memory.read_unprotected(NR32_REGISTER_ADDRESS) >> 5u8) % 4,
            frequency: memory.read_unprotected(NR33_REGISTER_ADDRESS) as u16 + (nr34 % 8) as u16
                * 256,
            trigger: (nr34 >> 7u8) % 2 == 1,
            length_enable: (nr34 >> 6u8) % 2 == 1,
            wave_samples,
        }
    }
}

} // verus!
