//! The CPUID register block: processor features and cache geometry.
use vstd::prelude::*;

use crate::volatile::RO;
use crate::volatile::RW;

verus! {

const CSSELR_IND_POS: u32 = 0;
const CSSELR_IND_MASK: u32 = 0x1;
const CSSELR_LEVEL_POS: u32 = 1;
const CSSELR_LEVEL_MASK: u32 = 0xE;
const CCSIDR_NUMSETS_POS: u32 = 13;
const CCSIDR_NUMSETS_MASK: u32 = 0x0FFF_E000;
const CCSIDR_ASSOCIATIVITY_POS: u32 = 3;
const CCSIDR_ASSOCIATIVITY_MASK: u32 = 0x1FF8;
const CTR_DMINLINE_POS: u32 = 16;
const CTR_DMINLINE_MASK: u32 = 0xF_0000;
const CTR_IMINLINE_MASK: u32 = 0xF;

/// Register block.
pub struct RegisterBlock {
    /// CPUID base.
    pub base: RO<u32>,
    /// Processor Feature.
    pub pfr: [RO<u32>; 2],
    /// Debug Feature.
    pub dfr: RO<u32>,
    /// Auxiliary Feature.
    pub afr: RO<u32>,
    /// Memory Model Feature.
    pub mmfr: [RO<u32>; 4],
    /// Instruction Set Attribute.
    pub isar: [RO<u32>; 5],
    /// Cache Level ID.
    pub clidr: RO<u32>,
    /// Cache Type.
    pub ctr: RO<u32>,
    /// Cache Size ID of the cache that `csselr` selects.
    pub ccsidr: RO<u32>,
    /// Cache Size Selection.
    pub csselr: RW<u32>,
}

/// Type of cache to select on CSSELR writes.
#[derive(Copy, Clone, Debug, PartialEq, Eq)]
pub enum CsselrCacheType {
    /// Select DCache or unified cache.
    DataOrUnified,
    /// Select ICache.
    Instruction,
}

/// The CSSELR indicator bit of a cache type.
pub open spec fn cache_type_bit(ind: CsselrCacheType) -> u32 {
    match ind {
        CsselrCacheType::DataOrUnified => 0,
        CsselrCacheType::Instruction => 1,
    }
}

/// The CSSELR word that selects cache `level` (masked to 0..=7) of type
/// `ind`: the level in bits 1 to 3, the type in bit 0.
pub open spec fn csselr_value(level: u8, ind: CsselrCacheType) -> u32 {
    (((level as u32) & 0x7) << 1) | cache_type_bit(ind)
}

/// The number of sets of a cache, from its CCSIDR word: one more than bits
/// 13 to 27.
pub open spec fn ccsidr_num_sets(ccsidr: u32) -> int {
    ((ccsidr >> 13) & 0x7FFF) + 1
}

/// The number of ways of a cache, from its CCSIDR word: one more than bits
/// 3 to 12.
pub open spec fn ccsidr_num_ways(ccsidr: u32) -> int {
    ((ccsidr >> 3) & 0x3FF) + 1
}

/// The CPUID peripheral.
pub struct CPUID {
    /// Its registers.
    pub regs: RegisterBlock,
}

impl CPUID {
    /// Selects the current CCSIDR.
    ///
    /// * `level`: the required cache level minus 1, e.g. 0 for L1, 1 for L2
    /// * `ind`: select instruction cache or data/unified cache
    ///
    /// `level` is masked to be between 0 and 7.
    pub fn select_cache(&mut self, level: u8, ind: CsselrCacheType)
        ensures
            final(self).regs.csselr@ == csselr_value(level, ind),
            final(self).regs.ccsidr@ == old(self).regs.ccsidr@,
            final(self).regs.ctr@ == old(self).regs.ctr@,
    {
        let ind_bit: u32 = match ind {
            CsselrCacheType::DataOrUnified => 0,
            CsselrCacheType::Instruction => 1,
        };
        let l = level as u32;
        let word = ((l << CSSELR_LEVEL_POS) & CSSELR_LEVEL_MASK) | ((ind_bit << CSSELR_IND_POS)
            & CSSELR_IND_MASK);
        assert(((l << 1u32) & 0xEu32) | ((ind_bit << 0u32) & 1u32) == ((l & 7u32) << 1u32)
            | ind_bit) by (bit_vector)
            requires
                ind_bit <= 1,
        ;
        self.regs.csselr.write(word);
    }

    /// Returns the number of sets and ways in the selected cache.
    pub fn cache_num_sets_ways(&mut self, level: u8, ind: CsselrCacheType) -> (r: (u16, u16))
        ensures
            final(self).regs.csselr@ == csselr_value(level, ind),
            r.0 == ccsidr_num_sets(old(self).regs.ccsidr@),
            r.1 == ccsidr_num_ways(old(self).regs.ccsidr@),
    {
        self.select_cache(level, ind);
        let ccsidr = self.regs.ccsidr.read();
        let sets = (ccsidr & CCSIDR_NUMSETS_MASK) >> CCSIDR_NUMSETS_POS;
        let ways = (ccsidr & CCSIDR_ASSOCIATIVITY_MASK) >> CCSIDR_ASSOCIATIVITY_POS;
        assert((ccsidr & 0x0FFF_E000u32) >> 13u32 == (ccsidr >> 13u32) & 0x7FFFu32
            && (ccsidr >> 13u32) & 0x7FFFu32 <= 0x7FFFu32) by (bit_vector);
        assert((ccsidr & 0x1FF8u32) >> 3u32 == (ccsidr >> 3u32) & 0x3FFu32 && (ccsidr >> 3u32)
            & 0x3FFu32 <= 0x3FFu32) by (bit_vector);
        ((1 + sets) as u16, (1 + ways) as u16)
    }

    /// Returns log2 of the number of words in the smallest cache line of all
    /// the data cache and unified caches that are controlled by the
    /// processor: the `DminLine` field, bits 16 to 19, of the CTR register.
    pub fn cache_dminline(&self) -> (r: u32)
        ensures
            r == (self.regs.ctr@ >> 16) & 0xF,
    {
        let ctr = self.regs.ctr.read();
        assert((ctr & 0xF_0000u32) >> 16u32 == (ctr >> 16u32) & 0xFu32) by (bit_vector);
        (ctr & CTR_DMINLINE_MASK) >> CTR_DMINLINE_POS
    }

    /// Returns log2 of the number of words in the smallest cache line of all
    /// the instruction caches that are controlled by the processor: the
    /// `IminLine` field, bits 0 to 3, of the CTR register.
    pub fn cache_iminline(&self) -> (r: u32)
        ensures
            r == self.regs.ctr@ & 0xF,
    {
        self.regs.ctr.read() & CTR_IMINLINE_MASK
    }
}

} // verus!
