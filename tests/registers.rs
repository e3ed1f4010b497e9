use hal_core::cpuid::CsselrCacheType;
use hal_core::cpuid::RegisterBlock;
use hal_core::cpuid::CPUID;
use hal_core::volatile::VolatileCell;
use hal_core::volatile::RO;
use hal_core::volatile::RW;
use hal_core::volatile::WO;

fn cpuid(ccsidr: u32, ctr: u32) -> CPUID {
    CPUID {
        regs: RegisterBlock {
            base: RO::new(0x410F_C270),
            pfr: [RO::new(0), RO::new(0)],
            dfr: RO::new(0),
            afr: RO::new(0),
            mmfr: [RO::new(0), RO::new(0), RO::new(0), RO::new(0)],
            isar: [RO::new(0), RO::new(0), RO::new(0), RO::new(0), RO::new(0)],
            clidr: RO::new(0),
            ctr: RO::new(ctr),
            ccsidr: RO::new(ccsidr),
            csselr: RW::new(0xFFFF_FFFF),
        },
    }
}

#[test]
fn volatile_cell_get_set() {
    let mut c = VolatileCell::new(5u16);
    assert_eq!(c.get(), 5);
    c.set(6);
    assert_eq!(c.get(), 6);
}

#[test]
fn registers_read_write_modify() {
    let ro = RO::new(0x1234u32);
    assert_eq!(ro.read(), 0x1234);
    let mut rw = RW::new(1u32);
    rw.write(8);
    assert_eq!(rw.read(), 8);
    rw.modify(|v| v | 0x10);
    assert_eq!(rw.read(), 0x18);
    let mut wo = WO::new(0u8);
    wo.write(3);
}

#[test]
fn select_cache_encodes_level_and_type() {
    let mut c = cpuid(0, 0);
    c.select_cache(1, CsselrCacheType::Instruction);
    assert_eq!(c.regs.csselr.read(), 0b011);
    c.select_cache(0, CsselrCacheType::DataOrUnified);
    assert_eq!(c.regs.csselr.read(), 0);
    // the level is masked to three bits
    c.select_cache(9, CsselrCacheType::DataOrUnified);
    assert_eq!(c.regs.csselr.read(), 0b010);
}

#[test]
fn cache_num_sets_ways_decodes_ccsidr() {
    // 256 sets (field 255), 4 ways (field 3), line size bits set too
    let ccsidr = (255u32 << 13) | (3 << 3) | 0b001;
    let mut c = cpuid(ccsidr, 0);
    assert_eq!(c.cache_num_sets_ways(0, CsselrCacheType::DataOrUnified), (256, 4));
    assert_eq!(c.regs.csselr.read(), 0);
}

#[test]
fn cache_num_sets_ways_extremes() {
    let mut c = cpuid(0xFFFF_FFFF, 0);
    assert_eq!(c.cache_num_sets_ways(7, CsselrCacheType::Instruction), (0x8000, 0x400));
    assert_eq!(c.regs.csselr.read(), 0xF);
    let mut z = cpuid(0, 0);
    assert_eq!(z.cache_num_sets_ways(0, CsselrCacheType::Instruction), (1, 1));
}

#[test]
fn cache_min_lines_from_ctr() {
    let c = cpuid(0, 0x8303_C003);
    assert_eq!(c.cache_dminline(), 3);
    assert_eq!(c.cache_iminline(), 3);
    let d = cpuid(0, 0x0004_0002);
    assert_eq!(d.cache_dminline(), 4);
    assert_eq!(d.cache_iminline(), 2);
}
