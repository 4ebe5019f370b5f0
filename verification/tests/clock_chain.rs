//! The clock-generator typestate chain: classification, the divider
//! tables, the PLL bounds, and the end-to-end bring-up.

use teensy_hal::mcg::{Clock, Fbe, Fei, Mcg, OscRange};
use teensy_hal::{Fault, InitFlag};

fn fresh_fei() -> Fei {
    let mut flag = InitFlag::new();
    let mcg = Mcg::new(&mut flag).unwrap();
    match mcg.clock().unwrap() {
        Clock::Fei(fei) => fei,
        _ => panic!("a reset clock generator must classify as FLL-internal"),
    }
}

fn fresh_fbe() -> Fbe {
    let mut fei = fresh_fei();
    fei.enable_xtal(OscRange::VeryHigh);
    fei.use_external(512).unwrap()
}

#[test]
fn reset_state_classifies_as_fei() {
    let mut flag = InitFlag::new();
    let mcg = Mcg::new(&mut flag).unwrap();
    let regs = mcg.regs();
    assert_eq!(regs.read_c1(), 0x04); // IREFS set, CLKS and FRDIV clear
    assert_eq!(regs.read_c2(), 0x00);
    assert_eq!(regs.read_s(), 0x10); // IREFST set, everything else clear
    assert!(matches!(mcg.clock(), Ok(Clock::Fei(_))));
}

#[test]
fn mcg_singleton_is_exclusive_until_release() {
    let mut flag = InitFlag::new();
    let first = Mcg::new(&mut flag).unwrap();
    assert!(matches!(Mcg::new(&mut flag), Err(Fault::AlreadyInitialized)));
    first.release(&mut flag);
    assert!(Mcg::new(&mut flag).is_ok());
}

#[test]
fn enable_xtal_programs_range_and_oscillator() {
    let mut fei = fresh_fei();
    fei.enable_xtal(OscRange::VeryHigh);
    // RANGE = 2 in bits 4..6, EREFS at bit 2
    assert_eq!(fei.regs().read_c2(), 0x24);
    // status: oscillator running (bit 1), FLL reference internal (bit 4)
    assert_eq!(fei.regs().read_s(), 0x12);
}

#[test]
fn low_range_divider_table() {
    let ratios: [u32; 8] = [1, 2, 4, 8, 16, 32, 64, 128];
    for (code, ratio) in ratios.iter().enumerate() {
        let mut fei = fresh_fei();
        fei.enable_xtal(OscRange::Low);
        let fbe = fei.use_external(*ratio).unwrap();
        let c1 = fbe.regs().read_c1();
        assert_eq!((c1 >> 3) & 0x7, code as u8);
        // source selector moved to "external", IREFS cleared
        assert_eq!(c1 >> 6, 2);
        assert_eq!((c1 >> 2) & 1, 0);
    }
}

#[test]
fn high_range_divider_table() {
    let ratios: [u32; 8] = [32, 64, 128, 256, 512, 1024, 1280, 1536];
    for (code, ratio) in ratios.iter().enumerate() {
        let mut fei = fresh_fei();
        fei.enable_xtal(OscRange::High);
        let fbe = fei.use_external(*ratio).unwrap();
        assert_eq!((fbe.regs().read_c1() >> 3) & 0x7, code as u8);
    }
}

#[test]
fn divider_outside_table_is_refused() {
    for ratio in [0u32, 3, 256, 512, 1536, 2048] {
        let mut fei = fresh_fei();
        fei.enable_xtal(OscRange::Low);
        assert!(matches!(fei.use_external(ratio), Err(Fault::InvalidParameter)));
    }
    for ratio in [0u32, 1, 2, 16, 31, 48, 2048] {
        let mut fei = fresh_fei();
        fei.enable_xtal(OscRange::VeryHigh);
        assert!(matches!(fei.use_external(ratio), Err(Fault::InvalidParameter)));
    }
}

#[test]
fn use_external_settles_on_the_crystal() {
    let fbe = fresh_fbe();
    // status: oscillator running, CLKST = external (2), IREFST clear
    assert_eq!(fbe.regs().read_s(), 0x0A);
}

#[test]
fn pll_accepts_the_supported_ranges() {
    for (num, den) in [(24u8, 1u8), (24, 25), (55, 1), (55, 25), (27, 6)] {
        let fbe = fresh_fbe();
        let pbe = fbe.enable_pll(num, den).unwrap();
        assert_eq!(pbe.regs().read_c5(), den - 1);
        assert_eq!(pbe.regs().read_c6(), 0x40 | (num - 24));
    }
}

#[test]
fn pll_refuses_out_of_range_dividers() {
    for (num, den) in [(23u8, 1u8), (56, 1), (24, 0), (24, 26), (0, 0), (255, 255)] {
        let fbe = fresh_fbe();
        assert!(matches!(fbe.enable_pll(num, den), Err(Fault::InvalidParameter)));
    }
}

#[test]
fn pll_lock_is_reported() {
    let fbe = fresh_fbe();
    let pbe = fbe.enable_pll(27, 6).unwrap();
    // status: oscillator running, CLKST external, PLLST and LOCK0 set
    assert_eq!(pbe.regs().read_s(), 0x6A);
}

#[test]
fn end_to_end_sixteen_mhz_crystal_to_72_mhz() {
    let mut fei = fresh_fei();
    fei.enable_xtal(OscRange::VeryHigh);
    let fbe = fei.use_external(512).unwrap();
    let pbe = fbe.enable_pll(27, 6).unwrap();
    assert_eq!(pbe.pll_frequency(16_000_000), 72_000_000);
    pbe.use_pll();
}
