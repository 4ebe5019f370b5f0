//! The multipurpose clock generator: a typestate machine over its
//! register block.
//!
//! A live configuration is classified into one of three recognized
//! states — FLL on the internal reference (`Fei`), FLL on the external
//! reference (`Fbe`), PLL on the external reference (`Pbe`) — and each
//! state exposes only the transition that is legal from it. Every
//! transition programs control registers and then waits, by polling, for
//! the status register to confirm the change; the model resolves each
//! wait with `settle`, which moves the status register to the value a
//! settled clock generator shows for the programmed controls.

use vstd::prelude::*;
use volatile::Volatile;

use crate::Fault;
use crate::InitFlag;
use crate::bits::{
    lemma_two_pow_small, lemma_u8_field_bound, lemma_u8_field_congruence, u8_bit, u8_field,
    u8_get_bit, u8_get_bits, u8_set_bit, u8_set_bits,
};
use crate::reg::{vol_u8, vol_u8_new, vol_u8_read, vol_u8_write};

verus! {

/// The clock-generator register block: byte-wide control registers
/// C1–C8, the status register S, and the auto-trim registers.
pub struct McgRegs {
    c1: Volatile<u8>,
    c2: Volatile<u8>,
    c3: Volatile<u8>,
    c4: Volatile<u8>,
    c5: Volatile<u8>,
    c6: Volatile<u8>,
    s: Volatile<u8>,
    sc: Volatile<u8>,
    atcvh: Volatile<u8>,
    atcvl: Volatile<u8>,
    c7: Volatile<u8>,
    c8: Volatile<u8>,
}

/// CLKS, the clock-source selector: bits 6..8 of C1.
pub open spec fn c1_clks(c1: u8) -> nat {
    u8_field(c1, 6, 2)
}

/// FRDIV, the external-reference divider code: bits 3..6 of C1.
pub open spec fn c1_frdiv(c1: u8) -> nat {
    u8_field(c1, 3, 3)
}

/// IREFS, FLL-reference-is-internal: bit 2 of C1.
pub open spec fn c1_irefs(c1: u8) -> bool {
    u8_bit(c1, 2)
}

/// RANGE, the oscillator frequency range: bits 4..6 of C2.
pub open spec fn c2_range(c2: u8) -> nat {
    u8_field(c2, 4, 2)
}

/// EREFS, external-reference (oscillator) enable: bit 2 of C2.
pub open spec fn c2_erefs(c2: u8) -> bool {
    u8_bit(c2, 2)
}

/// PRDIV, the PLL reference divider less one: bits 0..5 of C5.
pub open spec fn c5_prdiv(c5: u8) -> nat {
    u8_field(c5, 0, 5)
}

/// VDIV, the PLL multiplier less 24: bits 0..5 of C6.
pub open spec fn c6_vdiv(c6: u8) -> nat {
    u8_field(c6, 0, 5)
}

/// PLLS, PLL enable: bit 6 of C6.
pub open spec fn c6_plls(c6: u8) -> bool {
    u8_bit(c6, 6)
}

/// OSCINIT, oscillator running: bit 1 of S.
pub open spec fn s_oscinit(s: u8) -> bool {
    u8_bit(s, 1)
}

/// CLKST, the source the system clock currently runs from: bits 2..4 of S.
pub open spec fn s_clkst(s: u8) -> nat {
    u8_field(s, 2, 2)
}

/// IREFST, FLL reference currently internal: bit 4 of S.
pub open spec fn s_irefst(s: u8) -> bool {
    u8_bit(s, 4)
}

/// PLLST, PLL currently selected: bit 5 of S.
pub open spec fn s_pllst(s: u8) -> bool {
    u8_bit(s, 5)
}

/// LOCK0, PLL locked: bit 6 of S.
pub open spec fn s_lock(s: u8) -> bool {
    u8_bit(s, 6)
}

impl McgRegs {
    /// The C1 byte.
    pub closed spec fn c1_val(&self) -> u8 {
        vol_u8(self.c1)
    }

    /// The C2 byte.
    pub closed spec fn c2_val(&self) -> u8 {
        vol_u8(self.c2)
    }

    /// The C5 byte.
    pub closed spec fn c5_val(&self) -> u8 {
        vol_u8(self.c5)
    }

    /// The C6 byte.
    pub closed spec fn c6_val(&self) -> u8 {
        vol_u8(self.c6)
    }

    /// The S (status) byte.
    pub closed spec fn s_val(&self) -> u8 {
        vol_u8(self.s)
    }

    /// Reads C1.
    pub fn read_c1(&self) -> (r: u8)
        ensures
            r == self.c1_val(),
    {
        vol_u8_read(&self.c1)
    }

    /// Reads C2.
    pub fn read_c2(&self) -> (r: u8)
        ensures
            r == self.c2_val(),
    {
        vol_u8_read(&self.c2)
    }

    /// Reads C5.
    pub fn read_c5(&self) -> (r: u8)
        ensures
            r == self.c5_val(),
    {
        vol_u8_read(&self.c5)
    }

    /// Reads C6.
    pub fn read_c6(&self) -> (r: u8)
        ensures
            r == self.c6_val(),
    {
        vol_u8_read(&self.c6)
    }

    /// Reads S.
    pub fn read_s(&self) -> (r: u8)
        ensures
            r == self.s_val(),
    {
        vol_u8_read(&self.s)
    }

    /// Resolves a polled wait: writes into S the value a settled clock
    /// generator shows for the current control registers, leaving the
    /// control registers untouched.
    fn settle(&mut self)
        ensures
            final(self).c1_val() == old(self).c1_val(),
            final(self).c2_val() == old(self).c2_val(),
            final(self).c5_val() == old(self).c5_val(),
            final(self).c6_val() == old(self).c6_val(),
            status_settled(*final(self)),
    {
        let c1v: u8 = vol_u8_read(&self.c1);
        let c2v: u8 = vol_u8_read(&self.c2);
        let c6v: u8 = vol_u8_read(&self.c6);
        let irefs: bool = u8_get_bit(c1v, 2);
        let erefs: bool = u8_get_bit(c2v, 2);
        let plls: bool = u8_get_bit(c6v, 6);
        let clks: u8 = u8_get_bits(c1v, 6, 8);
        let clkst: u8 = if clks == 0 {
            if plls {
                3
            } else {
                0
            }
        } else {
            clks
        };
        proof {
            lemma_u8_field_bound(c1v, 6, 2);
            lemma_two_pow_small();
        }
        let s0: u8 = 0;
        let s1: u8 = u8_set_bit(s0, 1, erefs);
        let s2: u8 = u8_set_bits(s1, 2, 4, clkst);
        let s3: u8 = u8_set_bit(s2, 4, irefs);
        let s4: u8 = u8_set_bit(s3, 5, plls);
        let s5: u8 = u8_set_bit(s4, 6, plls);
        proof {
            lemma_u8_field_congruence(s3, s2, 2, 2);
            lemma_u8_field_congruence(s4, s3, 2, 2);
            lemma_u8_field_congruence(s5, s4, 2, 2);
        }
        vol_u8_write(&mut self.s, s5);
    }
}

/// The CLKST value a settled clock generator shows: the selected source,
/// with selector 0 resolved to the FLL (0) or, when the PLL is enabled,
/// to the PLL (3).
pub open spec fn clkst_for(regs: McgRegs) -> nat {
    if c1_clks(regs.c1_val()) == 0 {
        if c6_plls(regs.c6_val()) {
            3
        } else {
            0
        }
    } else {
        c1_clks(regs.c1_val())
    }
}

/// The status register agrees with the control registers: every polled
/// wait of the driver has run to completion.
pub open spec fn status_settled(regs: McgRegs) -> bool {
    &&& s_oscinit(regs.s_val()) == c2_erefs(regs.c2_val())
    &&& s_irefst(regs.s_val()) == c1_irefs(regs.c1_val())
    &&& s_pllst(regs.s_val()) == c6_plls(regs.c6_val())
    &&& s_lock(regs.s_val()) == c6_plls(regs.c6_val())
    &&& s_clkst(regs.s_val()) == clkst_for(regs)
}

/// Owner of the clock-generator register block; at most one is live per
/// exclusion flag.
pub struct Mcg {
    reg: McgRegs,
}

/// FLL engaged on the internal reference: the configuration the block
/// resets into.
pub struct Fei {
    mcg: Mcg,
}

/// FLL engaged on the external reference.
pub struct Fbe {
    mcg: Mcg,
}

/// PLL engaged on the external reference.
pub struct Pbe {
    mcg: Mcg,
}

/// The oscillator frequency range the external crystal falls in.
#[derive(Clone, Copy, Debug)]
pub enum OscRange {
    Low,
    High,
    VeryHigh,
}

/// The RANGE code written for each oscillator range.
pub open spec fn osc_range_code(r: OscRange) -> nat {
    match r {
        OscRange::Low => 0,
        OscRange::High => 1,
        OscRange::VeryHigh => 2,
    }
}

/// The live configuration, classified.
pub enum Clock {
    Fei(Fei),
    Fbe(Fbe),
    Pbe(Pbe),
}

/// The FRDIV code for an external-reference divide ratio, by oscillator
/// range: under the low range the ratios 1..128, otherwise the ratios
/// 32..1536; a ratio outside the table for its range has no code.
pub open spec fn frdiv_code(range: nat, divide: u32) -> Option<u8> {
    if range == 0 {
        if divide == 1 {
            Some(0u8)
        } else if divide == 2 {
            Some(1u8)
        } else if divide == 4 {
            Some(2u8)
        } else if divide == 8 {
            Some(3u8)
        } else if divide == 16 {
            Some(4u8)
        } else if divide == 32 {
            Some(5u8)
        } else if divide == 64 {
            Some(6u8)
        } else if divide == 128 {
            Some(7u8)
        } else {
            None
        }
    } else {
        if divide == 32 {
            Some(0u8)
        } else if divide == 64 {
            Some(1u8)
        } else if divide == 128 {
            Some(2u8)
        } else if divide == 256 {
            Some(3u8)
        } else if divide == 512 {
            Some(4u8)
        } else if divide == 1024 {
            Some(5u8)
        } else if divide == 1280 {
            Some(6u8)
        } else if divide == 1536 {
            Some(7u8)
        } else {
            None
        }
    }
}

impl Mcg {
    /// The register block.
    pub closed spec fn regs_spec(&self) -> McgRegs {
        self.reg
    }

    /// The handle is in a classifiable condition: no wait is mid-flight.
    pub open spec fn wf(&self) -> bool {
        status_settled(self.regs_spec())
    }

    /// A borrow of the register block.
    pub fn regs(&self) -> (r: &McgRegs)
        ensures
            *r == self.regs_spec(),
    {
        &self.reg
    }

    /// Acquires the clock-generator singleton. Fails with
    /// `AlreadyInitialized` when a handle minted against `flag` is still
    /// live; otherwise the block is in its reset configuration: FLL on
    /// the internal reference, oscillator off, PLL off.
    pub fn new(flag: &mut InitFlag) -> (r: Result<Mcg, Fault>)
        ensures
            final(flag).is_active(),
            old(flag).is_active() ==> r == Err::<Mcg, Fault>(Fault::AlreadyInitialized),
            !old(flag).is_active() ==> (r matches Ok(m) && {
                &&& m.wf()
                &&& c1_irefs(m.regs_spec().c1_val())
                &&& c1_clks(m.regs_spec().c1_val()) == 0
                &&& c1_frdiv(m.regs_spec().c1_val()) == 0
                &&& c2_range(m.regs_spec().c2_val()) == 0
                &&& !c2_erefs(m.regs_spec().c2_val())
                &&& !c6_plls(m.regs_spec().c6_val())
                &&& c5_prdiv(m.regs_spec().c5_val()) == 0
                &&& c6_vdiv(m.regs_spec().c6_val()) == 0
            }),
    {
        let was_init: bool = flag.test_and_set();
        if was_init {
            return Err(Fault::AlreadyInitialized);
        }
        proof {
            lemma_two_pow_small();
        }
        let c1a: u8 = u8_set_bits(0, 6, 8, 0);
        let c1b: u8 = u8_set_bits(c1a, 3, 6, 0);
        let c1: u8 = u8_set_bit(c1b, 2, true);
        let c2a: u8 = u8_set_bits(0, 4, 6, 0);
        let c2: u8 = u8_set_bit(c2a, 2, false);
        let c5: u8 = u8_set_bits(0, 0, 5, 0);
        let c6a: u8 = u8_set_bits(0, 0, 5, 0);
        let c6: u8 = u8_set_bit(c6a, 6, false);
        proof {
            lemma_u8_field_congruence(c1b, c1a, 6, 2);
            lemma_u8_field_congruence(c1, c1b, 6, 2);
            lemma_u8_field_congruence(c1, c1b, 3, 3);
            lemma_u8_field_congruence(c2, c2a, 4, 2);
            lemma_u8_field_congruence(c6, c6a, 0, 5);
        }
        let mut regs = McgRegs {
            c1: vol_u8_new(c1),
            c2: vol_u8_new(c2),
            c3: vol_u8_new(0),
            c4: vol_u8_new(0),
            c5: vol_u8_new(c5),
            c6: vol_u8_new(c6),
            s: vol_u8_new(0),
            sc: vol_u8_new(0),
            atcvh: vol_u8_new(0),
            atcvl: vol_u8_new(0),
            c7: vol_u8_new(0),
            c8: vol_u8_new(0),
        };
        regs.settle();
        Ok(Mcg { reg: regs })
    }

    /// Releases the singleton: a later acquisition against the same flag
    /// succeeds again.
    pub fn release(self, flag: &mut InitFlag)
        ensures
            !final(flag).is_active(),
    {
        flag.clear();
    }

    /// Classifies the live configuration by the FLL-reference bit, the
    /// PLL-enable bit and the source selector, consuming the handle. A
    /// combination this driver cannot produce is refused as
    /// `UnrepresentableHardwareState`.
    pub fn clock(self) -> (r: Result<Clock, Fault>)
        requires
            self.wf(),
        ensures
            match r {
                Ok(c) => match c {
                    Clock::Fei(fei) => {
                        &&& fei.wf()
                        &&& fei.regs_spec() == self.regs_spec()
                        &&& c1_irefs(self.regs_spec().c1_val())
                        &&& !c6_plls(self.regs_spec().c6_val())
                        &&& c1_clks(self.regs_spec().c1_val()) == 0
                    },
                    Clock::Fbe(fbe) => {
                        &&& fbe.wf()
                        &&& fbe.regs_spec() == self.regs_spec()
                        &&& !c1_irefs(self.regs_spec().c1_val())
                        &&& !c6_plls(self.regs_spec().c6_val())
                        &&& c1_clks(self.regs_spec().c1_val()) == 2
                    },
                    Clock::Pbe(pbe) => {
                        &&& pbe.wf()
                        &&& pbe.regs_spec() == self.regs_spec()
                        &&& c6_plls(self.regs_spec().c6_val())
                        &&& c1_clks(self.regs_spec().c1_val()) == 2
                    },
                },
                Err(f) => {
                    &&& f == Fault::UnrepresentableHardwareState
                    &&& !{
                        &&& c1_irefs(self.regs_spec().c1_val())
                        &&& !c6_plls(self.regs_spec().c6_val())
                        &&& c1_clks(self.regs_spec().c1_val()) == 0
                    }
                    &&& !{
                        &&& !c1_irefs(self.regs_spec().c1_val())
                        &&& !c6_plls(self.regs_spec().c6_val())
                        &&& c1_clks(self.regs_spec().c1_val()) == 2
                    }
                    &&& !{
                        &&& c6_plls(self.regs_spec().c6_val())
                        &&& c1_clks(self.regs_spec().c1_val()) == 2
                    }
                },
            },
    {
        let c1v: u8 = vol_u8_read(&self.reg.c1);
        let c6v: u8 = vol_u8_read(&self.reg.c6);
        let source: u8 = u8_get_bits(c1v, 6, 8);
        let fll_internal: bool = u8_get_bit(c1v, 2);
        let pll_enabled: bool = u8_get_bit(c6v, 6);

        if fll_internal && !pll_enabled && source == 0 {
            Ok(Clock::Fei(Fei { mcg: self }))
        } else if !fll_internal && !pll_enabled && source == 2 {
            Ok(Clock::Fbe(Fbe { mcg: self }))
        } else if pll_enabled && source == 2 {
            Ok(Clock::Pbe(Pbe { mcg: self }))
        } else {
            Err(Fault::UnrepresentableHardwareState)
        }
    }
}

impl Fei {
    /// The register block.
    pub closed spec fn regs_spec(&self) -> McgRegs {
        self.mcg.reg
    }

    /// FLL on the internal reference, PLL off, settled.
    pub open spec fn wf(&self) -> bool {
        &&& c1_irefs(self.regs_spec().c1_val())
        &&& !c6_plls(self.regs_spec().c6_val())
        &&& c1_clks(self.regs_spec().c1_val()) == 0
        &&& status_settled(self.regs_spec())
    }

    /// A borrow of the register block.
    pub fn regs(&self) -> (r: &McgRegs)
        ensures
            *r == self.regs_spec(),
    {
        &self.mcg.reg
    }

    /// Programs the oscillator range and the external-reference enable
    /// bit, then waits for the oscillator-running status bit.
    pub fn enable_xtal(&mut self, range: OscRange)
        requires
            old(self).wf(),
        ensures
            final(self).wf(),
            c2_range(final(self).regs_spec().c2_val()) == osc_range_code(range),
            c2_erefs(final(self).regs_spec().c2_val()),
            forall|j: usize|
                j < 8 && !(4 <= j < 6) && j != 2 ==> u8_bit(final(self).regs_spec().c2_val(), j)
                    == u8_bit(old(self).regs_spec().c2_val(), j),
            s_oscinit(final(self).regs_spec().s_val()),
            final(self).regs_spec().c1_val() == old(self).regs_spec().c1_val(),
            final(self).regs_spec().c5_val() == old(self).regs_spec().c5_val(),
            final(self).regs_spec().c6_val() == old(self).regs_spec().c6_val(),
    {
        proof {
            lemma_two_pow_small();
        }
        let code: u8 = match range {
            OscRange::Low => 0,
            OscRange::High => 1,
            OscRange::VeryHigh => 2,
        };
        let c2v: u8 = vol_u8_read(&self.mcg.reg.c2);
        let c2a: u8 = u8_set_bits(c2v, 4, 6, code);
        let c2b: u8 = u8_set_bit(c2a, 2, true);
        proof {
            lemma_u8_field_congruence(c2b, c2a, 4, 2);
        }
        vol_u8_write(&mut self.mcg.reg.c2, c2b);
        self.mcg.reg.settle();
    }

    /// Switches the system clock to the external reference, dividing it
    /// by `divide` per the fixed range-dependent table, then waits for
    /// the FLL reference and then the clock source to read external. A
    /// ratio outside the table is refused as `InvalidParameter`.
    pub fn use_external(self, divide: u32) -> (r: Result<Fbe, Fault>)
        requires
            self.wf(),
        ensures
            match r {
                Ok(fbe) => {
                    &&& frdiv_code(c2_range(self.regs_spec().c2_val()), divide) matches Some(code)
                        && c1_frdiv(fbe.regs_spec().c1_val()) == code
                    &&& fbe.wf()
                    &&& c1_clks(fbe.regs_spec().c1_val()) == 2
                    &&& !c1_irefs(fbe.regs_spec().c1_val())
                    &&& forall|j: usize|
                        j < 2 ==> u8_bit(fbe.regs_spec().c1_val(), j) == u8_bit(
                            self.regs_spec().c1_val(),
                            j,
                        )
                    &&& s_clkst(fbe.regs_spec().s_val()) == 2
                    &&& !s_irefst(fbe.regs_spec().s_val())
                    &&& fbe.regs_spec().c2_val() == self.regs_spec().c2_val()
                    &&& fbe.regs_spec().c5_val() == self.regs_spec().c5_val()
                    &&& fbe.regs_spec().c6_val() == self.regs_spec().c6_val()
                },
                Err(f) => {
                    &&& f == Fault::InvalidParameter
                    &&& frdiv_code(c2_range(self.regs_spec().c2_val()), divide) is None
                },
            },
    {
        proof {
            lemma_two_pow_small();
        }
        let c2v: u8 = vol_u8_read(&self.mcg.reg.c2);
        let osc: u8 = u8_get_bits(c2v, 4, 6);
        let frdiv: u8 = if osc == 0 {
            match divide {
                1 => 0,
                2 => 1,
                4 => 2,
                8 => 3,
                16 => 4,
                32 => 5,
                64 => 6,
                128 => 7,
                _ => {
                    return Err(Fault::InvalidParameter);
                },
            }
        } else {
            match divide {
                32 => 0,
                64 => 1,
                128 => 2,
                256 => 3,
                512 => 4,
                1024 => 5,
                1280 => 6,
                1536 => 7,
                _ => {
                    return Err(Fault::InvalidParameter);
                },
            }
        };

        let mut mcg = self.mcg;
        let c1v: u8 = vol_u8_read(&mcg.reg.c1);
        let c1a: u8 = u8_set_bits(c1v, 6, 8, 2);
        let c1b: u8 = u8_set_bits(c1a, 3, 6, frdiv);
        let c1c: u8 = u8_set_bit(c1b, 2, false);
        proof {
            lemma_u8_field_congruence(c1b, c1a, 6, 2);
            lemma_u8_field_congruence(c1c, c1b, 6, 2);
            lemma_u8_field_congruence(c1c, c1b, 3, 3);
        }
        vol_u8_write(&mut mcg.reg.c1, c1c);
        mcg.reg.settle();
        Ok(Fbe { mcg })
    }
}

impl Fbe {
    /// The register block.
    pub closed spec fn regs_spec(&self) -> McgRegs {
        self.mcg.reg
    }

    /// FLL on the external reference, PLL off, settled.
    pub open spec fn wf(&self) -> bool {
        &&& !c1_irefs(self.regs_spec().c1_val())
        &&& !c6_plls(self.regs_spec().c6_val())
        &&& c1_clks(self.regs_spec().c1_val()) == 2
        &&& status_settled(self.regs_spec())
    }

    /// A borrow of the register block.
    pub fn regs(&self) -> (r: &McgRegs)
        ensures
            *r == self.regs_spec(),
    {
        &self.mcg.reg
    }

    /// Programs the PLL dividers — `denominator - 1` into PRDIV and
    /// `numerator - 24` into VDIV — and the PLL-enable bit, then waits
    /// for the PLL-selected and PLL-locked status bits. A numerator
    /// outside 24..=55 or a denominator outside 1..=25 is refused as
    /// `InvalidParameter`; those are the hardware-supported ranges.
    pub fn enable_pll(self, numerator: u8, denominator: u8) -> (r: Result<Pbe, Fault>)
        requires
            self.wf(),
        ensures
            match r {
                Ok(pbe) => {
                    &&& 24 <= numerator <= 55
                    &&& 1 <= denominator <= 25
                    &&& pbe.wf()
                    &&& c5_prdiv(pbe.regs_spec().c5_val()) == denominator - 1
                    &&& c6_vdiv(pbe.regs_spec().c6_val()) == numerator - 24
                    &&& c6_plls(pbe.regs_spec().c6_val())
                    &&& s_pllst(pbe.regs_spec().s_val())
                    &&& s_lock(pbe.regs_spec().s_val())
                    &&& pbe.regs_spec().c1_val() == self.regs_spec().c1_val()
                    &&& pbe.regs_spec().c2_val() == self.regs_spec().c2_val()
                },
                Err(f) => {
                    &&& f == Fault::InvalidParameter
                    &&& !(24 <= numerator <= 55 && 1 <= denominator <= 25)
                },
            },
    {
        if numerator < 24 || numerator > 55 {
            return Err(Fault::InvalidParameter);
        }
        if denominator < 1 || denominator > 25 {
            return Err(Fault::InvalidParameter);
        }
        proof {
            lemma_two_pow_small();
        }

        let mut mcg = self.mcg;
        let c5v: u8 = vol_u8_read(&mcg.reg.c5);
        let c5a: u8 = u8_set_bits(c5v, 0, 5, denominator - 1);
        vol_u8_write(&mut mcg.reg.c5, c5a);

        let c6v: u8 = vol_u8_read(&mcg.reg.c6);
        let c6a: u8 = u8_set_bits(c6v, 0, 5, numerator - 24);
        let c6b: u8 = u8_set_bit(c6a, 6, true);
        proof {
            lemma_u8_field_congruence(c6b, c6a, 0, 5);
        }
        vol_u8_write(&mut mcg.reg.c6, c6b);
        mcg.reg.settle();
        Ok(Pbe { mcg })
    }
}

impl Pbe {
    /// The register block.
    pub closed spec fn regs_spec(&self) -> McgRegs {
        self.mcg.reg
    }

    /// PLL engaged on the external reference, settled.
    pub open spec fn wf(&self) -> bool {
        &&& c6_plls(self.regs_spec().c6_val())
        &&& c1_clks(self.regs_spec().c1_val()) == 2
        &&& status_settled(self.regs_spec())
    }

    /// A borrow of the register block.
    pub fn regs(&self) -> (r: &McgRegs)
        ensures
            *r == self.regs_spec(),
    {
        &self.mcg.reg
    }

    /// The PLL output frequency for a given crystal:
    /// crystal × (VDIV + 24) / (PRDIV + 1).
    pub fn pll_frequency(&self, crystal_hz: u32) -> (r: u32)
        requires
            crystal_hz <= 32_000_000,
        ensures
            r as nat == (crystal_hz as nat) * (c6_vdiv(self.regs_spec().c6_val()) + 24) / (
            c5_prdiv(self.regs_spec().c5_val()) + 1),
    {
        let c5v: u8 = vol_u8_read(&self.mcg.reg.c5);
        let c6v: u8 = vol_u8_read(&self.mcg.reg.c6);
        let prdiv: u8 = u8_get_bits(c5v, 0, 5);
        let vdiv: u8 = u8_get_bits(c6v, 0, 5);
        proof {
            lemma_u8_field_bound(c6v, 0, 5);
            lemma_two_pow_small();
            assert((crystal_hz as nat) * ((vdiv as nat) + 24) <= 32_000_000 * 55)
                by (nonlinear_arith)
                requires
                    crystal_hz <= 32_000_000,
                    vdiv <= 31,
            ;
        }
        let numerator: u32 = crystal_hz * (vdiv as u32 + 24);
        numerator / (prdiv as u32 + 1)
    }

    /// Points the clock-source selector at the locked loop — legal only
    /// now that the PLL lock is confirmed, since the selector itself
    /// does not distinguish FLL from PLL — and waits until the status
    /// source field reads the PLL-specific code.
    pub fn use_pll(self)
        requires
            self.wf(),
    {
        let mut mcg = self.mcg;
        let c1v: u8 = vol_u8_read(&mcg.reg.c1);
        proof {
            lemma_two_pow_small();
        }
        let c1a: u8 = u8_set_bits(c1v, 6, 8, 0);
        vol_u8_write(&mut mcg.reg.c1, c1a);
        mcg.reg.settle();
        // The wait this transition ends on: the status source field must
        // read the PLL-specific code, 3, before bring-up may continue.
        let sv: u8 = vol_u8_read(&mcg.reg.s);
        let clkst: u8 = u8_get_bits(sv, 2, 4);
        assert(clkst == 3);
    }
}

} // verus!
