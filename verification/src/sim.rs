//! The system-integration module: singleton owner of the clock-divider
//! register and the clock-gate bit-band block.
//!
//! One bit-band word per (register, bit) pair gates one peripheral's
//! clock. `Sim` mints `ClockGate`-backed handles and refuses to gate a
//! peripheral whose gate word is already set, so no two owners ever hold
//! the same gate.

use vstd::prelude::*;
use vstd::pervasive::VecAdditionalExecFns;
use volatile::Volatile;

use crate::Fault;
use crate::InitFlag;
use crate::bits::{
    lemma_two_pow_small, lemma_u32_field_congruence, lemma_u32_zero_bit, u32_bit, u32_field,
    u32_set_bits,
};
use crate::port::{Port, PortName};
use crate::reg::{vol_u32, vol_u32_new, vol_u32_read, vol_u32_write};

verus! {

/// The index of the bit-band word that gates clock-gate register `reg`,
/// bit `bit`: one 32-bit word per gate, at byte offset
/// 128·(reg − 1) + 4·bit into the block.
pub open spec fn gate_index(reg: int, bit: int) -> int {
    (128 * (reg - 1) + 4 * bit) / 4
}

/// The clock-gate register that holds a port's gate.
pub open spec fn port_gate_reg(p: PortName) -> usize {
    match p {
        PortName::B => 5,
        PortName::C => 5,
    }
}

/// The bit that gates a port's clock within its register.
pub open spec fn port_gate_bit(p: PortName) -> usize {
    match p {
        PortName::B => 10,
        PortName::C => 11,
    }
}

/// A scoped claim of one clock gate: the peripheral's clock stays
/// enabled for as long as the handle is held, and releasing the handle
/// through `Sim::drop_gate` gates the clock back off.
pub struct ClockGate {
    reg: usize,
    bit: usize,
}

impl ClockGate {
    /// The clock-gate register this handle claims.
    pub closed spec fn reg_spec(&self) -> usize {
        self.reg
    }

    /// The bit within that register.
    pub closed spec fn bit_spec(&self) -> usize {
        self.bit
    }

    /// The coordinates lie inside the bit-band block.
    pub open spec fn wf(&self) -> bool {
        &&& 1 <= self.reg_spec() <= 7
        &&& self.bit_spec() <= 31
    }

    /// The index of this gate's word in the bit-band block.
    pub open spec fn index(&self) -> int {
        gate_index(self.reg_spec() as int, self.bit_spec() as int)
    }

    fn new(reg: usize, bit: usize) -> (r: ClockGate)
        requires
            1 <= reg <= 7,
            bit <= 31,
        ensures
            r.reg_spec() == reg,
            r.bit_spec() == bit,
    {
        ClockGate { reg, bit }
    }

    /// The word index of this gate, by the bit-band offset rule.
    pub fn word_index(&self) -> (i: usize)
        requires
            self.wf(),
        ensures
            i as int == self.index(),
            i < 224,
    {
        let offset: usize = 128 * (self.reg - 1) + 4 * self.bit;
        offset / 4
    }
}

/// Singleton owner of the system-integration register block; at most one
/// is live per exclusion flag.
pub struct Sim {
    clkdiv1: Volatile<u32>,
    gates: Vec<u32>,
}

impl Sim {
    /// The divider register.
    pub closed spec fn clkdiv1_spec(&self) -> u32 {
        vol_u32(self.clkdiv1)
    }

    /// The clock-gate bit-band words.
    pub closed spec fn gates_spec(&self) -> Seq<u32> {
        self.gates@
    }

    /// The bit-band block holds one word per gate of registers 1..=7.
    pub open spec fn wf(&self) -> bool {
        self.gates_spec().len() == 224
    }

    /// Acquires the system-integration singleton. Fails with
    /// `AlreadyInitialized` when a handle minted against `flag` is still
    /// live; otherwise the dividers are clear and every clock gate is
    /// off.
    pub fn new(flag: &mut InitFlag) -> (r: Result<Sim, Fault>)
        ensures
            final(flag).is_active(),
            old(flag).is_active() ==> r == Err::<Sim, Fault>(Fault::AlreadyInitialized),
            !old(flag).is_active() ==> (r matches Ok(s) && {
                &&& s.wf()
                &&& s.clkdiv1_spec() == 0
                &&& forall|i: int| 0 <= i < 224 ==> s.gates_spec()[i] == 0
            }),
    {
        let was_init: bool = flag.test_and_set();
        if was_init {
            return Err(Fault::AlreadyInitialized);
        }
        let mut gates: Vec<u32> = Vec::new();
        let mut i: usize = 0;
        while i < 224
            invariant
                i <= 224,
                gates@.len() == i,
                forall|j: int| 0 <= j < i ==> gates@[j] == 0,
            decreases 224 - i,
        {
            gates.push(0);
            i = i + 1;
        }
        Ok(Sim { clkdiv1: vol_u32_new(0), gates })
    }

    /// Releases the singleton: a later acquisition against the same flag
    /// succeeds again.
    pub fn release(self, flag: &mut InitFlag)
        ensures
            !final(flag).is_active(),
    {
        flag.clear();
    }

    /// Reads the divider register.
    pub fn read_clkdiv1(&self) -> (r: u32)
        ensures
            r == self.clkdiv1_spec(),
    {
        vol_u32_read(&self.clkdiv1)
    }

    /// Reads one gate word of the bit-band block.
    pub fn gate_word(&self, reg: usize, bit: usize) -> (r: u32)
        requires
            self.wf(),
            1 <= reg <= 7,
            bit <= 31,
        ensures
            r == self.gates_spec()[gate_index(reg as int, bit as int)],
    {
        let offset: usize = 128 * (reg - 1) + 4 * bit;
        let idx: usize = offset / 4;
        self.gates[idx]
    }

    /// Packs the three divider codes into the divider register, each
    /// stored as (divisor − 1): core into bits 28..32, bus into 24..28,
    /// flash into 16..20; one whole-register write, so every bit outside
    /// the three fields reads 0. A divisor outside 1..=16 would not fit
    /// its 4-bit field and would corrupt the neighboring fields, so the
    /// caller owes divisors in range.
    pub fn set_dividers(&mut self, core: u32, bus: u32, flash: u32)
        requires
            old(self).wf(),
            1 <= core <= 16,
            1 <= bus <= 16,
            1 <= flash <= 16,
        ensures
            final(self).wf(),
            u32_field(final(self).clkdiv1_spec(), 28, 4) == core - 1,
            u32_field(final(self).clkdiv1_spec(), 24, 4) == bus - 1,
            u32_field(final(self).clkdiv1_spec(), 16, 4) == flash - 1,
            forall|j: usize|
                j < 32 && !(28 <= j < 32) && !(24 <= j < 28) && !(16 <= j < 20) ==> !u32_bit(
                    final(self).clkdiv1_spec(),
                    j,
                ),
            final(self).gates_spec() == old(self).gates_spec(),
    {
        proof {
            lemma_two_pow_small();
        }
        let a: u32 = u32_set_bits(0, 28, 32, core - 1);
        let b: u32 = u32_set_bits(a, 24, 28, bus - 1);
        let c: u32 = u32_set_bits(b, 16, 20, flash - 1);
        proof {
            lemma_u32_field_congruence(b, a, 28, 4);
            lemma_u32_field_congruence(c, b, 28, 4);
            lemma_u32_field_congruence(c, b, 24, 4);
            assert forall|j: usize|
                j < 32 && !(28 <= j < 32) && !(24 <= j < 28) && !(16 <= j < 20) implies !u32_bit(
                c,
                j,
            ) by {
                lemma_u32_zero_bit(j);
            }
        }
        vol_u32_write(&mut self.clkdiv1, c);
    }

    /// Mints the handle for one physical port, claiming that port's
    /// clock gate: (5, 10) for port B, (5, 11) for port C. A gate that
    /// is already set is refused as `AlreadyInitialized`.
    pub fn port(&mut self, port: PortName) -> (r: Result<Port, Fault>)
        requires
            old(self).wf(),
        ensures
            final(self).wf(),
            final(self).clkdiv1_spec() == old(self).clkdiv1_spec(),
            ({
                let idx = gate_index(port_gate_reg(port) as int, port_gate_bit(port) as int);
                if old(self).gates_spec()[idx] != 0 {
                    &&& r == Err::<Port, Fault>(Fault::AlreadyInitialized)
                    &&& final(self).gates_spec() == old(self).gates_spec()
                } else {
                    &&& final(self).gates_spec() == old(self).gates_spec().update(idx, 1u32)
                    &&& (r matches Ok(p) && {
                        &&& p.wf()
                        &&& p.name_spec() == port
                        &&& forall|i: int| 0 <= i < 32 ==> !p.locks_spec()[i]
                        &&& forall|i: int| 0 <= i < 32 ==> p.pcr_spec()[i] == 0
                        &&& p.gate_spec().reg_spec() == port_gate_reg(port)
                        &&& p.gate_spec().bit_spec() == port_gate_bit(port)
                    })
                }
            }),
    {
        let gate: ClockGate = match port {
            PortName::B => ClockGate::new(5, 10),
            PortName::C => ClockGate::new(5, 11),
        };
        let idx: usize = gate.word_index();
        if self.gates[idx] != 0 {
            return Err(Fault::AlreadyInitialized);
        }
        self.gates.set(idx, 1);
        Ok(Port::new(port, gate))
    }

    /// Claims the clock gate of one serial unit: unit 0 sits at gate
    /// (4, 10); any other unit is refused as `InvalidParameter`, and a
    /// gate that is already set as `AlreadyInitialized`.
    pub fn uart(&mut self, uart: u8) -> (r: Result<ClockGate, Fault>)
        requires
            old(self).wf(),
        ensures
            final(self).wf(),
            final(self).clkdiv1_spec() == old(self).clkdiv1_spec(),
            uart != 0 ==> {
                &&& r == Err::<ClockGate, Fault>(Fault::InvalidParameter)
                &&& final(self).gates_spec() == old(self).gates_spec()
            },
            uart == 0 && old(self).gates_spec()[gate_index(4, 10)] != 0 ==> {
                &&& r == Err::<ClockGate, Fault>(Fault::AlreadyInitialized)
                &&& final(self).gates_spec() == old(self).gates_spec()
            },
            uart == 0 && old(self).gates_spec()[gate_index(4, 10)] == 0 ==> {
                &&& final(self).gates_spec() == old(self).gates_spec().update(
                    gate_index(4, 10),
                    1u32,
                )
                &&& (r matches Ok(g) && g.reg_spec() == 4 && g.bit_spec() == 10)
            },
    {
        if uart != 0 {
            return Err(Fault::InvalidParameter);
        }
        let gate: ClockGate = ClockGate::new(4, 10);
        let idx: usize = gate.word_index();
        if self.gates[idx] != 0 {
            return Err(Fault::AlreadyInitialized);
        }
        self.gates.set(idx, 1);
        Ok(gate)
    }

    /// Releases a claimed gate: clears its bit-band word, gating the
    /// peripheral's clock back off.
    pub fn drop_gate(&mut self, gate: ClockGate)
        requires
            old(self).wf(),
            gate.wf(),
        ensures
            final(self).wf(),
            final(self).clkdiv1_spec() == old(self).clkdiv1_spec(),
            final(self).gates_spec() == old(self).gates_spec().update(gate.index(), 0u32),
    {
        let idx: usize = gate.word_index();
        self.gates.set(idx, 0);
    }
}

} // verus!
