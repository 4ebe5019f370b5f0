//! Ports, pins, and the capabilities a pin converts into.
//!
//! A `Port` owns the pin-control registers and one in-use flag per pin,
//! and mints at most one live `Pin` handle per pin number. A `Pin` owns
//! its pin-control register for as long as it is checked out; converting
//! it into a capability (`Gpio`, `Rx`, `Tx`) consumes it, programs its
//! mux field, and keeps the port's flag held for the capability's whole
//! lifetime.

use vstd::prelude::*;
use vstd::pervasive::VecAdditionalExecFns;

use crate::Fault;
use crate::bits::{lemma_two_pow_small, u32_bit, u32_field, u32_set_bits};
use crate::sim::ClockGate;

verus! {

/// The physical ports this register layout exposes.
#[derive(Clone, Copy, Debug)]
pub enum PortName {
    C,
    B,
}

/// MUX, the pin-function selector: bits 8..11 of a pin-control register.
pub open spec fn pcr_mux(pcr: u32) -> nat {
    u32_field(pcr, 8, 3)
}

/// Owner of one port's control block: 32 pin-control registers and one
/// in-use flag per pin. Uniqueness of the handle is delegated to the
/// clock gate it was minted with, which `Sim` enforces.
pub struct Port {
    name: PortName,
    pcr: Vec<u32>,
    locks: Vec<bool>,
    gate: ClockGate,
}

/// An exclusively owned pin: while it is live, the port's flag for its
/// number stays set and the pin-control register travels with the
/// handle.
pub struct Pin {
    port: PortName,
    pin: usize,
    pcr: u32,
}

/// One port's GPIO bit-band block: six arrays of one 32-bit word per
/// pin, so that an operation on one pin touches one word and never its
/// neighbors.
struct GpioBitband {
    pdor: Vec<u32>,
    psor: Vec<u32>,
    pcor: Vec<u32>,
    ptor: Vec<u32>,
    pdir: Vec<u32>,
    pddr: Vec<u32>,
}

/// A pin downgraded to digital I/O.
pub struct Gpio {
    gpio: GpioBitband,
    pin: Pin,
}

/// A pin downgraded to serial receive for one unit.
pub struct Rx {
    uart: u8,
    pin: Pin,
}

/// A pin downgraded to serial transmit for one unit.
pub struct Tx {
    uart: u8,
    pin: Pin,
}

fn zero_words() -> (v: Vec<u32>)
    ensures
        v@.len() == 32,
        forall|i: int| 0 <= i < 32 ==> v@[i] == 0,
{
    let mut v: Vec<u32> = Vec::new();
    let mut i: usize = 0;
    while i < 32
        invariant
            i <= 32,
            v@.len() == i,
            forall|j: int| 0 <= j < i ==> v@[j] == 0,
        decreases 32 - i,
    {
        v.push(0);
        i = i + 1;
    }
    v
}

fn free_locks() -> (v: Vec<bool>)
    ensures
        v@.len() == 32,
        forall|i: int| 0 <= i < 32 ==> !v@[i],
{
    let mut v: Vec<bool> = Vec::new();
    let mut i: usize = 0;
    while i < 32
        invariant
            i <= 32,
            v@.len() == i,
            forall|j: int| 0 <= j < i ==> !v@[j],
        decreases 32 - i,
    {
        v.push(false);
        i = i + 1;
    }
    v
}

impl Pin {
    /// The port this pin belongs to.
    pub closed spec fn port_name(&self) -> PortName {
        self.port
    }

    /// The pin number within its port.
    pub closed spec fn number(&self) -> usize {
        self.pin
    }

    /// The pin-control register the handle owns.
    pub closed spec fn pcr_val(&self) -> u32 {
        self.pcr
    }

    /// The number addresses one of the port's 32 pins.
    pub open spec fn wf(&self) -> bool {
        self.number() < 32
    }

    /// Downgrades the pin to digital I/O: programs mux code 1 and binds
    /// the pin to its port's GPIO bit-band block, all words clear.
    pub fn make_gpio(self) -> (r: Gpio)
        requires
            self.wf(),
        ensures
            r.wf(),
            r.pin_spec().port_name() == self.port_name(),
            r.pin_spec().number() == self.number(),
            pcr_mux(r.pin_spec().pcr_val()) == 1,
            forall|j: usize|
                j < 32 && !(8 <= j < 11) ==> u32_bit(r.pin_spec().pcr_val(), j) == u32_bit(
                    self.pcr_val(),
                    j,
                ),
            forall|i: int| 0 <= i < 32 ==> r.pdor_spec()[i] == 0,
            forall|i: int| 0 <= i < 32 ==> r.psor_spec()[i] == 0,
            forall|i: int| 0 <= i < 32 ==> r.pcor_spec()[i] == 0,
            forall|i: int| 0 <= i < 32 ==> r.ptor_spec()[i] == 0,
            forall|i: int| 0 <= i < 32 ==> r.pdir_spec()[i] == 0,
            forall|i: int| 0 <= i < 32 ==> r.pddr_spec()[i] == 0,
    {
        proof {
            lemma_two_pow_small();
        }
        let name: PortName = self.port;
        let pcr2: u32 = u32_set_bits(self.pcr, 8, 11, 1);
        let pin = Pin { port: self.port, pin: self.pin, pcr: pcr2 };
        Gpio::new(name, pin)
    }

    /// Downgrades the pin to serial receive. Only pin 16 of port B
    /// routes the receive line of unit 0; every other (port, pin) pair
    /// is refused as `InvalidPinForFunction`.
    pub fn make_rx(self) -> (r: Result<Rx, Fault>)
        requires
            self.wf(),
        ensures
            match r {
                Ok(rx) => {
                    &&& self.port_name() == PortName::B
                    &&& self.number() == 16
                    &&& rx.uart_spec() == 0
                    &&& rx.pin_spec().port_name() == self.port_name()
                    &&& rx.pin_spec().number() == self.number()
                    &&& pcr_mux(rx.pin_spec().pcr_val()) == 3
                    &&& forall|j: usize|
                        j < 32 && !(8 <= j < 11) ==> u32_bit(rx.pin_spec().pcr_val(), j)
                            == u32_bit(self.pcr_val(), j)
                },
                Err(f) => {
                    &&& f == Fault::InvalidPinForFunction
                    &&& !(self.port_name() == PortName::B && self.number() == 16)
                },
            },
    {
        proof {
            lemma_two_pow_small();
        }
        match self.port {
            PortName::B => {
                if self.pin == 16 {
                    let pcr2: u32 = u32_set_bits(self.pcr, 8, 11, 3);
                    Ok(Rx { uart: 0, pin: Pin { port: self.port, pin: self.pin, pcr: pcr2 } })
                } else {
                    Err(Fault::InvalidPinForFunction)
                }
            },
            PortName::C => Err(Fault::InvalidPinForFunction),
        }
    }

    /// Downgrades the pin to serial transmit. Only pin 17 of port B
    /// routes the transmit line of unit 0; every other (port, pin) pair
    /// is refused as `InvalidPinForFunction`.
    pub fn make_tx(self) -> (r: Result<Tx, Fault>)
        requires
            self.wf(),
        ensures
            match r {
                Ok(tx) => {
                    &&& self.port_name() == PortName::B
                    &&& self.number() == 17
                    &&& tx.uart_spec() == 0
                    &&& tx.pin_spec().port_name() == self.port_name()
                    &&& tx.pin_spec().number() == self.number()
                    &&& pcr_mux(tx.pin_spec().pcr_val()) == 3
                    &&& forall|j: usize|
                        j < 32 && !(8 <= j < 11) ==> u32_bit(tx.pin_spec().pcr_val(), j)
                            == u32_bit(self.pcr_val(), j)
                },
                Err(f) => {
                    &&& f == Fault::InvalidPinForFunction
                    &&& !(self.port_name() == PortName::B && self.number() == 17)
                },
            },
    {
        proof {
            lemma_two_pow_small();
        }
        match self.port {
            PortName::B => {
                if self.pin == 17 {
                    let pcr2: u32 = u32_set_bits(self.pcr, 8, 11, 3);
                    Ok(Tx { uart: 0, pin: Pin { port: self.port, pin: self.pin, pcr: pcr2 } })
                } else {
                    Err(Fault::InvalidPinForFunction)
                }
            },
            PortName::C => Err(Fault::InvalidPinForFunction),
        }
    }
}

impl Port {
    /// The port's name.
    pub closed spec fn name_spec(&self) -> PortName {
        self.name
    }

    /// The 32 pin-control registers, as the port last saw them; a
    /// checked-out pin carries its own register until it is returned.
    pub closed spec fn pcr_spec(&self) -> Seq<u32> {
        self.pcr@
    }

    /// The per-pin in-use flags: true exactly while a handle for that
    /// pin is live.
    pub closed spec fn locks_spec(&self) -> Seq<bool> {
        self.locks@
    }

    /// The clock gate the port was minted with.
    pub closed spec fn gate_spec(&self) -> ClockGate {
        self.gate
    }

    /// One register and one flag per pin.
    pub open spec fn wf(&self) -> bool {
        &&& self.pcr_spec().len() == 32
        &&& self.locks_spec().len() == 32
    }

    /// Binds a port handle to its control block, all pins free and all
    /// pin-control registers clear, holding the given clock gate.
    pub fn new(name: PortName, gate: ClockGate) -> (r: Port)
        ensures
            r.wf(),
            r.name_spec() == name,
            r.gate_spec() == gate,
            forall|i: int| 0 <= i < 32 ==> !r.locks_spec()[i],
            forall|i: int| 0 <= i < 32 ==> r.pcr_spec()[i] == 0,
    {
        Port { name, pcr: zero_words(), locks: free_locks(), gate }
    }

    /// The port's name.
    pub fn name(&self) -> (r: PortName)
        ensures
            r == self.name_spec(),
    {
        self.name
    }

    /// Consumes the port and hands back its clock gate, which
    /// `Sim::drop_gate` then clears.
    pub fn into_gate(self) -> (g: ClockGate)
        ensures
            g == self.gate_spec(),
    {
        self.gate
    }

    /// Reads one pin-control register the port still holds.
    pub fn read_pcr(&self, p: usize) -> (r: u32)
        requires
            self.wf(),
            p < 32,
        ensures
            r == self.pcr_spec()[p as int],
    {
        self.pcr[p]
    }

    /// Programs the mux field of one pin-control register the port still
    /// holds. The mux code must fit its 3-bit field.
    pub fn set_pin_mode(&mut self, p: usize, mode: u32)
        requires
            old(self).wf(),
            p < 32,
            mode < 8,
        ensures
            final(self).wf(),
            final(self).name_spec() == old(self).name_spec(),
            final(self).locks_spec() == old(self).locks_spec(),
            final(self).gate_spec() == old(self).gate_spec(),
            final(self).pcr_spec().len() == 32,
            pcr_mux(final(self).pcr_spec()[p as int]) == mode,
            forall|j: usize|
                j < 32 && !(8 <= j < 11) ==> u32_bit(final(self).pcr_spec()[p as int], j)
                    == u32_bit(old(self).pcr_spec()[p as int], j),
            forall|i: int| 0 <= i < 32 && i != p ==> final(self).pcr_spec()[i] == old(
                self,
            ).pcr_spec()[i],
    {
        proof {
            lemma_two_pow_small();
        }
        let cur: u32 = self.pcr[p];
        let updated: u32 = u32_set_bits(cur, 8, 11, mode);
        self.pcr.set(p, updated);
    }

    /// Checks a pin out of the port. A number outside 0..=31 is refused
    /// as `InvalidParameter`; a pin whose flag is already set is refused
    /// as `AlreadyInitialized`; otherwise the flag is set and the pin
    /// handle takes its pin-control register with it.
    pub fn pin(&mut self, p: usize) -> (r: Result<Pin, Fault>)
        requires
            old(self).wf(),
        ensures
            final(self).wf(),
            final(self).name_spec() == old(self).name_spec(),
            final(self).pcr_spec() == old(self).pcr_spec(),
            final(self).gate_spec() == old(self).gate_spec(),
            p >= 32 ==> {
                &&& r == Err::<Pin, Fault>(Fault::InvalidParameter)
                &&& final(self).locks_spec() == old(self).locks_spec()
            },
            p < 32 && old(self).locks_spec()[p as int] ==> {
                &&& r == Err::<Pin, Fault>(Fault::AlreadyInitialized)
                &&& final(self).locks_spec() == old(self).locks_spec()
            },
            p < 32 && !old(self).locks_spec()[p as int] ==> {
                &&& final(self).locks_spec() == old(self).locks_spec().update(p as int, true)
                &&& (r matches Ok(pin) && {
                    &&& pin.wf()
                    &&& pin.port_name() == old(self).name_spec()
                    &&& pin.number() == p
                    &&& pin.pcr_val() == old(self).pcr_spec()[p as int]
                })
            },
    {
        if p >= 32 {
            return Err(Fault::InvalidParameter);
        }
        if self.locks[p] {
            return Err(Fault::AlreadyInitialized);
        }
        self.locks.set(p, true);
        Ok(Pin { port: self.name(), pin: p, pcr: self.pcr[p] })
    }

    /// Returns a pin to the port: clears its in-use flag, so the pin can
    /// be checked out again, and writes its pin-control register back.
    pub fn drop_pin(&mut self, pin: Pin)
        requires
            old(self).wf(),
            pin.wf(),
            pin.port_name() == old(self).name_spec(),
        ensures
            final(self).wf(),
            final(self).name_spec() == old(self).name_spec(),
            final(self).gate_spec() == old(self).gate_spec(),
            final(self).locks_spec() == old(self).locks_spec().update(pin.number() as int, false),
            final(self).pcr_spec() == old(self).pcr_spec().update(
                pin.number() as int,
                pin.pcr_val(),
            ),
    {
        self.locks.set(pin.pin, false);
        self.pcr.set(pin.pin, pin.pcr);
    }
}

impl Gpio {
    /// The embedded pin, which keeps the port's flag held.
    pub closed spec fn pin_spec(&self) -> Pin {
        self.pin
    }

    /// The output-level words, one per pin.
    pub closed spec fn pdor_spec(&self) -> Seq<u32> {
        self.gpio.pdor@
    }

    /// The set-output words, one per pin.
    pub closed spec fn psor_spec(&self) -> Seq<u32> {
        self.gpio.psor@
    }

    /// The clear-output words, one per pin.
    pub closed spec fn pcor_spec(&self) -> Seq<u32> {
        self.gpio.pcor@
    }

    /// The toggle-output words, one per pin.
    pub closed spec fn ptor_spec(&self) -> Seq<u32> {
        self.gpio.ptor@
    }

    /// The input words, one per pin.
    pub closed spec fn pdir_spec(&self) -> Seq<u32> {
        self.gpio.pdir@
    }

    /// The direction words, one per pin.
    pub closed spec fn pddr_spec(&self) -> Seq<u32> {
        self.gpio.pddr@
    }

    /// Six words per pin, and a pin that addresses one of them.
    pub open spec fn wf(&self) -> bool {
        &&& self.pin_spec().wf()
        &&& self.pdor_spec().len() == 32
        &&& self.psor_spec().len() == 32
        &&& self.pcor_spec().len() == 32
        &&& self.ptor_spec().len() == 32
        &&& self.pdir_spec().len() == 32
        &&& self.pddr_spec().len() == 32
    }

    /// Binds a consumed pin to its port's GPIO bit-band block, all
    /// words clear.
    pub fn new(port: PortName, pin: Pin) -> (r: Gpio)
        requires
            pin.wf(),
            port == pin.port_name(),
        ensures
            r.wf(),
            r.pin_spec() == pin,
            forall|i: int| 0 <= i < 32 ==> r.pdor_spec()[i] == 0,
            forall|i: int| 0 <= i < 32 ==> r.psor_spec()[i] == 0,
            forall|i: int| 0 <= i < 32 ==> r.pcor_spec()[i] == 0,
            forall|i: int| 0 <= i < 32 ==> r.ptor_spec()[i] == 0,
            forall|i: int| 0 <= i < 32 ==> r.pdir_spec()[i] == 0,
            forall|i: int| 0 <= i < 32 ==> r.pddr_spec()[i] == 0,
    {
        let gpio = GpioBitband {
            pdor: zero_words(),
            psor: zero_words(),
            pcor: zero_words(),
            ptor: zero_words(),
            pdir: zero_words(),
            pddr: zero_words(),
        };
        Gpio { gpio, pin }
    }

    /// Makes the pin an output: writes 1 into this pin's direction word
    /// and touches no other word of the block.
    pub fn output(&mut self)
        requires
            old(self).wf(),
        ensures
            final(self).wf(),
            final(self).pin_spec() == old(self).pin_spec(),
            final(self).pddr_spec() == old(self).pddr_spec().update(
                old(self).pin_spec().number() as int,
                1u32,
            ),
            final(self).pdor_spec() == old(self).pdor_spec(),
            final(self).psor_spec() == old(self).psor_spec(),
            final(self).pcor_spec() == old(self).pcor_spec(),
            final(self).ptor_spec() == old(self).ptor_spec(),
            final(self).pdir_spec() == old(self).pdir_spec(),
    {
        self.gpio.pddr.set(self.pin.pin, 1);
    }

    /// Drives the pin high: writes 1 into this pin's set word, which
    /// raises its level word, and touches no other word of the block —
    /// in particular, no word of any neighboring pin.
    pub fn high(&mut self)
        requires
            old(self).wf(),
        ensures
            final(self).wf(),
            final(self).pin_spec() == old(self).pin_spec(),
            final(self).psor_spec() == old(self).psor_spec().update(
                old(self).pin_spec().number() as int,
                1u32,
            ),
            final(self).pdor_spec() == old(self).pdor_spec().update(
                old(self).pin_spec().number() as int,
                1u32,
            ),
            final(self).pcor_spec() == old(self).pcor_spec(),
            final(self).ptor_spec() == old(self).ptor_spec(),
            final(self).pdir_spec() == old(self).pdir_spec(),
            final(self).pddr_spec() == old(self).pddr_spec(),
    {
        self.gpio.psor.set(self.pin.pin, 1);
        self.gpio.pdor.set(self.pin.pin, 1);
    }

    /// Drives the pin low: writes 1 into this pin's clear word, which
    /// drops its level word, and touches no other word of the block —
    /// in particular, no word of any neighboring pin.
    pub fn low(&mut self)
        requires
            old(self).wf(),
        ensures
            final(self).wf(),
            final(self).pin_spec() == old(self).pin_spec(),
            final(self).pcor_spec() == old(self).pcor_spec().update(
                old(self).pin_spec().number() as int,
                1u32,
            ),
            final(self).pdor_spec() == old(self).pdor_spec().update(
                old(self).pin_spec().number() as int,
                0u32,
            ),
            final(self).psor_spec() == old(self).psor_spec(),
            final(self).ptor_spec() == old(self).ptor_spec(),
            final(self).pdir_spec() == old(self).pdir_spec(),
            final(self).pddr_spec() == old(self).pddr_spec(),
    {
        self.gpio.pcor.set(self.pin.pin, 1);
        self.gpio.pdor.set(self.pin.pin, 0);
    }

    /// Reads the pin-control register of the embedded pin.
    pub fn pin_pcr(&self) -> (r: u32)
        ensures
            r == self.pin_spec().pcr_val(),
    {
        self.pin.pcr
    }

    /// Reads one level word.
    pub fn read_pdor(&self, n: usize) -> (r: u32)
        requires
            self.wf(),
            n < 32,
        ensures
            r == self.pdor_spec()[n as int],
    {
        self.gpio.pdor[n]
    }

    /// Reads one set word.
    pub fn read_psor(&self, n: usize) -> (r: u32)
        requires
            self.wf(),
            n < 32,
        ensures
            r == self.psor_spec()[n as int],
    {
        self.gpio.psor[n]
    }

    /// Reads one clear word.
    pub fn read_pcor(&self, n: usize) -> (r: u32)
        requires
            self.wf(),
            n < 32,
        ensures
            r == self.pcor_spec()[n as int],
    {
        self.gpio.pcor[n]
    }

    /// Reads one direction word.
    pub fn read_pddr(&self, n: usize) -> (r: u32)
        requires
            self.wf(),
            n < 32,
        ensures
            r == self.pddr_spec()[n as int],
    {
        self.gpio.pddr[n]
    }
}

impl Rx {
    /// The embedded pin, which keeps the port's flag held.
    pub closed spec fn pin_spec(&self) -> Pin {
        self.pin
    }

    /// Reads the pin-control register of the embedded pin.
    pub fn pin_pcr(&self) -> (r: u32)
        ensures
            r == self.pin_spec().pcr_val(),
    {
        self.pin.pcr
    }

    /// The serial unit this capability receives for.
    pub closed spec fn uart_spec(&self) -> u8 {
        self.uart
    }

    /// The serial unit this capability receives for.
    pub fn uart(&self) -> (r: u8)
        ensures
            r == self.uart_spec(),
    {
        self.uart
    }
}

impl Tx {
    /// The embedded pin, which keeps the port's flag held.
    pub closed spec fn pin_spec(&self) -> Pin {
        self.pin
    }

    /// Reads the pin-control register of the embedded pin.
    pub fn pin_pcr(&self) -> (r: u32)
        ensures
            r == self.pin_spec().pcr_val(),
    {
        self.pin.pcr
    }

    /// The serial unit this capability transmits for.
    pub closed spec fn uart_spec(&self) -> u8 {
        self.uart
    }

    /// The serial unit this capability transmits for.
    pub fn uart(&self) -> (r: u8)
        ensures
            r == self.uart_spec(),
    {
        self.uart
    }
}

} // verus!
