//! Singleton, clock-gate, and per-pin exclusivity.

use teensy_hal::port::{Port, PortName};
use teensy_hal::sim::Sim;
use teensy_hal::{Fault, InitFlag};

fn fresh_sim() -> Sim {
    let mut flag = InitFlag::new();
    Sim::new(&mut flag).unwrap()
}

fn fresh_port(name: PortName) -> Port {
    fresh_sim().port(name).unwrap()
}

#[test]
fn sim_singleton_is_exclusive_until_release() {
    let mut flag = InitFlag::new();
    let first = Sim::new(&mut flag).unwrap();
    assert!(matches!(Sim::new(&mut flag), Err(Fault::AlreadyInitialized)));
    first.release(&mut flag);
    assert!(Sim::new(&mut flag).is_ok());
}

#[test]
fn every_pin_is_exclusive_and_reusable_after_release() {
    let mut port = fresh_port(PortName::C);
    for p in 0..32usize {
        let pin = port.pin(p).unwrap();
        assert!(matches!(port.pin(p), Err(Fault::AlreadyInitialized)));
        port.drop_pin(pin);
        assert!(port.pin(p).is_ok());
    }
}

#[test]
fn pin_number_out_of_range_is_refused() {
    let mut port = fresh_port(PortName::B);
    assert!(matches!(port.pin(32), Err(Fault::InvalidParameter)));
    assert!(matches!(port.pin(1000), Err(Fault::InvalidParameter)));
}

#[test]
fn port_gates_sit_at_their_bit_band_words() {
    let mut sim = fresh_sim();
    assert_eq!(sim.gate_word(5, 10), 0);
    assert_eq!(sim.gate_word(5, 11), 0);
    let _b = sim.port(PortName::B).unwrap();
    assert_eq!(sim.gate_word(5, 10), 1);
    assert_eq!(sim.gate_word(5, 11), 0);
    let _c = sim.port(PortName::C).unwrap();
    assert_eq!(sim.gate_word(5, 11), 1);
}

#[test]
fn a_gated_port_cannot_be_minted_twice() {
    let mut sim = fresh_sim();
    let first = sim.port(PortName::B).unwrap();
    assert!(matches!(sim.port(PortName::B), Err(Fault::AlreadyInitialized)));
    sim.drop_gate(first.into_gate());
    assert_eq!(sim.gate_word(5, 10), 0);
    assert!(sim.port(PortName::B).is_ok());
}

#[test]
fn uart_gate_is_exclusive_and_releasable() {
    let mut sim = fresh_sim();
    assert!(matches!(sim.uart(1), Err(Fault::InvalidParameter)));
    assert!(matches!(sim.uart(7), Err(Fault::InvalidParameter)));
    let gate = sim.uart(0).unwrap();
    assert_eq!(sim.gate_word(4, 10), 1);
    assert!(matches!(sim.uart(0), Err(Fault::AlreadyInitialized)));
    sim.drop_gate(gate);
    assert_eq!(sim.gate_word(4, 10), 0);
    assert!(sim.uart(0).is_ok());
}

#[test]
fn dividers_pack_into_their_fields() {
    let mut sim = fresh_sim();
    // core 72 MHz, bus 36 MHz, flash 24 MHz from a 72 MHz PLL output
    sim.set_dividers(1, 2, 3);
    assert_eq!(sim.read_clkdiv1(), 0x0102_0000);
    sim.set_dividers(16, 16, 16);
    assert_eq!(sim.read_clkdiv1(), 0xFF0F_0000);
}

#[test]
fn set_pin_mode_writes_the_mux_field() {
    let mut port = fresh_port(PortName::C);
    port.set_pin_mode(5, 3);
    assert_eq!(port.read_pcr(5), 0x300);
    assert_eq!(port.read_pcr(4), 0);
    port.set_pin_mode(5, 1);
    assert_eq!(port.read_pcr(5), 0x100);
}

#[test]
fn a_dropped_pin_writes_its_register_back() {
    let mut port = fresh_port(PortName::B);
    port.set_pin_mode(3, 7);
    let pin = port.pin(3).unwrap();
    port.drop_pin(pin);
    assert_eq!(port.read_pcr(3), 0x700);
}

#[test]
fn halt_hook_returns_to_the_embedding() {
    teensy_hal::teensy_panic();
}
