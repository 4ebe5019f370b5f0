//! Pin downgrades: digital I/O and the fixed serial legality table.

use teensy_hal::port::{Pin, PortName};
use teensy_hal::sim::Sim;
use teensy_hal::{Fault, InitFlag};

fn fresh_pin(name: PortName, p: usize) -> Pin {
    let mut flag = InitFlag::new();
    let mut sim = Sim::new(&mut flag).unwrap();
    let mut port = sim.port(name).unwrap();
    port.pin(p).unwrap()
}

#[test]
fn serial_receive_is_b16_only() {
    let rx = fresh_pin(PortName::B, 16).make_rx().unwrap();
    assert_eq!(rx.uart(), 0);
    assert_eq!((rx.pin_pcr() >> 8) & 0x7, 3);
    for (name, p) in [(PortName::B, 17), (PortName::B, 0), (PortName::C, 16), (PortName::C, 5)] {
        assert!(matches!(
            fresh_pin(name, p).make_rx(),
            Err(Fault::InvalidPinForFunction)
        ));
    }
}

#[test]
fn serial_transmit_is_b17_only() {
    let tx = fresh_pin(PortName::B, 17).make_tx().unwrap();
    assert_eq!(tx.uart(), 0);
    assert_eq!((tx.pin_pcr() >> 8) & 0x7, 3);
    for (name, p) in [(PortName::B, 16), (PortName::B, 31), (PortName::C, 17), (PortName::C, 0)] {
        assert!(matches!(
            fresh_pin(name, p).make_tx(),
            Err(Fault::InvalidPinForFunction)
        ));
    }
}

#[test]
fn make_gpio_selects_mux_one() {
    let gpio = fresh_pin(PortName::C, 5).make_gpio();
    assert_eq!((gpio.pin_pcr() >> 8) & 0x7, 1);
}

#[test]
fn gpio_touches_only_its_own_words() {
    let mut gpio = fresh_pin(PortName::C, 5).make_gpio();
    gpio.output();
    gpio.high();
    assert_eq!(gpio.read_pddr(5), 1);
    assert_eq!(gpio.read_psor(5), 1);
    assert_eq!(gpio.read_pdor(5), 1);
    for n in 0..32usize {
        if n != 5 {
            assert_eq!(gpio.read_pdor(n), 0);
            assert_eq!(gpio.read_psor(n), 0);
            assert_eq!(gpio.read_pcor(n), 0);
            assert_eq!(gpio.read_pddr(n), 0);
        }
    }
    gpio.low();
    assert_eq!(gpio.read_pcor(5), 1);
    assert_eq!(gpio.read_pdor(5), 0);
    for n in 0..32usize {
        if n != 5 {
            assert_eq!(gpio.read_pdor(n), 0);
            assert_eq!(gpio.read_pcor(n), 0);
        }
    }
}

#[test]
fn gpio_toggle_cycle_tracks_the_level() {
    let mut gpio = fresh_pin(PortName::B, 7).make_gpio();
    gpio.output();
    for _ in 0..3 {
        gpio.high();
        assert_eq!(gpio.read_pdor(7), 1);
        gpio.low();
        assert_eq!(gpio.read_pdor(7), 0);
    }
}
