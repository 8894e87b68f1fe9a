use nes_rs::bus::dma::DMA;
use nes_rs::joypad::{Joypad, JoypadButton};

#[test]
fn joypad_reports_buttons_in_order() {
    let mut joypad = Joypad::new();
    joypad.button_status.set(JoypadButton::BUTTON_A, true);
    joypad.button_status.set(JoypadButton::START, true);
    joypad.button_status.set(JoypadButton::RIGHT, true);
    joypad.write(1);
    joypad.write(0);
    let reads: Vec<u8> = (0..8).map(|_| joypad.read()).collect();
    // A, B, Select, Start, Up, Down, Left, Right.
    assert_eq!(reads, vec![1, 0, 0, 1, 0, 0, 0, 1]);
}

#[test]
fn joypad_returns_one_after_eight_reads() {
    let mut joypad = Joypad::new();
    joypad.write(1);
    joypad.write(0);
    for _ in 0..8 {
        assert_eq!(joypad.read(), 0);
    }
    assert_eq!(joypad.read(), 1);
    assert_eq!(joypad.read(), 1);
    joypad.write(1);
    joypad.write(0);
    assert_eq!(joypad.read(), 0);
}

#[test]
fn joypad_strobe_holds_the_cursor() {
    let mut joypad = Joypad::new();
    joypad.button_status.set(JoypadButton::BUTTON_A, true);
    joypad.write(0);
    assert_eq!(joypad.read(), 1);
    assert_eq!(joypad.read(), 0);
    joypad.write(0x81);
    assert_eq!(joypad.read(), 1);
    assert_eq!(joypad.read(), 1);
    assert_eq!(joypad.read(), 1);
    // Only bit 0 of the written byte counts.
    joypad.write(0xfe);
    assert_eq!(joypad.read(), 1);
    assert_eq!(joypad.read(), 0);
}

#[test]
fn joypad_buttons_are_a_mask() {
    let mut buttons = JoypadButton::from_bits_truncate(0);
    buttons.set(JoypadButton::UP, true);
    buttons.set(JoypadButton::LEFT, true);
    assert_eq!(buttons.bits(), 0b0101_0000);
    assert!(buttons.contains(JoypadButton::UP));
    assert!(!buttons.contains(JoypadButton::DOWN));
    buttons.set(JoypadButton::UP, false);
    assert_eq!(buttons.bits(), 0b0100_0000);
}

#[test]
fn dma_write_starts_a_transfer() {
    let mut dma = DMA::new();
    assert!(!dma.dma_transfer);
    dma.addr = 9;
    dma.data = 7;
    dma.write(0x02);
    assert!(dma.dma_transfer);
    assert_eq!(dma.page, 0x02);
    assert_eq!(dma.addr, 0);
    assert_eq!(dma.data, 7);
    assert!(!dma.dma_is_not_sync);
}
