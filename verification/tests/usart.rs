use mewkernel::usart::{
    compute_usartdiv, AsControls, Control, Interface, Oversampling, Parity, Status, StopBits,
    WordLength,
};
use mewkernel::util::Access;

#[test]
fn baud_divisor_for_the_board() {
    assert_eq!(compute_usartdiv(16_000_000, 115200, 0), 0x8B);
    assert_eq!(compute_usartdiv(16_000_000, 115200, 1), 0x116);
    assert_eq!(compute_usartdiv(16_000_000, 9600, 0), (104 << 4) | 3);
}

#[test]
fn baud_divisor_is_within_a_tenth_of_a_percent() {
    let value = compute_usartdiv(16_000_000, 115200, 0);
    let mantissa = (value >> 4) as f64;
    let fraction = (value & 0xF) as f64;
    let effective = 16_000_000.0 / (16.0 * (mantissa + fraction / 16.0));
    let error = (effective - 115200.0).abs() / 115200.0;
    assert!(error < 0.001);
}

#[test]
fn baud_fraction_of_sixteen_is_merged_by_or() {
    assert_eq!(compute_usartdiv(3_643_200, 115200, 0), 16);
    assert_eq!(compute_usartdiv(0, 1, 0), 0);
    assert_eq!(compute_usartdiv(u32::MAX, 1, 1), 0xFFFF_FFFE);
    assert_eq!(compute_usartdiv(u32::MAX, u32::MAX, 0), 1);
}

#[test]
fn stop_bit_encoding() {
    assert_eq!(StopBits::Bits1.bits(), 0);
    assert_eq!(StopBits::Bits05.bits(), 1);
    assert_eq!(StopBits::Bits2.bits(), 2);
    assert_eq!(StopBits::Bits15.bits(), 3);
}

#[test]
fn control_bits() {
    assert_eq!(Control::Usart.bit(), 1 << 13);
    assert_eq!(Control::Transmitter.bit(), 1 << 3);
    assert_eq!(Control::Receiver.bit(), 1 << 2);
    assert_eq!(Control::ParityControl.bit(), 1 << 10);
    assert_eq!(Control::TransmissionCompleteInterrupt.bit(), 1 << 6);
    assert_eq!(Control::ReceiveRegisterNotEmptyInterrupt.bit(), 1 << 5);
    assert_eq!(Control::get_bitmask(), 0x246C);
    assert_eq!(Control::Usart.bitor(Control::Receiver).value(), 0x2004);
    assert_eq!(Control::Usart.as_controls().value(), 0x2000);
    let set = Control::Receiver.bitor(Control::Transmitter).bitor(Control::Usart);
    assert_eq!(set.as_controls().value(), 0x200C);
    assert_eq!(set, Control::Usart.bitor(Control::Transmitter).bitor(Control::Receiver));
}

#[test]
fn masked_merge_leaves_exactly_the_requested_flags() {
    let usart = Interface::Usart2;
    let untracked: u32 = 0x9200;
    let first = usart.set_enable_disable(
        Control::Usart
            .bitor(Control::Receiver)
            .bitor(Control::ReceiveRegisterNotEmptyInterrupt),
    );
    assert_eq!(first, Access::Merge { address: 0x4000_440C, clear: 0x246C, set: 0x2024 });
    let word = first.stored(untracked);
    assert_eq!(word, 0x9200 | 0x2024);
    let second = usart.set_enable_disable(Control::Usart.bitor(Control::Transmitter));
    let word = second.stored(word);
    assert_eq!(word & 0x246C, 0x2008);
    assert_eq!(word & !0x246C, untracked);
    let third = usart.set_enable_disable(Control::ParityControl);
    assert_eq!(third.stored(word), untracked | 0x400);
}

#[test]
fn single_flag_enable_and_disable() {
    let usart = Interface::Usart2;
    let on = usart.set_enable(Control::TransmissionCompleteInterrupt);
    assert_eq!(on, Access::Merge { address: 0x4000_440C, clear: 0, set: 0x40 });
    assert_eq!(on.stored(0x200C), 0x204C);
    let off = usart.set_disable(Control::TransmissionCompleteInterrupt);
    assert_eq!(off, Access::Merge { address: 0x4000_440C, clear: 0x40, set: 0 });
    assert_eq!(off.stored(0x204C), 0x200C);
    assert_eq!(off.stored(0xFFFF_FFFF), 0xFFFF_FFBF);
}

#[test]
fn interface_registers() {
    assert_eq!(Interface::Usart1.get_register(0), 0x4001_1000);
    assert_eq!(Interface::Usart2.get_register(0), 0x4000_4400);
    assert_eq!(Interface::Usart3.get_register(0), 0x4000_4800);
    assert_eq!(Interface::Uart4.get_register(0), 0x4000_4C00);
    assert_eq!(Interface::Uart5.get_register(0), 0x4000_5000);
    assert_eq!(Interface::Usart6.get_register(0x1C), 0x4001_141C);
    let usart = Interface::Usart2;
    assert_eq!(usart.get_status_register(), 0x4000_4400);
    assert_eq!(usart.get_data_register(), 0x4000_4404);
    assert_eq!(usart.get_baud_rate_register(), 0x4000_4408);
    assert_eq!(usart.get_control_register_1(), 0x4000_440C);
    assert_eq!(usart.get_control_register_2(), 0x4000_4410);
}

#[test]
fn interface_clocks() {
    let field = |address: u32, offset: u32| Access::SetField { address, offset, len: 1, value: 1 };
    assert_eq!(Interface::Usart1.enable_clock(true), field(0x4002_3844, 4));
    assert_eq!(Interface::Usart6.enable_clock(true), field(0x4002_3844, 5));
    assert_eq!(Interface::Usart2.enable_clock(true), field(0x4002_3840, 17));
    assert_eq!(Interface::Usart3.enable_clock(true), field(0x4002_3840, 18));
    assert_eq!(Interface::Uart4.enable_clock(true), field(0x4002_3840, 19));
    assert_eq!(Interface::Uart5.enable_clock(true), field(0x4002_3840, 20));
    assert_eq!(
        Interface::Uart5.enable_clock(false),
        Access::SetField { address: 0x4002_3840, offset: 20, len: 1, value: 0 }
    );
}

#[test]
fn frame_configuration() {
    let usart = Interface::Usart2;
    let cr1 = 0x4000_440C;
    assert_eq!(
        usart.set_oversampling(Oversampling::By8),
        Access::SetField { address: cr1, offset: 15, len: 1, value: 1 }
    );
    assert_eq!(
        usart.set_oversampling(Oversampling::By16),
        Access::SetField { address: cr1, offset: 15, len: 1, value: 0 }
    );
    assert_eq!(
        usart.set_word_length(WordLength::Bits9),
        Access::SetField { address: cr1, offset: 12, len: 1, value: 1 }
    );
    assert_eq!(
        usart.set_word_length(WordLength::Bits8),
        Access::SetField { address: cr1, offset: 12, len: 1, value: 0 }
    );
    assert_eq!(
        usart.set_parity(Parity::Odd),
        Access::SetField { address: cr1, offset: 9, len: 1, value: 1 }
    );
    assert_eq!(
        usart.set_parity(Parity::Even),
        Access::SetField { address: cr1, offset: 9, len: 1, value: 0 }
    );
    assert_eq!(
        usart.set_stop_bits(StopBits::Bits15),
        Access::SetField { address: 0x4000_4410, offset: 12, len: 2, value: 3 }
    );
}

#[test]
fn baud_rate_follows_the_oversampling_bit() {
    let usart = Interface::Usart2;
    assert_eq!(
        usart.set_baud_rate::<16_000_000>(0, 115200),
        Access::Store { address: 0x4000_4408, value: 0x8B }
    );
    assert_eq!(
        usart.set_baud_rate::<16_000_000>(0x7FFF, 115200),
        Access::Store { address: 0x4000_4408, value: 0x8B }
    );
    assert_eq!(
        usart.set_baud_rate::<16_000_000>(0x8000, 115200),
        Access::Store { address: 0x4000_4408, value: 0x116 }
    );
}

#[test]
fn raw_bytes() {
    let usart = Interface::Usart2;
    assert_eq!(usart.write_byte(0x41), Access::Store { address: 0x4000_4404, value: 0x41 });
    assert_eq!(usart.read_byte(0x41), 0x41);
    assert_eq!(usart.read_byte(0x1FF), 0xFF);
    assert_eq!(usart.read_byte(0xFFFF_FF00), 0);
}

#[test]
fn status_predicates() {
    let usart = Interface::Usart2;
    let idle = usart.get_status(0);
    assert!(!idle.is_transmission_complete());
    assert!(!idle.is_receive_register_not_empty());
    assert!(!idle.is_overrun_error());
    let status = usart.get_status(0x40);
    assert!(status.is_transmission_complete());
    assert!(!status.is_receive_register_not_empty());
    let status = Status::from(0x28);
    assert!(status.is_receive_register_not_empty());
    assert!(status.is_overrun_error());
    assert!(!status.is_transmission_complete());
    assert_eq!(Status::from(0xFFFF_FE00), Status::from(0));
    assert_eq!(usart.get_status(0xFFFF_FFFF), Status::from(0x1FF));
}
