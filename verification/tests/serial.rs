use mewkernel::serial::{
    pending, read_until_line, receive_byte, receive_ready, sys_tick_handler, transmission_complete,
    try_push_slice, usart2_interrupt_handler, LineRead, SerialAction, SerialEvent, UsartBuffer,
    QUEUE_CAPACITY,
};
use mewkernel::usart::Status;
use mewkernel::util::Access;

const CR1: u32 = 0x4000_440C;
const DR: u32 = 0x4000_4404;

#[test]
fn fresh_queues_are_empty() {
    let buffers = UsartBuffer::new();
    assert_eq!(pending(&buffers.tx_buffer), 0);
    assert_eq!(pending(&buffers.rx_buffer), 0);
    assert_eq!(sys_tick_handler(&buffers.tx_buffer), None);
}

#[test]
fn tick_arms_the_interrupt_when_bytes_wait() {
    let mut buffers = UsartBuffer::new();
    assert!(try_push_slice(&mut buffers.tx_buffer, b"ok"));
    assert_eq!(pending(&buffers.tx_buffer), 2);
    assert_eq!(
        sys_tick_handler(&buffers.tx_buffer),
        Some(Access::Merge { address: CR1, clear: 0, set: 0x40 })
    );
    assert_eq!(pending(&buffers.tx_buffer), 2);
}

#[test]
fn transmit_side_drains_in_order_then_disarms() {
    let mut buffers = UsartBuffer::new();
    assert!(try_push_slice(&mut buffers.tx_buffer, b"ab"));
    let busy = Status::from(0);
    assert_eq!(transmission_complete(&busy, &mut buffers.tx_buffer), None);
    assert_eq!(pending(&buffers.tx_buffer), 2);
    let done = Status::from(0x40);
    assert_eq!(
        transmission_complete(&done, &mut buffers.tx_buffer),
        Some(Access::Store { address: DR, value: b'a' as u32 })
    );
    assert_eq!(
        transmission_complete(&done, &mut buffers.tx_buffer),
        Some(Access::Store { address: DR, value: b'b' as u32 })
    );
    assert_eq!(
        transmission_complete(&done, &mut buffers.tx_buffer),
        Some(Access::Merge { address: CR1, clear: 0x40, set: 0 })
    );
    assert_eq!(pending(&buffers.tx_buffer), 0);
}

#[test]
fn push_is_all_or_nothing() {
    let mut buffers = UsartBuffer::new();
    let block = [7u8; 200];
    assert!(try_push_slice(&mut buffers.tx_buffer, &block));
    assert!(!try_push_slice(&mut buffers.tx_buffer, &block));
    assert_eq!(pending(&buffers.tx_buffer), 200);
    assert!(try_push_slice(&mut buffers.tx_buffer, &block[0..56]));
    assert_eq!(pending(&buffers.tx_buffer), QUEUE_CAPACITY);
    assert!(!try_push_slice(&mut buffers.tx_buffer, &[1]));
    assert!(try_push_slice(&mut buffers.tx_buffer, &[]));
    assert_eq!(pending(&buffers.tx_buffer), 256);
}

#[test]
fn receive_side_takes_bytes_while_there_is_room() {
    let mut buffers = UsartBuffer::new();
    let ready = Status::from(0x20);
    let quiet = Status::from(0x40);
    assert!(receive_ready(&ready, &buffers.rx_buffer));
    assert!(!receive_ready(&quiet, &buffers.rx_buffer));
    assert!(receive_byte(&mut buffers.rx_buffer, 0x141));
    assert_eq!(pending(&buffers.rx_buffer), 1);
    let mut line = vec![0u8; 4];
    assert_eq!(read_until_line(&mut buffers.rx_buffer, &mut line, 0), LineRead::Pending(1));
    assert_eq!(line, vec![0x41, 0, 0, 0]);
}

#[test]
fn full_receive_queue_leaves_the_byte_in_hardware() {
    let mut buffers = UsartBuffer::new();
    for i in 0..256u32 {
        assert!(receive_byte(&mut buffers.rx_buffer, i));
    }
    let ready = Status::from(0x20);
    assert!(!receive_ready(&ready, &buffers.rx_buffer));
    assert!(!receive_byte(&mut buffers.rx_buffer, 0x55));
    assert_eq!(pending(&buffers.rx_buffer), 256);
    let mut line = vec![0u8; 300];
    assert_eq!(read_until_line(&mut buffers.rx_buffer, &mut line, 0), LineRead::Complete(14));
    assert_eq!(line[0..14], [0, 1, 2, 3, 4, 5, 6, 7, 8, 9, 10, 11, 12, 13]);
    assert_eq!(pending(&buffers.rx_buffer), 242);
    assert!(receive_ready(&ready, &buffers.rx_buffer));
}

#[test]
fn line_read_stops_after_the_line_end() {
    let mut buffers = UsartBuffer::new();
    assert!(try_push_slice(&mut buffers.rx_buffer, b"hi\rrest"));
    let mut line = vec![0u8; 8];
    assert_eq!(read_until_line(&mut buffers.rx_buffer, &mut line, 0), LineRead::Complete(3));
    assert_eq!(line, b"hi\r\0\0\0\0\0".to_vec());
    assert_eq!(pending(&buffers.rx_buffer), 4);
}

#[test]
fn line_read_resumes_where_it_stopped() {
    let mut buffers = UsartBuffer::new();
    assert!(try_push_slice(&mut buffers.rx_buffer, b"he"));
    let mut line = vec![0u8; 8];
    assert_eq!(read_until_line(&mut buffers.rx_buffer, &mut line, 0), LineRead::Pending(2));
    assert_eq!(read_until_line(&mut buffers.rx_buffer, &mut line, 2), LineRead::Pending(2));
    assert!(try_push_slice(&mut buffers.rx_buffer, b"y\r"));
    assert_eq!(read_until_line(&mut buffers.rx_buffer, &mut line, 2), LineRead::Complete(4));
    assert_eq!(line[0..4], *b"hey\r");
}

#[test]
fn line_read_gives_up_when_the_buffer_fills() {
    let mut buffers = UsartBuffer::new();
    assert!(try_push_slice(&mut buffers.rx_buffer, b"abcdef\r"));
    let mut line = vec![0u8; 4];
    assert_eq!(read_until_line(&mut buffers.rx_buffer, &mut line, 0), LineRead::Abandoned);
    assert_eq!(line, b"abcd".to_vec());
    assert_eq!(pending(&buffers.rx_buffer), 3);
    assert_eq!(read_until_line(&mut buffers.rx_buffer, &mut line, 0), LineRead::Complete(3));
    assert_eq!(line, b"ef\rd".to_vec());
}

#[test]
fn line_end_in_the_last_place_completes_the_line() {
    let mut buffers = UsartBuffer::new();
    assert!(try_push_slice(&mut buffers.rx_buffer, b"abc\r"));
    let mut line = vec![0u8; 4];
    assert_eq!(read_until_line(&mut buffers.rx_buffer, &mut line, 0), LineRead::Complete(4));
    let mut none: Vec<u8> = Vec::new();
    assert_eq!(read_until_line(&mut buffers.rx_buffer, &mut none, 0), LineRead::Abandoned);
}

#[test]
fn interrupt_sends_the_oldest_byte() {
    let mut buffers = UsartBuffer::new();
    assert!(try_push_slice(&mut buffers.tx_buffer, b"xy"));
    let busy = SerialEvent::TransmitStatus(Status::from(0x20));
    assert_eq!(usart2_interrupt_handler(busy, &mut buffers), SerialAction::Idle);
    assert_eq!(pending(&buffers.tx_buffer), 2);
    let done = SerialEvent::TransmitStatus(Status::from(0x40));
    assert_eq!(
        usart2_interrupt_handler(done, &mut buffers),
        SerialAction::Perform(Access::Store { address: DR, value: b'x' as u32 })
    );
    assert_eq!(
        usart2_interrupt_handler(done, &mut buffers),
        SerialAction::Perform(Access::Store { address: DR, value: b'y' as u32 })
    );
    assert_eq!(
        usart2_interrupt_handler(done, &mut buffers),
        SerialAction::Perform(Access::Merge { address: CR1, clear: 0x40, set: 0 })
    );
    assert_eq!(pending(&buffers.rx_buffer), 0);
}

#[test]
fn interrupt_receives_only_when_told_to_load() {
    let mut buffers = UsartBuffer::new();
    let quiet = SerialEvent::ReceiveStatus(Status::from(0x40));
    assert_eq!(usart2_interrupt_handler(quiet, &mut buffers), SerialAction::Idle);
    let ready = SerialEvent::ReceiveStatus(Status::from(0x20));
    assert_eq!(usart2_interrupt_handler(ready, &mut buffers), SerialAction::LoadData);
    assert_eq!(pending(&buffers.rx_buffer), 0);
    assert_eq!(
        usart2_interrupt_handler(SerialEvent::Data(0x30D), &mut buffers),
        SerialAction::Idle
    );
    assert_eq!(pending(&buffers.rx_buffer), 1);
    assert_eq!(pending(&buffers.tx_buffer), 0);
    let mut line = vec![0u8; 2];
    assert_eq!(read_until_line(&mut buffers.rx_buffer, &mut line, 0), LineRead::Complete(1));
    assert_eq!(line, vec![0x0D, 0]);
}

#[test]
fn interrupt_leaves_the_byte_when_the_queue_is_full() {
    let mut buffers = UsartBuffer::new();
    assert!(try_push_slice(&mut buffers.rx_buffer, &[9u8; 256]));
    let ready = SerialEvent::ReceiveStatus(Status::from(0x20));
    assert_eq!(usart2_interrupt_handler(ready, &mut buffers), SerialAction::Idle);
    assert_eq!(usart2_interrupt_handler(SerialEvent::Data(1), &mut buffers), SerialAction::Idle);
    assert_eq!(pending(&buffers.rx_buffer), 256);
}
