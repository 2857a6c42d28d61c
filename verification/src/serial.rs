//! Interrupt-driven serial transfer over a transmit and a receive queue.
//!
//! The transmit queue is filled by the main line and drained by the serial
//! interrupt; the receive queue is filled by the serial interrupt and
//! drained by the main line. Each queue has one producer and one consumer.
//! The functions here decide; the caller loads and stores the registers.

use crate::usart::{Control, Interface, Status};
use crate::util::Access;
use ringbuf::ring_buffer::RbBase;
use ringbuf::Rb;
use ringbuf::StaticRb;
use vstd::prelude::*;

verus! {

/// Number of bytes that a queue can hold.
pub const QUEUE_CAPACITY: usize = 256;

/// The byte that ends a line: carriage return.
pub const LINE_END: u8 = 0x0D;

/// A byte queue of fixed capacity, kept in a `ringbuf::StaticRb`.
#[verifier::external_body]
pub struct ByteQueue {
    inner: StaticRb<u8, 256>,
}

/// The bytes that a queue holds, oldest first.
pub uninterp spec fn queue_contents(q: ByteQueue) -> Seq<u8>;

/// `StaticRb::default`: the queue starts with both counters at zero, so it
/// holds nothing.
#[verifier::external_body]
fn queue_new() -> (r: ByteQueue)
    ensures
        queue_contents(r) == Seq::<u8>::empty(),
{
    ByteQueue { inner: StaticRb::default() }
}

/// `RbBase::is_empty`: true exactly when no byte is queued.
#[verifier::external_body]
fn queue_is_empty(q: &ByteQueue) -> (r: bool)
    ensures
        r == (queue_contents(*q).len() == 0),
{
    q.inner.is_empty()
}

/// `RbBase::is_full`: true exactly when no place is vacant. A queue never
/// holds more than its capacity.
#[verifier::external_body]
fn queue_is_full(q: &ByteQueue) -> (r: bool)
    ensures
        r ==> queue_contents(*q).len() == QUEUE_CAPACITY,
        !r ==> queue_contents(*q).len() < QUEUE_CAPACITY,
{
    q.inner.is_full()
}

/// `Rb::free_len`: the number of vacant places, capacity less occupancy.
#[verifier::external_body]
fn queue_free_len(q: &ByteQueue) -> (r: usize)
    ensures
        r + queue_contents(*q).len() == QUEUE_CAPACITY,
{
    q.inner.free_len()
}

/// `Rb::pop`: takes the oldest byte, or returns `None` on an empty queue and
/// leaves it as it was.
#[verifier::external_body]
fn queue_pop(q: &mut ByteQueue) -> (r: Option<u8>)
    ensures
        queue_contents(*old(q)).len() == 0 ==> r.is_none() && queue_contents(*final(q))
            == queue_contents(*old(q)),
        queue_contents(*old(q)).len() > 0 ==> r == Some(queue_contents(*old(q))[0])
            && queue_contents(*final(q)) == queue_contents(*old(q)).drop_first(),
{
    q.inner.pop()
}

/// `Rb::push`: appends the byte, or hands it back on a full queue and
/// leaves the queue as it was.
#[verifier::external_body]
fn queue_push(q: &mut ByteQueue, value: u8) -> (r: Result<(), u8>)
    ensures
        queue_contents(*old(q)).len() >= QUEUE_CAPACITY ==> r is Err && r->Err_0 == value
            && queue_contents(*final(q)) == queue_contents(*old(q)),
        queue_contents(*old(q)).len() < QUEUE_CAPACITY ==> r is Ok && queue_contents(*final(q))
            == queue_contents(*old(q)).push(value),
{
    q.inner.push(value)
}

/// `Rb::push_slice`: appends the bytes in order. It panics when the slice
/// is longer than the vacant room, so that is ruled out.
#[verifier::external_body]
fn queue_push_slice(q: &mut ByteQueue, elems: &[u8])
    requires
        queue_contents(*old(q)).len() + elems@.len() <= QUEUE_CAPACITY,
    ensures
        queue_contents(*final(q)) == queue_contents(*old(q)) + elems@,
{
    q.inner.push_slice(elems)
}

/// The two queues between the main line and the serial interrupt.
pub struct UsartBuffer {
    pub tx_buffer: ByteQueue,
    pub rx_buffer: ByteQueue,
}

impl UsartBuffer {
    /// Both queues, empty.
    pub fn new() -> (r: Self)
        ensures
            queue_contents(r.tx_buffer) == Seq::<u8>::empty(),
            queue_contents(r.rx_buffer) == Seq::<u8>::empty(),
    {
        UsartBuffer { tx_buffer: queue_new(), rx_buffer: queue_new() }
    }
}

/// The interface that the queues serve.
pub open spec fn serial_interface() -> Interface {
    Interface::Usart2
}

/// Number of bytes waiting in a queue.
pub fn pending(queue: &ByteQueue) -> (r: usize)
    ensures
        r == queue_contents(*queue).len(),
        r <= QUEUE_CAPACITY,
{
    QUEUE_CAPACITY - queue_free_len(queue)
}

/// Tick: when bytes wait for transmission, arm the transmission-complete
/// interrupt, which is what restarts output after an idle phase. With
/// nothing to send, nothing is touched.
pub fn sys_tick_handler(tx: &ByteQueue) -> (r: Option<Access>)
    ensures
        r == (if queue_contents(*tx).len() > 0 {
            Some(
                Access::Merge {
                    address: (serial_interface().base() + 0xC) as u32,
                    clear: 0,
                    set: Control::TransmissionCompleteInterrupt.bit_spec(),
                },
            )
        } else {
            None
        }),
{
    if !queue_is_empty(tx) {
        let usart_if = Interface::Usart2;
        Some(usart_if.set_enable(Control::TransmissionCompleteInterrupt))
    } else {
        None
    }
}

/// Serial interrupt, transmit side. When the status reports a completed
/// transmission, the oldest waiting byte goes to the data register; with
/// nothing waiting, the transmission-complete interrupt is switched off
/// until the next tick arms it again.
pub fn transmission_complete(status: &Status, tx: &mut ByteQueue) -> (r: Option<Access>)
    ensures
        status.bits() & 0x40 == 0 ==> r.is_none() && queue_contents(*final(tx)) == queue_contents(
            *old(tx),
        ),
        status.bits() & 0x40 != 0 && queue_contents(*old(tx)).len() > 0 ==> r == Some(
            Access::Store {
                address: (serial_interface().base() + 0x4) as u32,
                value: queue_contents(*old(tx))[0] as u32,
            },
        ) && queue_contents(*final(tx)) == queue_contents(*old(tx)).drop_first(),
        status.bits() & 0x40 != 0 && queue_contents(*old(tx)).len() == 0 ==> r == Some(
            Access::Merge {
                address: (serial_interface().base() + 0xC) as u32,
                clear: Control::TransmissionCompleteInterrupt.bit_spec(),
                set: 0,
            },
        ) && queue_contents(*final(tx)) == queue_contents(*old(tx)),
{
    let usart_if = Interface::Usart2;
    if status.is_transmission_complete() {
        match queue_pop(tx) {
            Some(value) => Some(usart_if.write_byte(value)),
            None => Some(usart_if.set_disable(Control::TransmissionCompleteInterrupt)),
        }
    } else {
        None
    }
}

/// Serial interrupt, receive side: whether to load the data register. A
/// received byte is taken only while the receive queue has room; with a
/// full queue the byte stays in the hardware.
pub fn receive_ready(status: &Status, rx: &ByteQueue) -> (r: bool)
    ensures
        r == (status.bits() & 0x20 != 0 && queue_contents(*rx).len() < QUEUE_CAPACITY),
{
    status.is_receive_register_not_empty() && !queue_is_full(rx)
}

/// Queues the byte in `data_word`, the word loaded from the data register.
/// On a full queue nothing changes and the result is `false`.
pub fn receive_byte(rx: &mut ByteQueue, data_word: u32) -> (r: bool)
    ensures
        r == (queue_contents(*old(rx)).len() < QUEUE_CAPACITY),
        r ==> queue_contents(*final(rx)) == queue_contents(*old(rx)).push(
            (data_word & 0xFF) as u8,
        ),
        !r ==> queue_contents(*final(rx)) == queue_contents(*old(rx)),
{
    let usart_if = Interface::Usart2;
    let value = usart_if.read_byte(data_word);
    match queue_push(rx, value) {
        Ok(_) => true,
        Err(_) => false,
    }
}

/// What the serial interrupt entry learned from the hardware.
#[derive(Clone, Copy, Debug, PartialEq, Eq)]
pub enum SerialEvent {
    /// The status loaded on entry, for the transmit side.
    TransmitStatus(Status),
    /// The status loaded after the transmit side was served, for the
    /// receive side.
    ReceiveStatus(Status),
    /// The word loaded from the data register.
    Data(u32),
}

/// What the serial interrupt entry has to do next.
#[derive(Clone, Copy, Debug, PartialEq, Eq)]
pub enum SerialAction {
    /// Nothing.
    Idle,
    /// Perform this register access.
    Perform(Access),
    /// Load the data register and hand the word back as `Data`.
    LoadData,
}

/// What [`usart2_interrupt_handler`] answers to `event` when `tx` waits for
/// transmission and `rx` was received.
pub open spec fn serial_action(event: SerialEvent, tx: Seq<u8>, rx: Seq<u8>) -> SerialAction {
    match event {
        SerialEvent::TransmitStatus(status) => if status.bits() & 0x40 == 0 {
            SerialAction::Idle
        } else if tx.len() > 0 {
            SerialAction::Perform(
                Access::Store {
                    address: (serial_interface().base() + 0x4) as u32,
                    value: tx[0] as u32,
                },
            )
        } else {
            SerialAction::Perform(
                Access::Merge {
                    address: (serial_interface().base() + 0xC) as u32,
                    clear: Control::TransmissionCompleteInterrupt.bit_spec(),
                    set: 0,
                },
            )
        },
        SerialEvent::ReceiveStatus(status) => if status.bits() & 0x20 != 0 && rx.len()
            < QUEUE_CAPACITY {
            SerialAction::LoadData
        } else {
            SerialAction::Idle
        },
        SerialEvent::Data(_) => SerialAction::Idle,
    }
}

/// The serial interrupt, one event at a time. The entry loads the status
/// and hands it in as `TransmitStatus`, performs the access it gets back,
/// loads the status again and hands it in as `ReceiveStatus`, and only
/// when told to loads the data register and hands the word in as `Data`.
///
/// The transmit queue loses its oldest byte exactly when that byte is sent;
/// the receive queue gains the data byte exactly when it has room; nothing
/// else changes either queue.
pub fn usart2_interrupt_handler(event: SerialEvent, buffers: &mut UsartBuffer) -> (r: SerialAction)
    ensures
        r == serial_action(
            event,
            queue_contents(old(buffers).tx_buffer),
            queue_contents(old(buffers).rx_buffer),
        ),
        queue_contents(final(buffers).tx_buffer) == (match event {
            SerialEvent::TransmitStatus(status) if status.bits() & 0x40 != 0 => after_pop(
                queue_contents(old(buffers).tx_buffer),
            ),
            _ => queue_contents(old(buffers).tx_buffer),
        }),
        queue_contents(final(buffers).rx_buffer) == (match event {
            SerialEvent::Data(word) if queue_contents(old(buffers).rx_buffer).len()
                < QUEUE_CAPACITY => queue_contents(old(buffers).rx_buffer).push(
                (word & 0xFF) as u8,
            ),
            _ => queue_contents(old(buffers).rx_buffer),
        }),
{
    match event {
        SerialEvent::TransmitStatus(status) => {
            match transmission_complete(&status, &mut buffers.tx_buffer) {
                Some(access) => SerialAction::Perform(access),
                None => SerialAction::Idle,
            }
        },
        SerialEvent::ReceiveStatus(status) => {
            if receive_ready(&status, &buffers.rx_buffer) {
                SerialAction::LoadData
            } else {
                SerialAction::Idle
            }
        },
        SerialEvent::Data(word) => {
            let _ = receive_byte(&mut buffers.rx_buffer, word);
            SerialAction::Idle
        },
    }
}

/// A queue's contents after its oldest byte, if there is one, was taken.
pub open spec fn after_pop(s: Seq<u8>) -> Seq<u8> {
    if s.len() > 0 {
        s.drop_first()
    } else {
        s
    }
}

/// One attempt to queue all of `slice`: either every byte is appended in
/// order, or, when the room does not suffice, none is.
pub fn try_push_slice(buffer: &mut ByteQueue, slice: &[u8]) -> (r: bool)
    ensures
        r == (queue_contents(*old(buffer)).len() + slice@.len() <= QUEUE_CAPACITY),
        r ==> queue_contents(*final(buffer)) == queue_contents(*old(buffer)) + slice@,
        !r ==> queue_contents(*final(buffer)) == queue_contents(*old(buffer)),
{
    if slice.len() > queue_free_len(buffer) {
        false
    } else {
        queue_push_slice(buffer, slice);
        true
    }
}

/// How a line read ended.
#[derive(Clone, Copy, Debug, PartialEq, Eq)]
pub enum LineRead {
    /// The line ended; this many bytes of the buffer hold it, the line end
    /// last.
    Complete(usize),
    /// The buffer filled up before a line end came; what was gathered is
    /// given up.
    Abandoned,
    /// The queue ran dry with the buffer filled up to this index; read on
    /// from there once more bytes have arrived.
    Pending(usize),
}

/// Number of bytes that a line read takes from the waiting bytes `avail`
/// when `room` places are left: up to and with the first line end, but no
/// more than there is room for.
pub open spec fn line_take(avail: Seq<u8>, room: int) -> int
    decreases avail.len(),
{
    if room <= 0 || avail.len() == 0 {
        0
    } else if avail[0] == LINE_END {
        1
    } else {
        1 + line_take(avail.drop_first(), room - 1)
    }
}

/// How a line read ends that starts at index `start` of a buffer of `len`
/// places with `avail` waiting.
pub open spec fn line_result(avail: Seq<u8>, start: int, len: int) -> LineRead {
    let n = line_take(avail, len - start);
    if n > 0 && avail[n - 1] == LINE_END {
        LineRead::Complete((start + n) as usize)
    } else if start + n >= len {
        LineRead::Abandoned
    } else {
        LineRead::Pending((start + n) as usize)
    }
}

/// A line read takes no more than waits and no more than fits, and no byte
/// before the last one taken is a line end.
pub proof fn lemma_line_take(avail: Seq<u8>, room: int)
    ensures
        0 <= line_take(avail, room) <= avail.len(),
        room >= 0 ==> line_take(avail, room) <= room,
        forall|i: int| 0 <= i < line_take(avail, room) - 1 ==> avail[i] != LINE_END,
    decreases avail.len(),
{
    if room <= 0 || avail.len() == 0 {
    } else if avail[0] == LINE_END {
    } else {
        lemma_line_take(avail.drop_first(), room - 1);
        assert forall|i: int| 0 <= i < line_take(avail, room) - 1 implies avail[i] != LINE_END by {
            if i > 0 {
                assert(avail[i] == avail.drop_first()[i - 1]);
            }
        }
    }
}

proof fn lemma_line_take_step(avail: Seq<u8>, room: int, k: int)
    requires
        0 <= k < avail.len(),
        k < room,
        forall|i: int| 0 <= i < k ==> avail[i] != LINE_END,
        line_take(avail, room) == k + line_take(avail.skip(k), room - k),
    ensures
        avail[k] == LINE_END ==> line_take(avail, room) == k + 1,
        avail[k] != LINE_END ==> line_take(avail, room) == k + 1 + line_take(
            avail.skip(k + 1),
            room - k - 1,
        ),
{
    assert(avail.skip(k)[0] == avail[k]);
    assert(avail.skip(k).drop_first() =~= avail.skip(k + 1));
}

/// Moves waiting bytes from `rx` into `line`, from index `start` on, until
/// a line end was moved, the buffer is full, or nothing waits any more.
pub fn read_until_line(rx: &mut ByteQueue, line: &mut Vec<u8>, start: usize) -> (r: LineRead)
    requires
        start <= old(line)@.len(),
    ensures
        r == line_result(queue_contents(*old(rx)), start as int, old(line)@.len() as int),
        queue_contents(*final(rx)) == queue_contents(*old(rx)).skip(
            line_take(queue_contents(*old(rx)), old(line)@.len() - start),
        ),
        final(line)@ == old(line)@.subrange(0, start as int) + queue_contents(*old(rx)).subrange(
            0,
            line_take(queue_contents(*old(rx)), old(line)@.len() - start),
        ) + old(line)@.subrange(
            start + line_take(queue_contents(*old(rx)), old(line)@.len() - start),
            old(line)@.len() as int,
        ),
{
    let ghost avail = queue_contents(*rx);
    let ghost room = line@.len() - start;
    let ghost before = line@;
    proof {
        lemma_line_take(avail, room);
        assert(avail.skip(0) =~= avail);
        assert(before.subrange(0, start as int) + avail.subrange(0, 0) + before.subrange(
            start as int,
            before.len() as int,
        ) =~= before);
    }
    let mut index: usize = start;
    while index < line.len()
        invariant
            avail == queue_contents(*old(rx)),
            before == old(line)@,
            line@.len() == before.len(),
            start <= index <= line@.len(),
            room == before.len() - start,
            index - start <= avail.len(),
            queue_contents(*rx) == avail.skip(index - start),
            line@ == before.subrange(0, start as int) + avail.subrange(0, index - start)
                + before.subrange(index as int, before.len() as int),
            forall|i: int| 0 <= i < index - start ==> avail[i] != LINE_END,
            line_take(avail, room) == (index - start) + line_take(
                avail.skip(index - start),
                room - (index - start),
            ),
        decreases line@.len() - index,
    {
        let ghost k = index - start;
        proof {
            lemma_line_take(avail, room);
        }
        match queue_pop(rx) {
            None => {
                return LineRead::Pending(index);
            },
            Some(value) => {
                proof {
                    lemma_line_take_step(avail, room, k);
                    assert(avail.skip(k).drop_first() =~= avail.skip(k + 1));
                }
                line[index] = value;
                assert(line@ =~= before.subrange(0, start as int) + avail.subrange(0, k + 1)
                    + before.subrange(index + 1, before.len() as int));
                index = index + 1;
                if value == LINE_END {
                    return LineRead::Complete(index);
                }
            },
        }
    }
    LineRead::Abandoned
}

} // verus!
