//! The serial transport: register decoding, one-shot and bounded-time reads,
//! and text decoding of captured bytes.
//!
//! Nothing here touches the hardware. Each function takes what the hardware
//! returned (a register, a status word, the bytes of a poll, the clock) and
//! says what the transport makes of it.

use core::str::Utf8Error;
use vstd::prelude::*;
use vstd::string::*;
use vstd::utf8::{decode_utf8, encode_utf8_decode_utf8, valid_utf8};

pub mod ansi;
pub mod log;

verus! {

/// The read timeout of a transport that was never given one, in milliseconds.
pub const DEFAULT_TIMEOUT_MS: u32 = 1000;

/// The number of bytes that a text read captures at most.
pub const TEXT_CAPACITY: usize = 256;

/// The control-line bit that holds the DTR signal.
pub const USB_SERIAL_DTR: u8 = 0x01;

/// The control-line bit that holds the RTS signal.
pub const USB_SERIAL_RTS: u8 = 0x02;

/// The parity setting of a serial line.
#[derive(Clone, Copy, PartialEq, Eq, Debug, Structural)]
pub enum Parity {
    /// No parity bit.
    NoParity,
    /// Odd parity.
    Odd,
    /// Even parity.
    Even,
}

impl Parity {
    /// The parity that a 2-bit register field encodes. The hardware reports
    /// 0, 1 or 2; nothing else is a parity.
    pub fn from(num: u8) -> (parity: Parity)
        requires
            num <= 2,
        ensures
            num == 0 ==> parity == Parity::NoParity,
            num == 1 ==> parity == Parity::Odd,
            num == 2 ==> parity == Parity::Even,
    {
        if num == 0 {
            Parity::NoParity
        } else if num == 1 {
            Parity::Odd
        } else {
            Parity::Even
        }
    }
}

/// The byte of `word` at place `index`, counted from the most significant
/// byte, which has place 0.
pub open spec fn be_byte(word: u32, index: nat) -> u8
    recommends
        index < 4,
{
    if index == 0 {
        (word / 0x100_0000) as u8
    } else if index == 1 {
        ((word / 0x1_0000) % 0x100) as u8
    } else if index == 2 {
        ((word / 0x100) % 0x100) as u8
    } else {
        (word % 0x100) as u8
    }
}

/// The time that has passed on a 32-bit millisecond clock between the
/// readings `start` and `now`, the clock having wrapped at most once.
pub open spec fn elapsed_ms(start: u32, now: u32) -> nat {
    if now >= start {
        (now - start) as nat
    } else {
        (now + 0x1_0000_0000 - start) as nat
    }
}

/// The error of a text read whose bytes are no text.
#[derive(Clone, Copy, PartialEq, Eq, Debug, Structural)]
pub enum DecodeError {
    /// The captured bytes are not valid UTF-8.
    InvalidUtf8,
}

/// What a text read makes of the bytes it captured: no data where there
/// are none, their text where they are valid UTF-8, an error otherwise.
pub open spec fn text_of(captured: Seq<u8>) -> Result<Option<Seq<char>>, DecodeError> {
    if captured.len() == 0 {
        Ok(None)
    } else if valid_utf8(captured) {
        Ok(Some(decode_utf8(captured)))
    } else {
        Err(DecodeError::InvalidUtf8)
    }
}

/// The result of a text read with its text as a sequence of characters.
pub open spec fn text_view(text: Result<Option<String>, DecodeError>) -> Result<
    Option<Seq<char>>,
    DecodeError,
> {
    match text {
        Ok(Some(s)) => Ok(Some(s@)),
        Ok(None) => Ok(None),
        Err(e) => Err(e),
    }
}

/// `core::str::Utf8Error`, the error of `core::str::from_utf8`. It is
/// carried from the call to the place that turns it into a `DecodeError`, and
/// never looked into.
#[verifier::external_type_specification]
#[verifier::external_body]
pub struct ExUtf8Error(Utf8Error);

/// `core::str::from_utf8`. It succeeds exactly on valid UTF-8, and the text
/// it then returns is made of the very bytes it was given.
#[verifier::external_body]
fn str_from_utf8<'a>(bytes: &'a [u8]) -> (text: Result<&'a str, Utf8Error>)
    ensures
        text is Ok <==> valid_utf8(bytes@),
        text is Ok ==> text->Ok_0.spec_bytes() == bytes@,
{
    core::str::from_utf8(bytes)
}

/// Copies the first `n` bytes of `src` into `dst` from place `offset` on.
fn copy_into(dst: &mut Vec<u8>, offset: usize, src: &[u8], n: usize)
    requires
        n <= src@.len(),
        offset + n <= old(dst)@.len(),
    ensures
        final(dst)@ == old(dst)@.take(offset as int) + src@.take(n as int) + old(dst)@.skip(
            offset + n,
        ),
{
    let len: usize = dst.len();
    let mut i: usize = 0;
    while i < n
        invariant
            i <= n <= src@.len(),
            offset + n <= len,
            len == dst@.len(),
            dst@.len() == old(dst)@.len(),
            dst@ == old(dst)@.take(offset as int) + src@.take(i as int) + old(dst)@.skip(
                offset + i,
            ),
        decreases n - i,
    {
        dst.set(offset + i, src[i]);
        assert(dst@ =~= old(dst)@.take(offset as int) + src@.take(i + 1) + old(dst)@.skip(
            offset + i + 1,
        ));
        i += 1;
    }
}

/// The USB-serial transport. It owns the timeout of the bounded reads.
pub struct USBSerial {
    timeout: u32,
}

impl USBSerial {
    /// A transport with the default timeout.
    pub fn new() -> (serial: Self)
        ensures
            serial.timeout_ms() == DEFAULT_TIMEOUT_MS,
    {
        USBSerial { timeout: DEFAULT_TIMEOUT_MS }
    }

    /// The timeout of the bounded reads, in milliseconds.
    pub closed spec fn timeout_ms(&self) -> u32 {
        self.timeout
    }

    /// The timeout of the bounded reads, in milliseconds.
    pub fn timeout(&self) -> (ms: u32)
        ensures
            ms == self.timeout_ms(),
    {
        self.timeout
    }

    /// Sets the timeout of the bounded reads, in milliseconds.
    pub fn set_timeout(&mut self, timeout: u32)
        ensures
            final(self).timeout_ms() == timeout,
    {
        self.timeout = timeout;
    }

    /// The character that a status word of the hardware stands for: the
    /// word is -1 where no byte is buffered, and the byte otherwise.
    pub fn received_char(raw: i16) -> (next: Option<char>)
        requires
            -1 <= raw <= 255,
        ensures
            raw == -1 <==> next is None,
            next is Some ==> next->Some_0 as int == raw,
    {
        if raw == -1 {
            None
        } else {
            let byte: u8 = raw as u8;
            Some(byte as char)
        }
    }

    /// The baud rate that the host asked for: the first word of the line
    /// coding.
    pub fn baud(line_coding: &[u32; 2]) -> (rate: u32)
        ensures
            rate == line_coding@[0],
    {
        line_coding[0]
    }

    /// The number of stop bits that the host asked for: the most
    /// significant byte of the second word of the line coding, where 0 stands
    /// for 1.
    pub fn stop_bits(line_coding: &[u32; 2]) -> (bits: u8)
        ensures
            bits == if be_byte(line_coding@[1], 0) == 0 {
                1u8
            } else {
                be_byte(line_coding@[1], 0)
            },
    {
        let b: u8 = (line_coding[1] / 0x100_0000) as u8;
        if b == 0 {
            1
        } else {
            b
        }
    }

    /// The parity that the host asked for: the second byte of the second
    /// word of the line coding.
    pub fn parity_type(line_coding: &[u32; 2]) -> (parity: Parity)
        requires
            be_byte(line_coding@[1], 1) <= 2,
        ensures
            be_byte(line_coding@[1], 1) == 0 ==> parity == Parity::NoParity,
            be_byte(line_coding@[1], 1) == 1 ==> parity == Parity::Odd,
            be_byte(line_coding@[1], 1) == 2 ==> parity == Parity::Even,
    {
        Parity::from(((line_coding[1] / 0x1_0000) % 0x100) as u8)
    }

    /// The number of data bits that the host asked for: the third byte of
    /// the second word of the line coding.
    pub fn num_bits(line_coding: &[u32; 2]) -> (bits: u8)
        ensures
            bits == be_byte(line_coding@[1], 2),
    {
        ((line_coding[1] / 0x100) % 0x100) as u8
    }

    /// Whether the control lines show DTR: their lowest bit.
    pub fn dtr(lines: u8) -> (high: bool)
        ensures
            high == (lines % 2 == 1),
    {
        assert(lines & 0x01 != 0 <==> lines % 2 == 1) by (bit_vector);
        lines & USB_SERIAL_DTR != 0
    }

    /// Whether the control lines show RTS: their second lowest bit.
    pub fn rts(lines: u8) -> (high: bool)
        ensures
            high == ((lines / 2) % 2 == 1),
    {
        assert(lines & 0x02 != 0 <==> (lines / 2) % 2 == 1) by (bit_vector);
        lines & USB_SERIAL_RTS != 0
    }

    /// Whether a one-byte write went through: the hardware took exactly
    /// one byte.
    pub fn write_char(accepted: usize) -> (success: bool)
        ensures
            success == (accepted == 1),
    {
        accepted == 1
    }

    /// A one-shot read: of the bytes that are pending, as many as fit are
    /// copied to the front of `buffer`, as they are and in their order. The
    /// rest of `buffer` stays. Returns how many were copied.
    pub fn read_bytes(pending: &[u8], buffer: &mut Vec<u8>) -> (count: usize)
        ensures
            count == vstd::math::min(pending@.len() as int, old(buffer)@.len() as int),
            final(buffer)@ == pending@.take(count as int) + old(buffer)@.skip(count as int),
    {
        let count: usize = if pending.len() < buffer.len() {
            pending.len()
        } else {
            buffer.len()
        };
        copy_into(buffer, 0, pending, count);
        assert(buffer@ =~= pending@.take(count as int) + old(buffer)@.skip(count as int));
        count
    }

    /// What a text read makes of the bytes it captured.
    pub fn decode_text(captured: &[u8]) -> (text: Result<Option<String>, DecodeError>)
        ensures
            text_view(text) == text_of(captured@),
    {
        if captured.len() == 0 {
            return Ok(None);
        }
        match str_from_utf8(captured) {
            Ok(s) => {
                proof {
                    encode_utf8_decode_utf8(s@);
                }
                Ok(Some(String::from_str(s)))
            },
            Err(_) => Err(DecodeError::InvalidUtf8),
        }
    }

    /// A one-shot text read: of the bytes that are pending, the first 256
    /// at most are captured and decoded.
    pub fn read_str(pending: &[u8]) -> (text: Result<Option<String>, DecodeError>)
        ensures
            text_view(text) == text_of(
                pending@.take(vstd::math::min(pending@.len() as int, TEXT_CAPACITY as int)),
            ),
    {
        let count: usize = if pending.len() < TEXT_CAPACITY {
            pending.len()
        } else {
            TEXT_CAPACITY
        };
        let captured = vstd::slice::slice_subrange(pending, 0, count);
        assert(captured@ =~= pending@.take(count as int));
        Self::decode_text(captured)
    }
}

/// A bounded read in progress, as contracts see it.
pub struct BoundedReadView {
    /// The destination: its first `count` bytes were received.
    pub buffer: Seq<u8>,
    /// How many bytes were received so far.
    pub count: nat,
    /// The clock when the read began, in milliseconds.
    pub start_ms: u32,
    /// The time after which the read gives up, in milliseconds.
    pub timeout_ms: u32,
}

impl BoundedReadView {
    /// The received bytes fit the destination.
    pub open spec fn wf(self) -> bool {
        self.count <= self.buffer.len()
    }

    /// How many bytes the destination still takes.
    pub open spec fn room(self) -> nat {
        (self.buffer.len() - self.count) as nat
    }

    /// How many bytes of a chunk are taken: all that fit.
    pub open spec fn taken(self, chunk: Seq<u8>) -> nat {
        if chunk.len() <= self.room() {
            chunk.len()
        } else {
            self.room()
        }
    }

    /// The read after the bytes of one poll have arrived: those that fit
    /// stand behind what was received before, and the count has grown by
    /// their number.
    pub open spec fn receive(self, chunk: Seq<u8>) -> BoundedReadView {
        let n = self.taken(chunk);
        BoundedReadView {
            buffer: self.buffer.take(self.count as int) + chunk.take(n as int) + self.buffer.skip(
                (self.count + n) as int,
            ),
            count: self.count + n,
            ..self
        }
    }

    /// Whether the read ends at the clock reading `now_ms`: the destination
    /// is full, or the timeout has passed since the read began.
    pub open spec fn finished(self, now_ms: u32) -> bool {
        self.count >= self.buffer.len() || elapsed_ms(self.start_ms, now_ms) >= self.timeout_ms
    }

    /// The read after a series of polls, each with the bytes it returned
    /// and the clock reading after it. Polls after the one at which the read
    /// ends are not made.
    pub open spec fn run(self, polls: Seq<(Seq<u8>, u32)>) -> BoundedReadView
        decreases polls.len(),
    {
        if polls.len() == 0 {
            self
        } else {
            let next = self.receive(polls[0].0);
            if next.finished(polls[0].1) {
                next
            } else {
                next.run(polls.drop_first())
            }
        }
    }
}

/// What the caller of a bounded read does next.
#[derive(Clone, Copy, PartialEq, Eq, Debug, Structural)]
pub enum ReadStep {
    /// Poll the hardware again, for at most `room` bytes, which will stand
    /// at `offset` in the destination.
    Poll { offset: usize, room: usize },
    /// The read is over: `count` bytes were received.
    Done { count: usize },
}

/// A bounded read in progress: a destination that fills from the front,
/// poll by poll, until it is full or the timeout has passed.
pub struct BoundedRead {
    buffer: Vec<u8>,
    count: usize,
    start_ms: u32,
    timeout_ms: u32,
}

impl View for BoundedRead {
    type V = BoundedReadView;

    closed spec fn view(&self) -> BoundedReadView {
        BoundedReadView {
            buffer: self.buffer@,
            count: self.count as nat,
            start_ms: self.start_ms,
            timeout_ms: self.timeout_ms,
        }
    }
}

impl BoundedRead {
    /// How many bytes were received so far.
    pub fn count(&self) -> (count: usize)
        ensures
            count == self@.count,
    {
        self.count
    }

    /// How many bytes the destination still takes.
    pub fn room(&self) -> (room: usize)
        requires
            self@.wf(),
        ensures
            room == self@.room(),
    {
        self.buffer.len() - self.count
    }

    /// Takes in the bytes that one poll of the hardware returned, with the
    /// clock reading after that poll, and says what to do next. Of the chunk
    /// as many bytes as fit are copied behind those received before. The
    /// read is over once the destination is full or the timeout has passed;
    /// until then the hardware is to be polled again.
    pub fn poll(&mut self, chunk: &[u8], now_ms: u32) -> (step: ReadStep)
        requires
            old(self)@.wf(),
        ensures
            final(self)@ == old(self)@.receive(chunk@),
            final(self)@.wf(),
            final(self)@.count <= final(self)@.buffer.len() == old(self)@.buffer.len(),
            step == if final(self)@.finished(now_ms) {
                ReadStep::Done { count: final(self)@.count as usize }
            } else {
                ReadStep::Poll {
                    offset: final(self)@.count as usize,
                    room: final(self)@.room() as usize,
                }
            },
    {
        let length: usize = self.buffer.len();
        let room: usize = length - self.count;
        let n: usize = if chunk.len() <= room {
            chunk.len()
        } else {
            room
        };
        copy_into(&mut self.buffer, self.count, chunk, n);
        self.count = self.count + n;
        let elapsed: u32 = if now_ms >= self.start_ms {
            now_ms - self.start_ms
        } else {
            (u32::MAX - self.start_ms) + now_ms + 1
        };
        if self.count >= length || elapsed >= self.timeout_ms {
            ReadStep::Done { count: self.count }
        } else {
            ReadStep::Poll { offset: self.count, room: length - self.count }
        }
    }

    /// The bytes that were received, in their order.
    pub fn received(&self) -> (bytes: &[u8])
        requires
            self@.wf(),
        ensures
            bytes@ == self@.buffer.take(self@.count as int),
    {
        let bytes = vstd::slice::slice_subrange(self.buffer.as_slice(), 0, self.count);
        assert(bytes@ =~= self@.buffer.take(self@.count as int));
        bytes
    }

    /// Ends the read and hands back the destination with the count.
    pub fn finish(self) -> (done: (Vec<u8>, usize))
        ensures
            done.0@ == self@.buffer,
            done.1 == self@.count,
    {
        (self.buffer, self.count)
    }
}

impl USBSerial {
    /// Begins a bounded read into `buffer` at the clock reading `now_ms`,
    /// with the timeout of this transport. Nothing is received yet: the
    /// first poll is for the whole of `buffer`.
    pub fn read_bytes_timeout(&self, buffer: Vec<u8>, now_ms: u32) -> (read: BoundedRead)
        ensures
            read@ == (BoundedReadView {
                buffer: buffer@,
                count: 0,
                start_ms: now_ms,
                timeout_ms: self.timeout_ms(),
            }),
            read@.wf(),
    {
        BoundedRead { buffer, count: 0, start_ms: now_ms, timeout_ms: self.timeout }
    }

    /// The text of what a bounded read received.
    pub fn read_str_timeout(read: &BoundedRead) -> (text: Result<Option<String>, DecodeError>)
        requires
            read@.wf(),
        ensures
            text_view(text) == text_of(read@.buffer.take(read@.count as int)),
    {
        Self::decode_text(read.received())
    }
}

/// A bounded read never receives more than its destination holds, whatever
/// the polls return and whenever they return it: after any series of polls
/// the count is within the destination, whose length has not changed, the
/// count has not gone down, and what was received before still stands.
pub proof fn bounded_read_never_overfills(read: BoundedReadView, polls: Seq<(Seq<u8>, u32)>)
    requires
        read.wf(),
    ensures
        read.run(polls).wf(),
        read.run(polls).buffer.len() == read.buffer.len(),
        read.count <= read.run(polls).count <= read.buffer.len(),
        read.run(polls).buffer.take(read.count as int) == read.buffer.take(read.count as int),
    decreases polls.len(),
{
    if polls.len() > 0 {
        let next = read.receive(polls[0].0);
        assert(next.buffer.take(read.count as int) =~= read.buffer.take(read.count as int));
        if !next.finished(polls[0].1) {
            bounded_read_never_overfills(next, polls.drop_first());
            let last = next.run(polls.drop_first());
            assert(last.buffer.take(read.count as int) =~= last.buffer.take(
                next.count as int,
            ).take(read.count as int));
            assert(next.buffer.take(read.count as int) =~= next.buffer.take(
                next.count as int,
            ).take(read.count as int));
        }
    }
}

/// What a poll returns stands directly behind what was received before: the
/// received bytes after the poll are those before it followed by the bytes
/// that were taken, and the rest of the destination beyond them stays.
pub proof fn poll_appends(read: BoundedReadView, chunk: Seq<u8>)
    requires
        read.wf(),
    ensures
        read.receive(chunk).count == read.count + read.taken(chunk),
        read.receive(chunk).buffer.take(read.receive(chunk).count as int) == read.buffer.take(
            read.count as int,
        ) + chunk.take(read.taken(chunk) as int),
        read.receive(chunk).buffer.skip(read.receive(chunk).count as int) == read.buffer.skip(
            read.receive(chunk).count as int,
        ),
{
    let next = read.receive(chunk);
    assert(next.buffer.take(next.count as int) =~= read.buffer.take(read.count as int)
        + chunk.take(read.taken(chunk) as int));
    assert(next.buffer.skip(next.count as int) =~= read.buffer.skip(next.count as int));
}

/// A poll that fills the destination ends the read, and so does a poll
/// after which the timeout has passed; a poll that does neither does not.
pub proof fn bounded_read_ends(read: BoundedReadView, chunk: Seq<u8>, now_ms: u32)
    requires
        read.wf(),
    ensures
        chunk.len() >= read.room() ==> read.receive(chunk).finished(now_ms),
        elapsed_ms(read.start_ms, now_ms) >= read.timeout_ms ==> read.receive(chunk).finished(
            now_ms,
        ),
        chunk.len() < read.room() && elapsed_ms(read.start_ms, now_ms) < read.timeout_ms
            ==> !read.receive(chunk).finished(now_ms),
{
}

/// Why a write through the transport did not go through.
#[derive(Clone, Copy, PartialEq, Eq, Debug, Structural)]
pub enum WriteError {
    /// The hardware took fewer bytes than it was given.
    Incomplete,
}

/// The transport as a sink of formatted text: a write goes through only
/// where the hardware took all of it.
pub struct USBSerialWriter;

impl USBSerialWriter {
    /// Whether the write of `s` went through, the hardware having taken
    /// `accepted` bytes: it did where that is the length of `s` in bytes.
    pub fn write_str(&mut self, s: &str, accepted: usize) -> (done: Result<(), WriteError>)
        ensures
            done is Ok <==> accepted == s.len(),
            done is Err ==> done == Err::<(), WriteError>(WriteError::Incomplete),
    {
        if accepted != s.len() {
            Err(WriteError::Incomplete)
        } else {
            Ok(())
        }
    }

    /// Whether the write of one character went through.
    pub fn write_char(&mut self, accepted: bool) -> (done: Result<(), WriteError>)
        ensures
            done is Ok <==> accepted,
            done is Err ==> done == Err::<(), WriteError>(WriteError::Incomplete),
    {
        if accepted {
            Ok(())
        } else {
            Err(WriteError::Incomplete)
        }
    }
}

} // verus!
