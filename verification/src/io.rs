//! The in-memory transport between a TLS engine and the driver of a trace.
//!
//! A [`MemoryStream`] looks like a socket to the engine that is plugged into
//! it: the engine reads what the driver has put into the inbound channel and
//! writes into the outbound channel. The driver fills the inbound channel and
//! takes whole TLS records out of the outbound channel. Nothing ever blocks:
//! a read that finds no byte reports that it would block.

use crate::record::encode_all;
use crate::record::encodings;
use crate::record::frame_records;
use crate::record::is_record;
use crate::record::lemma_records_are_records;
use crate::record::lemma_records_of_flatten;
use crate::record::lemma_records_of_join;
use crate::record::lemma_records_unfold;
use crate::record::record_len;
use crate::record::records;
use crate::record::starts_with_record;
use vstd::prelude::*;
use vstd::slice::slice_to_vec;

verus! {

/// Why a read from a channel handed out no byte.
#[derive(Clone, Copy, Debug, PartialEq, Eq, Structural)]
pub enum StreamError {
    /// No byte could be handed out now; more may arrive later. This is no end
    /// of stream.
    WouldBlock,
}

/// What a [`Channel`] holds: all its bytes, and how many of them have been
/// read.
pub struct ChannelView {
    pub bytes: Seq<u8>,
    pub cursor: nat,
}

impl ChannelView {
    /// The cursor never passes the end, and a channel that has been read to
    /// its end is empty.
    pub open spec fn well_formed(self) -> bool {
        &&& self.cursor <= self.bytes.len()
        &&& self.cursor == self.bytes.len() ==> self.cursor == 0
    }

    /// The channel with no bytes.
    pub open spec fn empty() -> Self {
        ChannelView { bytes: Seq::empty(), cursor: 0 }
    }

    /// The bytes that no read has handed out yet.
    pub open spec fn unread(self) -> Seq<u8> {
        self.bytes.skip(self.cursor as int)
    }

    /// The channel after `data` was put behind its last byte.
    pub open spec fn append(self, data: Seq<u8>) -> Self {
        ChannelView { bytes: self.bytes + data, cursor: self.cursor }
    }

    /// The channel after `data` was put before its first byte.
    pub open spec fn prepend(self, data: Seq<u8>) -> Self {
        ChannelView { bytes: data + self.bytes, cursor: self.cursor }
    }

    /// How many bytes a read into a destination of `room` bytes hands out.
    pub open spec fn read_count(self, room: nat) -> nat {
        if room <= self.unread().len() {
            room
        } else {
            self.unread().len()
        }
    }

    /// What a read into a destination of `room` bytes reports.
    pub open spec fn read_result(self, room: nat) -> Result<usize, StreamError> {
        if self.read_count(room) == 0 {
            Err(StreamError::WouldBlock)
        } else {
            Ok(self.read_count(room) as usize)
        }
    }

    /// The channel after a read into a destination of `room` bytes: the cursor
    /// has moved on, and a channel read to its end is emptied.
    pub open spec fn after_read(self, room: nat) -> Self {
        if self.cursor + self.read_count(room) == self.bytes.len() {
            Self::empty()
        } else {
            ChannelView { bytes: self.bytes, cursor: self.cursor + self.read_count(room) }
        }
    }

    /// The first complete record of the channel, if it begins with one.
    pub open spec fn first_record(self) -> Option<Seq<u8>> {
        if starts_with_record(self.bytes) {
            Some(self.bytes.take(record_len(self.bytes) as int))
        } else {
            None
        }
    }

    /// The channel after its first record was taken: the complete records
    /// that follow it, and nothing else. A channel that begins with no
    /// complete record stays as it is.
    pub open spec fn after_take_record(self) -> Self {
        if starts_with_record(self.bytes) {
            ChannelView { bytes: records(self.bytes).skip(1).flatten(), cursor: 0 }
        } else {
            self
        }
    }

    /// The channel after `count` records were taken from it, one after the
    /// other.
    pub open spec fn after_take_records(self, count: nat) -> Self
        decreases count,
    {
        if count == 0 {
            self
        } else {
            self.after_take_record().after_take_records((count - 1) as nat)
        }
    }
}

/// A byte buffer with a read cursor, which can also hand out its content one
/// TLS record at a time.
pub struct Channel {
    data: Vec<u8>,
    position: usize,
}

impl View for Channel {
    type V = ChannelView;

    closed spec fn view(&self) -> ChannelView {
        ChannelView { bytes: self.data@, cursor: self.position as nat }
    }
}

impl Channel {
    #[verifier::type_invariant]
    spec fn inv(self) -> bool {
        self@.well_formed()
    }

    /// An empty channel.
    pub fn new() -> (c: Channel)
        ensures
            c@ == ChannelView::empty(),
    {
        Channel { data: Vec::new(), position: 0 }
    }

    /// Puts `data` behind the last byte.
    pub fn append(&mut self, data: &[u8])
        ensures
            final(self)@ == old(self)@.append(data@),
            final(self)@.well_formed(),
    {
        proof {
            use_type_invariant(&*self);
        }
        let mut bytes = slice_to_vec(self.data.as_slice());
        bytes.extend_from_slice(data);
        assert(bytes@ =~= self.data@ + data@);
        self.data = bytes;
    }

    /// Puts `data` before the first byte, in the order in which `data` holds
    /// it.
    pub fn prepend(&mut self, data: &[u8])
        ensures
            final(self)@ == old(self)@.prepend(data@),
            final(self)@.well_formed(),
    {
        proof {
            use_type_invariant(&*self);
        }
        let mut bytes = slice_to_vec(data);
        bytes.extend_from_slice(self.data.as_slice());
        assert(bytes@ =~= data@ + self.data@);
        self.data = bytes;
    }

    /// Hands out unread bytes into the front of `dst`, as many as there are
    /// and as fit, and moves the cursor behind them. A channel read to its end
    /// is emptied. A read that hands out nothing reports
    /// [`StreamError::WouldBlock`]: it is never taken for an end of stream.
    pub fn read(&mut self, dst: &mut [u8]) -> (r: Result<usize, StreamError>)
        ensures
            r == old(self)@.read_result(old(dst)@.len()),
            final(self)@ == old(self)@.after_read(old(dst)@.len()),
            final(self)@.well_formed(),
            final(dst)@ == old(self)@.unread().take(
                old(self)@.read_count(old(dst)@.len()) as int,
            ) + old(dst)@.skip(old(self)@.read_count(old(dst)@.len()) as int),
    {
        proof {
            use_type_invariant(&*self);
        }
        let room = dst.len();
        let left = self.data.len() - self.position;
        let count = if room <= left {
            room
        } else {
            left
        };
        let mut i: usize = 0;
        while i < count
            invariant
                i <= count,
                count <= dst@.len(),
                dst@.len() == old(dst)@.len(),
                self.position + count <= self.data@.len() <= usize::MAX,
                *self == *old(self),
                dst@ == old(self)@.unread().take(i as int) + old(dst)@.skip(i as int),
            decreases count - i,
        {
            dst[i] = self.data[self.position + i];
            i = i + 1;
            assert(dst@ =~= old(self)@.unread().take(i as int) + old(dst)@.skip(i as int));
        }
        if self.position + count == self.data.len() {
            *self = Channel { data: Vec::new(), position: 0 };
        } else {
            self.position = self.position + count;
        }
        if count == 0 {
            Err(StreamError::WouldBlock)
        } else {
            Ok(count)
        }
    }

    /// Takes the first TLS record out of the channel. Where the channel begins
    /// with a complete record, that record is returned as it stood in the
    /// channel, and the channel keeps the complete records that followed it,
    /// in their order; bytes behind them that form no complete record are
    /// dropped. Where it begins with none, nothing is returned and the channel
    /// stays as it is.
    pub fn take_record(&mut self) -> (r: Option<Vec<u8>>)
        ensures
            r is Some <==> old(self)@.first_record() is Some,
            r matches Some(rec) ==> Some(rec@) == old(self)@.first_record() && is_record(rec@),
            final(self)@ == old(self)@.after_take_record(),
            final(self)@.well_formed(),
    {
        proof {
            use_type_invariant(&*self);
        }
        let (frames, _) = frame_records(self.data.as_slice());
        assert(records(self.data@).len() == frames@.len());
        if frames.len() == 0 {
            return None;
        }
        proof {
            lemma_records_unfold(self.data@);
            lemma_records_are_records(self.data@, 0);
        }
        let mut message: Vec<u8> = Vec::new();
        frames[0].encode(&mut message);
        let mut rest: Vec<u8> = Vec::new();
        encode_all(&frames, 1, &mut rest);
        assert(message@ =~= encodings(frames@)[0]);
        assert(rest@ =~= records(self.data@).skip(1).flatten());
        *self = Channel { data: rest, position: 0 };
        Some(message)
    }

    /// Returns a copy of all bytes of the channel, those already read
    /// included, and empties it.
    pub fn take_all(&mut self) -> (r: Vec<u8>)
        ensures
            r@ == old(self)@.bytes,
            final(self)@ == ChannelView::empty(),
    {
        let bytes = slice_to_vec(self.data.as_slice());
        *self = Channel { data: Vec::new(), position: 0 };
        bytes
    }
}

/// What a [`MemoryStream`] holds: its two channels.
pub struct MemoryStreamView {
    pub inbound: ChannelView,
    pub outbound: ChannelView,
}

/// A stream with two channels, which a TLS engine can treat like a socket.
/// What the engine writes goes to the outbound channel; what it reads comes
/// from the inbound channel. The two channels never share a byte.
pub struct MemoryStream {
    inbound: Channel,
    outbound: Channel,
}

impl View for MemoryStream {
    type V = MemoryStreamView;

    closed spec fn view(&self) -> MemoryStreamView {
        MemoryStreamView { inbound: self.inbound@, outbound: self.outbound@ }
    }
}

impl MemoryStream {
    /// A stream whose two channels are empty.
    pub fn new() -> (s: MemoryStream)
        ensures
            s@.inbound == ChannelView::empty(),
            s@.outbound == ChannelView::empty(),
    {
        MemoryStream { inbound: Channel::new(), outbound: Channel::new() }
    }

    /// The engine's read: bytes of the inbound channel go to the front of
    /// `buf`. Reports [`StreamError::WouldBlock`] where no byte was handed
    /// out.
    pub fn read_stream(&mut self, buf: &mut [u8]) -> (r: Result<usize, StreamError>)
        ensures
            r == old(self)@.inbound.read_result(old(buf)@.len()),
            final(self)@.inbound == old(self)@.inbound.after_read(old(buf)@.len()),
            final(self)@.inbound.well_formed(),
            final(self)@.outbound == old(self)@.outbound,
            final(buf)@ == old(self)@.inbound.unread().take(
                old(self)@.inbound.read_count(old(buf)@.len()) as int,
            ) + old(buf)@.skip(old(self)@.inbound.read_count(old(buf)@.len()) as int),
    {
        self.inbound.read(buf)
    }

    /// The engine's write: all of `buf` goes behind the last byte of the
    /// outbound channel. Returns the number of bytes written, which is the
    /// length of `buf`.
    pub fn write_stream(&mut self, buf: &[u8]) -> (n: usize)
        ensures
            n == buf@.len(),
            final(self)@.outbound == old(self)@.outbound.append(buf@),
            final(self)@.inbound == old(self)@.inbound,
    {
        self.outbound.append(buf);
        buf.len()
    }

    /// The engine's flush: there is nothing to flush, the stream stays as it
    /// is.
    pub fn flush_stream(&mut self)
        ensures
            final(self)@ == old(self)@,
    {
    }
}

#[verifier::external_type_specification]
#[verifier::external_body]
pub struct ExIoError(std::io::Error);

/// Calls `std::io::Error::new` with the kind `std::io::ErrorKind::WouldBlock`
/// and the message "no data available". Nothing is claimed of the error that
/// comes back.
#[verifier::external_body]
fn would_block_error() -> std::io::Error {
    std::io::Error::new(std::io::ErrorKind::WouldBlock, "no data available")
}

impl std::io::Read for MemoryStream {
    /// Reads from the inbound channel as [`MemoryStream::read_stream`] does.
    /// Where that reports [`StreamError::WouldBlock`], the error returned here
    /// is an I/O error of the kind `WouldBlock`.
    fn read(&mut self, buf: &mut [u8]) -> (r: std::io::Result<usize>)
        ensures
            r is Ok <==> old(self)@.inbound.read_result(old(buf)@.len()) is Ok,
            r matches Ok(n) ==> old(self)@.inbound.read_result(old(buf)@.len()) == Ok::<
                usize,
                StreamError,
            >(n),
            final(self)@.inbound == old(self)@.inbound.after_read(old(buf)@.len()),
            final(self)@.inbound.well_formed(),
            final(self)@.outbound == old(self)@.outbound,
            final(buf)@ == old(self)@.inbound.unread().take(
                old(self)@.inbound.read_count(old(buf)@.len()) as int,
            ) + old(buf)@.skip(old(self)@.inbound.read_count(old(buf)@.len()) as int),
    {
        match self.read_stream(buf) {
            Ok(n) => Ok(n),
            Err(StreamError::WouldBlock) => Err(would_block_error()),
        }
    }
}

impl std::io::Write for MemoryStream {
    /// Writes all of `buf` to the outbound channel; this never fails.
    fn write(&mut self, buf: &[u8]) -> (r: std::io::Result<usize>)
        ensures
            r matches Ok(n) && n == buf@.len(),
            final(self)@.outbound == old(self)@.outbound.append(buf@),
            final(self)@.inbound == old(self)@.inbound,
    {
        Ok(self.write_stream(buf))
    }

    /// Does nothing; this never fails.
    fn flush(&mut self) -> (r: std::io::Result<()>)
        ensures
            r is Ok,
            final(self)@ == old(self)@,
    {
        Ok(())
    }
}

/// What the driver of a trace does with the transport of an agent.
pub trait Stream {
    /// Hands `data` to the agent: it goes behind what the agent has not read
    /// yet.
    fn add_to_inbound(&mut self, data: &[u8]);

    /// Puts `data` among what the agent has sent: before all of it where
    /// `prepend` is set, behind all of it where not.
    fn add_to_outbound(&mut self, data: &[u8], prepend: bool);

    /// Takes a single TLS record from what the agent has sent.
    fn take_message_from_outbound(&mut self) -> Option<Vec<u8>>;

    /// Takes the whole content of the inbound channel; after this call the
    /// inbound channel is empty.
    fn take_from_inbound(&mut self) -> Option<Vec<u8>>;
}

impl Stream for MemoryStream {
    fn add_to_inbound(&mut self, data: &[u8])
        ensures
            final(self)@.inbound == old(self)@.inbound.append(data@),
            final(self)@.inbound.well_formed(),
            final(self)@.outbound == old(self)@.outbound,
    {
        self.inbound.append(data);
    }

    fn add_to_outbound(&mut self, data: &[u8], prepend: bool)
        ensures
            final(self)@.outbound == if prepend {
                old(self)@.outbound.prepend(data@)
            } else {
                old(self)@.outbound.append(data@)
            },
            final(self)@.inbound == old(self)@.inbound,
    {
        if prepend {
            self.outbound.prepend(data);
        } else {
            self.outbound.append(data);
        }
    }

    fn take_message_from_outbound(&mut self) -> (r: Option<Vec<u8>>)
        ensures
            r is Some <==> old(self)@.outbound.first_record() is Some,
            r matches Some(rec) ==> Some(rec@) == old(self)@.outbound.first_record() && is_record(
                rec@,
            ),
            final(self)@.outbound == old(self)@.outbound.after_take_record(),
            final(self)@.inbound == old(self)@.inbound,
    {
        self.outbound.take_record()
    }

    fn take_from_inbound(&mut self) -> (r: Option<Vec<u8>>)
        ensures
            r matches Some(bytes) && bytes@ == old(self)@.inbound.bytes,
            final(self)@.inbound == ChannelView::empty(),
            final(self)@.outbound == old(self)@.outbound,
    {
        Some(self.inbound.take_all())
    }
}

/// Record round trip. A channel that holds whole records and nothing else
/// hands them out one by one, in their order and byte for byte: after `taken`
/// of them were taken, the channel holds the others; the next one taken is the
/// record at index `taken`; and once all were taken, nothing more comes out
/// and the channel is empty.
pub proof fn lemma_record_round_trip(channel: ChannelView, parts: Seq<Seq<u8>>, taken: nat)
    requires
        forall|i: int| 0 <= i < parts.len() ==> is_record(#[trigger] parts[i]),
        channel.bytes == parts.flatten(),
        taken <= parts.len(),
    ensures
        channel.after_take_records(taken).bytes == parts.skip(taken as int).flatten(),
        taken < parts.len() ==> channel.after_take_records(taken).first_record() == Some(
            parts[taken as int],
        ),
        taken == parts.len() ==> channel.after_take_records(taken).first_record() is None,
        taken == parts.len() ==> channel.after_take_records(taken).bytes.len() == 0,
    decreases taken,
{
    lemma_records_of_flatten(parts);
    if taken == 0 {
        assert(parts.skip(0) =~= parts);
        if parts.len() > 0 {
            lemma_records_of_join(parts.first(), parts.drop_first().flatten());
            assert(channel.bytes.take(parts.first().len() as int) =~= parts.first());
        } else {
            assert(channel.bytes =~= Seq::<u8>::empty());
        }
    } else {
        let others = parts.skip(1);
        assert forall|i: int| 0 <= i < others.len() implies is_record(#[trigger] others[i]) by {
            assert(others[i] == parts[i + 1]);
        }
        lemma_records_of_join(parts.first(), parts.drop_first().flatten());
        lemma_record_round_trip(channel.after_take_record(), others, (taken - 1) as nat);
        assert(others.skip(taken - 1) =~= parts.skip(taken as int));
    }
}

/// A read from a channel in which nothing is unread reports that it would
/// block, whatever the size of the destination.
pub proof fn lemma_empty_read_would_block(inbound: ChannelView, room: usize)
    requires
        inbound.well_formed(),
        inbound.unread().len() == 0,
    ensures
        inbound.read_result(room as nat) == Err::<usize, StreamError>(StreamError::WouldBlock),
        inbound.after_read(room as nat) == ChannelView::empty(),
{
    assert(inbound.bytes =~= Seq::<u8>::empty());
}

/// Once a non-empty `data` was handed to the inbound channel, a read into a
/// destination with room for at least one byte hands out at least one byte,
/// and the first byte handed out is the oldest unread one.
pub proof fn lemma_read_after_inject(inbound: ChannelView, data: Seq<u8>, room: usize)
    requires
        inbound.well_formed(),
        data.len() > 0,
        room > 0,
    ensures
        inbound.append(data).read_result(room as nat) matches Ok(n) && 1 <= n <= room,
        inbound.append(data).unread() == inbound.unread() + data,
{
    assert(inbound.append(data).unread() =~= inbound.unread() + data);
}

/// Prepend ordering. The record taken right after `data` was put in front of
/// the outbound channel is `data` itself exactly where `data` is one complete
/// record.
pub proof fn lemma_prepend_then_take(outbound: ChannelView, data: Seq<u8>)
    ensures
        outbound.prepend(data).first_record() == Some(data) <==> is_record(data),
        is_record(data) ==> outbound.prepend(data).after_take_record().bytes == records(
            outbound.bytes,
        ).flatten(),
{
    let all = data + outbound.bytes;
    if is_record(data) {
        lemma_records_of_join(data, outbound.bytes);
        assert(all.take(data.len() as int) =~= data);
        assert((seq![data] + records(outbound.bytes)).skip(1) =~= records(outbound.bytes));
    }
    if outbound.prepend(data).first_record() == Some(data) {
        assert(all.take(record_len(all) as int).len() == record_len(all));
        assert(all[3] == data[3] && all[4] == data[4]);
    }
}

/// Prepend ordering, by prefixes. Unless `data` is only the beginning of the
/// record that comes out, the record taken right after `data` was put in
/// front of the outbound channel begins with `data` exactly where `data` is
/// one complete record.
pub proof fn lemma_prepend_is_prefix_of_taken(outbound: ChannelView, data: Seq<u8>)
    requires
        !(starts_with_record(data + outbound.bytes) && data.len() < record_len(
            data + outbound.bytes,
        )),
    ensures
        (outbound.prepend(data).first_record() matches Some(taken) && data.is_prefix_of(taken))
            <==> is_record(data),
{
    lemma_prepend_then_take(outbound, data);
    let all = data + outbound.bytes;
    if starts_with_record(all) && data.is_prefix_of(all.take(record_len(all) as int)) {
        assert(data.len() == record_len(all));
        assert(all.take(record_len(all) as int) =~= data);
    }
}

} // verus!
