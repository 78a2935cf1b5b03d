//! Byte sinks: where written bytes go, and what a sink may promise of a
//! write before it is made.

use vstd::prelude::*;

verus! {

/// Why a sink did not do what was asked of it.
#[derive(Clone, Debug, PartialEq, Eq)]
pub struct SinkError {
    pub detail: String,
}

/// What can be asked of a sink.
pub enum Request {
    /// Take these bytes.
    Write(Seq<u8>),
    /// Make what was taken durable.
    Flush,
}

/// What a sink says of a request before it is made.
pub enum Forecast {
    /// The request will succeed.
    Succeeds,
    /// The request will fail.
    Fails,
    /// The sink does not know: the outcome is decided when the request is
    /// made, as with a sink that stands for a device.
    Unknown,
}

/// `after` is `before` followed by some leading part of `bytes`.
pub open spec fn partly_written(before: Seq<u8>, bytes: Seq<u8>, after: Seq<u8>) -> bool {
    before.is_prefix_of(after) && after.is_prefix_of(before + bytes)
}

/// A destination for bytes.
///
/// A sink in memory keeps a record of what it has taken and can say
/// beforehand whether it will take a write. A sink that stands for a
/// device does neither, and so leaves the three spec functions as they
/// are.
pub trait Sink {
    /// The sink keeps a record of the bytes it has taken.
    open spec fn recording(&self) -> bool {
        false
    }

    /// Every byte the sink has taken so far, in order, where the sink is
    /// `recording`.
    open spec fn received(&self) -> Seq<u8> {
        Seq::empty()
    }

    /// What the sink promises of `request` in its present state.
    open spec fn forecast(&self, request: Request) -> Forecast {
        Forecast::Unknown
    }

    /// Hands `bytes` to the sink. On success the sink has taken all of
    /// them; on failure it has taken some leading part, possibly none.
    fn write_all(&mut self, bytes: &[u8]) -> (r: Result<(), SinkError>)
        ensures
            final(self).recording() == old(self).recording(),
            old(self).recording() && r is Ok ==> final(self).received() == old(self).received()
                + bytes@,
            old(self).recording() && r is Err ==> partly_written(
                old(self).received(),
                bytes@,
                final(self).received(),
            ),
            old(self).forecast(Request::Write(bytes@)) is Succeeds ==> r is Ok,
            old(self).forecast(Request::Write(bytes@)) is Fails ==> r is Err,
    ;

    /// Makes what the sink has taken durable. The bytes taken stay as they
    /// are.
    fn flush(&mut self) -> (r: Result<(), SinkError>)
        ensures
            final(self).recording() == old(self).recording(),
            final(self).received() == old(self).received(),
            old(self).forecast(Request::Flush) is Succeeds ==> r is Ok,
            old(self).forecast(Request::Flush) is Fails ==> r is Err,
    ;
}

/// Appends `bytes` to `buffer`.
fn append_bytes(buffer: &mut Vec<u8>, bytes: &[u8])
    ensures
        final(buffer)@ == old(buffer)@ + bytes@,
{
    let mut i: usize = 0;
    while i < bytes.len()
        invariant
            i <= bytes.len(),
            buffer@ == old(buffer)@ + bytes@.take(i as int),
        decreases bytes.len() - i,
    {
        buffer.push(bytes[i]);
        assert(bytes@.take(i + 1) =~= bytes@.take(i as int).push(bytes@[i as int]));
        i += 1;
    }
    assert(bytes@.take(i as int) =~= bytes@);
}

/// A growable buffer in memory. It takes every write.
#[derive(Clone, Debug, PartialEq, Eq)]
pub struct MemorySink {
    pub bytes: Vec<u8>,
}

impl MemorySink {
    /// An empty buffer.
    pub fn new() -> (sink: MemorySink)
        ensures
            sink.bytes@ == Seq::<u8>::empty(),
    {
        MemorySink { bytes: Vec::new() }
    }

    /// The bytes taken so far.
    pub fn into_bytes(self) -> (bytes: Vec<u8>)
        ensures
            bytes@ == self.received(),
    {
        self.bytes
    }
}

impl Sink for MemorySink {
    open spec fn recording(&self) -> bool {
        true
    }

    open spec fn received(&self) -> Seq<u8> {
        self.bytes@
    }

    open spec fn forecast(&self, request: Request) -> Forecast {
        Forecast::Succeeds
    }

    fn write_all(&mut self, bytes: &[u8]) -> (r: Result<(), SinkError>) {
        append_bytes(&mut self.bytes, bytes);
        Ok(())
    }

    fn flush(&mut self) -> (r: Result<(), SinkError>) {
        Ok(())
    }
}

/// A buffer in memory with room for `capacity` bytes. A write that fits is
/// taken whole; one that does not is rejected whole.
#[derive(Clone, Debug, PartialEq, Eq)]
pub struct LimitedSink {
    pub bytes: Vec<u8>,
    pub capacity: usize,
}

impl LimitedSink {
    /// An empty buffer with room for `capacity` bytes.
    pub fn new(capacity: usize) -> (sink: LimitedSink)
        ensures
            sink.bytes@ == Seq::<u8>::empty(),
            sink.capacity == capacity,
    {
        LimitedSink { bytes: Vec::new(), capacity }
    }

    /// Whether `count` more bytes fit.
    pub open spec fn has_room(&self, count: nat) -> bool {
        self.bytes@.len() + count <= self.capacity
    }
}

impl Sink for LimitedSink {
    open spec fn recording(&self) -> bool {
        true
    }

    open spec fn received(&self) -> Seq<u8> {
        self.bytes@
    }

    open spec fn forecast(&self, request: Request) -> Forecast {
        match request {
            Request::Write(bytes) => if self.has_room(bytes.len()) {
                Forecast::Succeeds
            } else {
                Forecast::Fails
            },
            Request::Flush => Forecast::Succeeds,
        }
    }

    fn write_all(&mut self, bytes: &[u8]) -> (r: Result<(), SinkError>)
        ensures
            r is Err ==> *final(self) == *old(self),
            final(self).capacity == old(self).capacity,
    {
        if self.bytes.len() > self.capacity || bytes.len() > self.capacity - self.bytes.len() {
            return Err(SinkError { detail: "no room left in the sink".to_owned() });
        }
        append_bytes(&mut self.bytes, bytes);
        Ok(())
    }

    fn flush(&mut self) -> (r: Result<(), SinkError>)
        ensures
            *final(self) == *old(self),
    {
        Ok(())
    }
}

} // verus!
