//! Draining one output stream of a child process: every chunk read is
//! relayed live and kept in memory, until the stream ends.

use vstd::prelude::*;
use crate::sink::{partly_written, Forecast, MemorySink, Request, Sink};
use crate::tee::{TeeError, TeeWriter};

verus! {

/// What one read of the stream gave.
#[derive(Clone, Debug, PartialEq, Eq)]
pub enum ReadEvent {
    /// Some bytes.
    Chunk(Vec<u8>),
    /// Nothing more will come.
    EndOfStream,
    /// The read failed.
    Failed(String),
}

/// Why a drain did not capture its stream whole.
#[derive(Clone, Debug, PartialEq, Eq)]
pub enum DrainFailure {
    /// Reading the stream failed.
    Read(String),
    /// A sink rejected a chunk.
    Relay(TeeError),
}

/// The drain of one stream. Its primary sink relays the bytes live, its
/// mirror keeps them in memory.
///
/// A drain that has failed keeps consuming its stream, and throws away what
/// it reads, so that the child is never blocked on a full pipe.
pub struct Drain<W: Sink> {
    primary: W,
    mirror: MemorySink,
    failure: Option<DrainFailure>,
    finished: bool,
    seen: Ghost<Seq<u8>>,
    before: Ghost<Seq<u8>>,
}

impl<W: Sink> Drain<W> {
    /// The primary sink.
    pub closed spec fn primary(&self) -> W {
        self.primary
    }

    /// What the mirror holds.
    pub closed spec fn captured(&self) -> Seq<u8> {
        self.mirror.bytes@
    }

    /// The first failure, if anything has failed.
    pub closed spec fn failure(&self) -> Option<DrainFailure> {
        self.failure
    }

    /// The stream has ended.
    pub closed spec fn finished(&self) -> bool {
        self.finished
    }

    /// The bytes of every chunk consumed so far.
    pub closed spec fn seen(&self) -> Seq<u8> {
        self.seen@
    }

    /// What the primary sink held when the drain began.
    pub closed spec fn before(&self) -> Seq<u8> {
        self.before@
    }

    /// As long as nothing has failed, the mirror holds exactly what was
    /// read, and so does a primary sink that keeps a record.
    pub open spec fn whole(&self) -> bool {
        self.failure() is None ==> {
            &&& self.captured() == self.seen()
            &&& self.primary().recording() ==> self.primary().received() == self.before()
                + self.seen()
        }
    }

    #[verifier::type_invariant]
    spec fn inv(&self) -> bool {
        self.whole()
    }

    /// A drain that has read nothing yet.
    pub fn new(primary: W) -> (drain: Self)
        ensures
            drain.whole(),
            drain.primary() == primary,
            drain.failure() is None,
            !drain.finished(),
            drain.seen() == Seq::<u8>::empty(),
            drain.before() == primary.received(),
            drain.captured() == Seq::<u8>::empty(),
    {
        Drain {
            primary,
            mirror: MemorySink::new(),
            failure: None,
            finished: false,
            seen: Ghost(Seq::empty()),
            before: Ghost(primary.received()),
        }
    }

    /// Whether anything has failed.
    pub fn failed(&self) -> (failed: bool)
        ensures
            failed == self.failure() is Some,
    {
        self.failure.is_some()
    }

    /// Whether the stream has ended.
    pub fn is_finished(&self) -> (finished: bool)
        ensures
            finished == self.finished(),
    {
        self.finished
    }

    /// Takes in what one read gave, and says whether to read again.
    ///
    /// A chunk is written through a duplicating writer over the two sinks.
    /// If a sink rejects it the drain records the failure and goes on
    /// reading; every later chunk is consumed and dropped. The end of the
    /// stream and a failed read both finish the drain. A finished drain
    /// ignores what it is fed.
    pub fn feed(self, event: ReadEvent) -> (r: (Self, bool))
        ensures
            r.0.whole(),
            r.1 == !r.0.finished(),
            r.0.before() == self.before(),
            r.0.primary().recording() == self.primary().recording(),
            self.finished() ==> r.0 == self,
            !self.finished() ==> match event {
                ReadEvent::Chunk(bytes) => {
                    &&& !r.0.finished()
                    &&& r.0.seen() == self.seen() + bytes@
                    &&& self.failure() is Some ==> {
                        &&& r.0.failure() == self.failure()
                        &&& r.0.primary() == self.primary()
                        &&& r.0.captured() == self.captured()
                    }
                    &&& self.failure() is None ==> {
                        &&& (r.0.failure() is None || r.0.failure() is Some
                            && r.0.failure()->0 is Relay)
                        &&& self.primary().recording() ==> partly_written(
                            self.primary().received(),
                            bytes@,
                            r.0.primary().received(),
                        )
                        &&& partly_written(self.captured(), bytes@, r.0.captured())
                        &&& self.primary().forecast(Request::Write(bytes@)) is Succeeds
                            ==> r.0.failure() is None
                        &&& self.primary().forecast(Request::Write(bytes@)) is Fails
                            ==> r.0.failure() is Some
                    }
                },
                ReadEvent::EndOfStream => {
                    &&& r.0.finished()
                    &&& r.0.seen() == self.seen()
                    &&& r.0.failure() == self.failure()
                    &&& r.0.primary() == self.primary()
                    &&& r.0.captured() == self.captured()
                },
                ReadEvent::Failed(detail) => {
                    &&& r.0.finished()
                    &&& r.0.seen() == self.seen()
                    &&& r.0.primary() == self.primary()
                    &&& r.0.captured() == self.captured()
                    &&& self.failure() is Some ==> r.0.failure() == self.failure()
                    &&& self.failure() is None ==> r.0.failure() == Some(
                        DrainFailure::Read(detail),
                    )
                },
            },
    {
        proof {
            use_type_invariant(&self);
        }
        if self.finished {
            return (self, false);
        }
        let Drain { mut primary, mut mirror, failure, finished: _, seen, before } = self;
        match event {
            ReadEvent::Chunk(bytes) => {
                let failure = match failure {
                    Some(failure) => Some(failure),
                    None => {
                        let mut tee = TeeWriter::new(&mut primary, &mut mirror);
                        match tee.write(bytes.as_slice()) {
                            Ok(_) => {
                                assert((before@ + seen@) + bytes@ =~= before@ + (seen@ + bytes@));
                                None
                            },
                            Err(e) => Some(DrainFailure::Relay(e)),
                        }
                    },
                };
                let drain = Drain {
                    primary,
                    mirror,
                    failure,
                    finished: false,
                    seen: Ghost(seen@ + bytes@),
                    before,
                };
                (drain, true)
            },
            ReadEvent::EndOfStream => {
                (Drain { primary, mirror, failure, finished: true, seen, before }, false)
            },
            ReadEvent::Failed(detail) => {
                let failure = match failure {
                    Some(failure) => Some(failure),
                    None => Some(DrainFailure::Read(detail)),
                };
                (Drain { primary, mirror, failure, finished: true, seen, before }, false)
            },
        }
    }

    /// Ends the drain and hands back the primary sink with the outcome:
    /// the captured bytes, which are all the bytes read, or the first
    /// failure. A torn capture never counts as a complete one.
    pub fn finish(self) -> (r: (W, Result<Vec<u8>, DrainFailure>))
        ensures
            r.0 == self.primary(),
            match r.1 {
                Ok(bytes) => self.failure() is None && bytes@ == self.seen() && bytes@
                    == self.captured(),
                Err(failure) => self.failure() == Some(failure),
            },
    {
        proof {
            use_type_invariant(&self);
        }
        let Drain { primary, mirror, failure, finished: _, seen: _, before: _ } = self;
        match failure {
            None => (primary, Ok(mirror.into_bytes())),
            Some(failure) => (primary, Err(failure)),
        }
    }
}

} // verus!
