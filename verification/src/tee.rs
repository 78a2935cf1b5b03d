//! The duplicating writer: every chunk written goes, unchanged, to two
//! sinks.

use vstd::prelude::*;
use crate::sink::{partly_written, Forecast, Request, Sink, SinkError};

verus! {

/// Which of the two sinks failed, and why.
#[derive(Clone, Debug, PartialEq, Eq)]
pub enum TeeError {
    Primary(SinkError),
    Mirror(SinkError),
}

/// A writer over two borrowed sinks. It keeps no bytes of its own.
pub struct TeeWriter<'a, W0: Sink, W1: Sink> {
    pub primary: &'a mut W0,
    pub mirror: &'a mut W1,
}

impl<'a, W0: Sink, W1: Sink> TeeWriter<'a, W0, W1> {
    /// A writer that duplicates into `w0` and `w1` for as long as it
    /// borrows them.
    pub fn new(w0: &'a mut W0, w1: &'a mut W1) -> (tee: Self)
        ensures
            *tee.primary == *old(w0),
            *tee.mirror == *old(w1),
            *final(tee.primary) == *final(w0),
            *final(tee.mirror) == *final(w1),
    {
        TeeWriter { primary: w0, mirror: w1 }
    }

    /// Writes all of `bytes` to the primary sink, then all of them to the
    /// mirror.
    ///
    /// Success reports the whole length and means that both sinks took
    /// every byte. A failure names the sink that rejected the write; when
    /// it is the primary, the mirror has not been touched. What a sink has
    /// received is stated for sinks that keep a record.
    pub fn write(&mut self, bytes: &[u8]) -> (r: Result<usize, TeeError>)
        ensures
            *final(final(self).primary) == *final(old(self).primary),
            *final(final(self).mirror) == *final(old(self).mirror),
            final(self).primary.recording() == old(self).primary.recording(),
            final(self).mirror.recording() == old(self).mirror.recording(),
            match r {
                Ok(count) => {
                    &&& count == bytes@.len()
                    &&& old(self).primary.recording() ==> final(self).primary.received() == old(
                        self,
                    ).primary.received() + bytes@
                    &&& old(self).mirror.recording() ==> final(self).mirror.received() == old(
                        self,
                    ).mirror.received() + bytes@
                },
                Err(TeeError::Primary(_)) => {
                    &&& old(self).primary.recording() ==> partly_written(
                        old(self).primary.received(),
                        bytes@,
                        final(self).primary.received(),
                    )
                    &&& *final(self).mirror == *old(self).mirror
                },
                Err(TeeError::Mirror(_)) => {
                    &&& old(self).primary.recording() ==> final(self).primary.received() == old(
                        self,
                    ).primary.received() + bytes@
                    &&& old(self).mirror.recording() ==> partly_written(
                        old(self).mirror.received(),
                        bytes@,
                        final(self).mirror.received(),
                    )
                },
            },
            old(self).primary.forecast(Request::Write(bytes@)) is Succeeds && old(
                self,
            ).mirror.forecast(Request::Write(bytes@)) is Succeeds ==> r is Ok,
            old(self).primary.forecast(Request::Write(bytes@)) is Fails ==> r matches Err(
                TeeError::Primary(_),
            ),
            old(self).primary.forecast(Request::Write(bytes@)) is Succeeds && old(
                self,
            ).mirror.forecast(Request::Write(bytes@)) is Fails ==> r matches Err(
                TeeError::Mirror(_),
            ),
            old(self).mirror.forecast(Request::Write(bytes@)) is Fails ==> r is Err,
    {
        match self.primary.write_all(bytes) {
            Ok(()) => {},
            Err(e) => {
                return Err(TeeError::Primary(e));
            },
        }
        match self.mirror.write_all(bytes) {
            Ok(()) => {},
            Err(e) => {
                return Err(TeeError::Mirror(e));
            },
        }
        Ok(bytes.len())
    }

    /// Flushes the primary sink, then the mirror. Neither sink's bytes
    /// change. A failure names the sink whose flush failed; when it is the
    /// primary, the mirror has not been touched.
    pub fn flush(&mut self) -> (r: Result<(), TeeError>)
        ensures
            *final(final(self).primary) == *final(old(self).primary),
            *final(final(self).mirror) == *final(old(self).mirror),
            final(self).primary.recording() == old(self).primary.recording(),
            final(self).mirror.recording() == old(self).mirror.recording(),
            final(self).primary.received() == old(self).primary.received(),
            final(self).mirror.received() == old(self).mirror.received(),
            r matches Err(TeeError::Primary(_)) ==> *final(self).mirror == *old(self).mirror,
            old(self).primary.forecast(Request::Flush) is Succeeds && old(self).mirror.forecast(
                Request::Flush,
            ) is Succeeds ==> r is Ok,
            old(self).primary.forecast(Request::Flush) is Fails ==> r matches Err(
                TeeError::Primary(_),
            ),
            old(self).primary.forecast(Request::Flush) is Succeeds && old(self).mirror.forecast(
                Request::Flush,
            ) is Fails ==> r matches Err(TeeError::Mirror(_)),
            old(self).mirror.forecast(Request::Flush) is Fails ==> r is Err,
    {
        match self.primary.flush() {
            Ok(()) => {},
            Err(e) => {
                return Err(TeeError::Primary(e));
            },
        }
        match self.mirror.flush() {
            Ok(()) => {},
            Err(e) => {
                return Err(TeeError::Mirror(e));
            },
        }
        Ok(())
    }
}

} // verus!
