//! The decisions of the blocking capture loop. The loop itself, which waits
//! on the hardware and hands chunks to the recognizer, runs outside: it
//! reports what happened as a `CaptureEvent` and performs the `CaptureAction`
//! it gets back.
use crate::chunker::{fed, Chunker, MAX_CHUNK_SAMPLES, samples_for_duration};
use crate::negotiate::ChosenFormat;
use crate::sample::{normalize_batch, normalized_batch, encodes, Amplitude, RawSample};
use vstd::prelude::*;

verus! {

/// Why the capture loop ended. None of these is an error.
#[derive(Clone, Copy, Debug, PartialEq, Eq, Structural)]
pub enum StopReason {
    /// The cancellation signal fired.
    Cancelled,
    /// The recording flag turned false.
    RecordingStopped,
    /// The hardware sample source went away.
    SourceClosed,
    /// The consumer of chunks went away.
    SinkClosed,
}

pub enum CaptureEvent {
    /// The cancellation signal and the recording flag, read at the top of an
    /// iteration.
    Check { cancelled: bool, recording: bool },
    /// Native samples that arrived during the bounded wait.
    Samples(Vec<RawSample>),
    /// The bounded wait ended with no sample.
    Timeout,
    /// The hardware sample source is gone.
    SourceClosed,
    /// Handing a chunk to the sink failed: the consumer is gone.
    SinkClosed,
}

pub enum CaptureAction {
    /// Wait a bounded interval for samples.
    Wait,
    /// Hand these chunks to the sink, in this order, then check again.
    Deliver(Vec<Vec<u8>>),
    /// Leave the loop, then call `finish`.
    Stop(StopReason),
}

/// State of one capture run.
pub struct CaptureLoop {
    pub format: ChosenFormat,
    pub chunker: Chunker,
    pub stopped: Option<StopReason>,
}

impl CaptureLoop {
    pub open spec fn inv(&self) -> bool {
        self.chunker.inv() && !self.chunker.full()
    }

    /// A run at `format`, cutting chunks of `chunk_ms` milliseconds.
    pub fn new(format: ChosenFormat, chunk_ms: u32) -> (r: CaptureLoop)
        requires
            samples_for_duration(format.sample_rate, chunk_ms) <= MAX_CHUNK_SAMPLES,
        ensures
            r.inv(),
            r.format == format,
            r.stopped is None,
            r.chunker.capacity == crate::chunker::chunk_len(
                samples_for_duration(format.sample_rate, chunk_ms),
            ),
            r.chunker.pending@ == Seq::<Amplitude>::empty(),
    {
        CaptureLoop { format, chunker: Chunker::for_duration(format.sample_rate, chunk_ms), stopped: None }
    }

    /// What to do after `event`. Once stopped, the loop stays stopped with
    /// the first reason. Cancellation wins over the recording flag; a batch of
    /// samples is normalized and chunked, every chunk that fills is handed
    /// out, and the rest stays pending.
    pub fn step(&mut self, event: CaptureEvent) -> (r: CaptureAction)
        requires
            old(self).inv(),
        ensures
            final(self).inv(),
            final(self).format == old(self).format,
            final(self).chunker.capacity == old(self).chunker.capacity,
            match old(self).stopped {
                Some(reason) => r == CaptureAction::Stop(reason) && final(self).stopped == Some(reason)
                    && final(self).chunker.pending@ == old(self).chunker.pending@,
                None => match event {
                    CaptureEvent::Check { cancelled, recording } => {
                        &&& final(self).chunker.pending@ == old(self).chunker.pending@
                        &&& if cancelled {
                            r == CaptureAction::Stop(StopReason::Cancelled) && final(self).stopped
                                == Some(StopReason::Cancelled)
                        } else if !recording {
                            r == CaptureAction::Stop(StopReason::RecordingStopped)
                                && final(self).stopped == Some(StopReason::RecordingStopped)
                        } else {
                            r == CaptureAction::Wait && final(self).stopped is None
                        }
                    },
                    CaptureEvent::Samples(batch) => {
                        &&& final(self).stopped is None
                        &&& r is Deliver
                        &&& fed(
                            old(self).chunker.pending@,
                            old(self).chunker.capacity as int,
                            normalized_batch(batch@),
                            r->Deliver_0@,
                            final(self).chunker.pending@,
                        )
                    },
                    CaptureEvent::Timeout => r == CaptureAction::Wait && final(self).stopped is None
                        && final(self).chunker.pending@ == old(self).chunker.pending@,
                    CaptureEvent::SourceClosed => r == CaptureAction::Stop(StopReason::SourceClosed)
                        && final(self).stopped == Some(StopReason::SourceClosed)
                        && final(self).chunker.pending@ == old(self).chunker.pending@,
                    CaptureEvent::SinkClosed => r == CaptureAction::Stop(StopReason::SinkClosed)
                        && final(self).stopped == Some(StopReason::SinkClosed)
                        && final(self).chunker.pending@ == old(self).chunker.pending@,
                },
            },
    {
        if let Some(reason) = self.stopped {
            return CaptureAction::Stop(reason);
        }
        match event {
            CaptureEvent::Check { cancelled, recording } => {
                if cancelled {
                    self.stopped = Some(StopReason::Cancelled);
                    CaptureAction::Stop(StopReason::Cancelled)
                } else if !recording {
                    self.stopped = Some(StopReason::RecordingStopped);
                    CaptureAction::Stop(StopReason::RecordingStopped)
                } else {
                    CaptureAction::Wait
                }
            },
            CaptureEvent::Samples(batch) => {
                let samples = normalize_batch(&batch);
                let chunks = self.chunker.feed(&samples);
                CaptureAction::Deliver(chunks)
            },
            CaptureEvent::Timeout => CaptureAction::Wait,
            CaptureEvent::SourceClosed => {
                self.stopped = Some(StopReason::SourceClosed);
                CaptureAction::Stop(StopReason::SourceClosed)
            },
            CaptureEvent::SinkClosed => {
                self.stopped = Some(StopReason::SinkClosed);
                CaptureAction::Stop(StopReason::SinkClosed)
            },
        }
    }

    /// The trailing, possibly short, chunk once the loop has left: nothing
    /// when no sample is pending. Delivery of it is best effort.
    pub fn finish(&mut self) -> (r: Option<Vec<u8>>)
        requires
            old(self).inv(),
        ensures
            final(self).inv(),
            final(self).stopped == old(self).stopped,
            final(self).chunker.pending@ == Seq::<Amplitude>::empty(),
            old(self).chunker.pending@.len() == 0 <==> r is None,
            r is Some ==> encodes(r->0@, old(self).chunker.pending@),
    {
        self.chunker.flush()
    }
}

} // verus!
