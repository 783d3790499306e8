//! The decisions of the screen capture source element: its state, starting and
//! stopping the capture stream, answering queries, which captured frames go
//! downstream, and the timestamps of the buffers it pushes.
//!
//! The stream, its configuration and the channel the frames come through are
//! carried as opaque values of the type parameters `S`, `C` and `R`.

use vstd::prelude::*;

verus! {

/// Capacity of the channel that carries captured frames to the source.
pub const SAMPLE_QUEUE_LEN: usize = 2;

/// The lifecycle stage of the source.
#[derive(Clone, Copy, Debug, PartialEq, Eq, Structural)]
pub enum Stage {
    Started,
    Stopping,
    Stopped,
}

impl Default for Stage {
    fn default() -> (stage: Self)
        ensures
            stage == Stage::Stopped,
    {
        Stage::Stopped
    }
}

/// The state of the source element.
pub struct State<C, S, R> {
    /// Latency, in nanoseconds, if known.
    pub latency: Option<u64>,
    /// Time of the last sample, in nanoseconds, if any.
    pub last_sampling: Option<u64>,
    pub configuration: C,
    pub count: u32,
    pub stage: Stage,
    /// Where captured frames arrive.
    pub receiver: Option<R>,
    /// The capture stream.
    pub stream: Option<S>,
}

/// Errors of the source.
#[derive(Clone, Copy, Debug, PartialEq, Eq, Structural)]
pub enum SourceError {
    /// The source holds no capture stream (a state-change error).
    NoStream,
}

impl SourceError {
    /// The message the error is reported with.
    pub fn message(&self) -> (m: &'static str)
        ensures
            m@ == "Could not get stream"@,
    {
        match self {
            SourceError::NoStream => "Could not get stream",
        }
    }
}

/// The kinds of query the source can be asked.
#[derive(Clone, Copy, Debug, PartialEq, Eq, Structural)]
pub enum QueryKind {
    Latency,
    Other,
}

/// The answer to a latency query.
#[derive(Clone, Copy, Debug, PartialEq, Eq, Structural)]
pub struct LatencyAnswer {
    pub live: bool,
    /// Minimum latency, in nanoseconds.
    pub min: u64,
    /// Maximum latency, in nanoseconds; `None` when unbounded.
    pub max: Option<u64>,
}

/// The status a captured frame is delivered with.
#[derive(Clone, Copy, Debug, PartialEq, Eq, Structural)]
pub enum FrameStatus {
    Complete,
    Idle,
    Blank,
    Suspended,
    Started,
    Stopped,
    /// A status the stream reports that none of the above names.
    Unknown,
}

impl<C, S, R> State<C, S, R> {
    /// A state with no stream and no receiver: no latency, no last sample, a
    /// count of zero, stage `Stopped`.
    pub fn new(configuration: C) -> (state: Self)
        ensures
            state.latency is None,
            state.last_sampling is None,
            state.configuration == configuration,
            state.count == 0,
            state.stage == Stage::Stopped,
            state.receiver is None,
            state.stream is None,
    {
        State {
            latency: None,
            last_sampling: None,
            configuration,
            count: 0,
            stage: Stage::default(),
            receiver: None,
            stream: None,
        }
    }

    /// The state of a freshly made source: it holds the capture stream and the
    /// receiving end of its frame channel, and is otherwise as `new`.
    pub fn with_stream(configuration: C, stream: S, receiver: R) -> (state: Self)
        ensures
            state.latency is None,
            state.last_sampling is None,
            state.configuration == configuration,
            state.count == 0,
            state.stage == Stage::Stopped,
            state.receiver == Some(receiver),
            state.stream == Some(stream),
    {
        State { receiver: Some(receiver), stream: Some(stream), ..Self::new(configuration) }
    }

    /// Starting the source: the stream to start capturing on, or `NoStream`
    /// when there is none. The state itself is left as it is.
    pub fn start(&self) -> (r: Result<&S, SourceError>)
        ensures
            r is Ok <==> self.stream is Some,
            r matches Ok(stream) ==> self.stream == Some(*stream),
            r matches Err(e) ==> e == SourceError::NoStream,
    {
        match &self.stream {
            Some(stream) => Ok(stream),
            None => Err(SourceError::NoStream),
        }
    }

    /// Stopping the source: the stream to stop capturing on, or `NoStream`
    /// when there is none. The state itself is left as it is.
    pub fn stop(&self) -> (r: Result<&S, SourceError>)
        ensures
            r is Ok <==> self.stream is Some,
            r matches Ok(stream) ==> self.stream == Some(*stream),
            r matches Err(e) ==> e == SourceError::NoStream,
    {
        match &self.stream {
            Some(stream) => Ok(stream),
            None => Err(SourceError::NoStream),
        }
    }

    /// Answers a query: a latency query is answered as live, with the known
    /// latency (zero when unknown) as minimum and the known latency as maximum;
    /// other queries are not answered.
    pub fn query(&self, kind: QueryKind) -> (answer: Option<LatencyAnswer>)
        ensures
            answer is Some <==> kind == QueryKind::Latency,
            answer matches Some(a) ==> a.live && a.max == self.latency && a.min == (match self.latency {
                Some(l) => l,
                None => 0u64,
            }),
            answer matches Some(a) ==> (a.max matches Some(m) ==> a.min == m),
    {
        match kind {
            QueryKind::Latency => {
                let min = match self.latency {
                    Some(l) => l,
                    None => 0,
                };
                Some(LatencyAnswer { live: true, min, max: self.latency })
            },
            QueryKind::Other => None,
        }
    }

    /// The receiver the next frame is taken from.
    pub fn receiver(&self) -> (receiver: &R)
        requires
            self.receiver is Some,
        ensures
            self.receiver == Some(*receiver),
    {
        self.receiver.as_ref().unwrap()
    }
}

/// The source cannot seek.
pub fn is_seekable() -> (seekable: bool)
    ensures
        !seekable,
{
    false
}

/// Whether a captured frame is passed on to the source: only complete frames are.
pub fn forwards_frame(status: FrameStatus) -> (forward: bool)
    ensures
        forward <==> status == FrameStatus::Complete,
{
    match status {
        FrameStatus::Complete => true,
        _ => false,
    }
}

/// Takes the display to capture: the last of the available displays.
pub fn take_capture_display<D>(displays: &mut Vec<D>) -> (display: D)
    requires
        old(displays).len() > 0,
    ensures
        display == old(displays)@.last(),
        final(displays)@ == old(displays)@.drop_last(),
{
    displays.pop().unwrap()
}

/// The timestamp, in nanoseconds, of the buffer made from a frame whose
/// presentation time value is `presentation_value`: the value read as an
/// unsigned 64-bit number. The value `-1` reads as the all-ones value that
/// stands for "no time", which a buffer timestamp cannot take.
pub fn buffer_pts(presentation_value: i64) -> (pts: u64)
    requires
        presentation_value != -1,
    ensures
        pts == presentation_value as u64,
        presentation_value >= 0 ==> pts == presentation_value,
        presentation_value < 0 ==> pts == presentation_value + 0x1_0000_0000_0000_0000,
        pts != u64::MAX,
{
    let pts = presentation_value as u64;
    assert(presentation_value >= 0 ==> pts == presentation_value) by (bit_vector)
        requires
            pts == presentation_value as u64,
    ;
    assert(presentation_value < 0 ==> pts == presentation_value + 0x1_0000_0000_0000_0000) by (bit_vector)
        requires
            pts == presentation_value as u64,
    ;
    pts
}

} // verus!
