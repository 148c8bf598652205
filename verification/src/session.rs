use vstd::prelude::*;
use crate::transport::{base64_chars, encode_base64};
use crate::wav::{quantized, samples_to_wav, wav_bytes};

verus! {

// The capture session controller: one process-wide session object holds the
// normalized samples, the format the backend reported, the last backend
// error, the cooperative stop signal and the timeout deadline.  The platform
// backend performs the native calls and reports what happened through the
// event functions here; every decision of the lifecycle is made in this
// module.

/// Backend kinds a session can be wired to; `Unavailable` means no native
/// capture facility exists on this platform.
#[derive(Clone, Copy, Debug, PartialEq, Eq, Structural)]
pub enum BackendKind {
    Unavailable,
    EventDriven,
    PollLoop,
}

/// True exactly when a native capture backend is available.
pub fn is_supported(backend: BackendKind) -> (r: bool)
    ensures
        r == (backend != BackendKind::Unavailable),
{
    backend != BackendKind::Unavailable
}

/// The failures a capture session can report.
#[derive(Clone, Debug, PartialEq, Eq)]
pub enum CaptureError {
    /// No capturable audio output exists.
    NoAudioSource,
    /// A native call failed; carries the native message.
    NativeApiError(String),
    /// The session collected no samples at all.
    EmptyCapture,
    /// The container could not be built; carries the cause.
    EncodingError(String),
    /// No backend is compiled in for this platform.
    UnsupportedPlatform,
}

impl CaptureError {
    /// A human-readable description of the failure.
    pub fn message(&self) -> (r: String)
        ensures
            self matches CaptureError::NativeApiError(m) ==> r@ == m@,
            self matches CaptureError::EncodingError(m) ==> r@ == m@,
    {
        match self {
            CaptureError::NoAudioSource => String::from_str("No audio source is available"),
            CaptureError::NativeApiError(m) => m.clone(),
            CaptureError::EmptyCapture => String::from_str("No audio samples captured"),
            CaptureError::EncodingError(m) => m.clone(),
            CaptureError::UnsupportedPlatform => String::from_str(
                "System audio capture is not supported on this platform",
            ),
        }
    }
}

/// What the backend reports once its start attempt has settled.
pub enum StartEvent {
    /// The stream is delivering; carries the native format actually in use.
    Ready { sample_rate: u32, channels: u16 },
    /// No capturable display or output device was found.
    NoSource,
    /// A native call failed; carries the native message.
    Failed(String),
}

/// What a controller caller must do after a successful start request.
#[derive(Clone, Copy, Debug, PartialEq, Eq, Structural)]
pub enum StartAction {
    /// Start the native backend; no capture was running.
    BeginBackend,
    /// A capture is already running; do not start a second native stream.
    AlreadyActive,
}

/// The process-wide capture session: sample store, format, error slot, stop
/// signal and deadline.  Created once and reused; every start resets the
/// mutable content in place.
pub struct AudioCaptureState {
    /// Normalized samples, interleaved by channel, as IEEE 754 bit patterns;
    /// append-only while a capture runs, cleared on reset.
    pub samples: Vec<u32>,
    /// Frames per second, as the backend reported it; set once per session.
    pub sample_rate: u32,
    /// Channels per frame, as the backend reported it; set once per session.
    pub channels: u16,
    /// A fatal native failure seen during capture, if any; read with priority
    /// over success when the session stops.
    pub error: Option<String>,
    /// The backend this session is wired to.
    pub backend: BackendKind,
    /// Whether a capture is running; starting while active is a no-op.
    pub active: bool,
    /// Whether the single-use stop signal is still armed.
    pub stop_armed: bool,
    /// The instant (in milliseconds) at which the timeout guard fires.
    pub deadline_ms: u64,
}

/// Concatenation of a sequence of sample chunks, in delivery order.
pub open spec fn concat_chunks(chunks: Seq<Seq<u32>>) -> Seq<u32>
    decreases chunks.len(),
{
    if chunks.len() == 0 {
        Seq::empty()
    } else {
        concat_chunks(chunks.drop_last()) + chunks.last()
    }
}

/// The views of a vector of sample chunks.
pub open spec fn chunk_views(chunks: Seq<Vec<u32>>) -> Seq<Seq<u32>> {
    chunks.map_values(|c: Vec<u32>| c@)
}

/// Whether a sample count can be serialized: the data must fit the
/// container's 32-bit size fields (and the encoded text the address space),
/// and the samples must fill a whole number of frames.
pub open spec fn encodable(len: nat, channels: u16) -> bool {
    &&& 2 * len + 44 <= u32::MAX
    &&& 4 * (2 * len + 44) <= usize::MAX
    &&& len as int % channels as int == 0
}

impl AudioCaptureState {
    /// The session invariant: the format is one the container can declare.
    /// The channel count is one or two and the rate is positive and small
    /// enough that the container's byte-rate field cannot overflow.
    pub open spec fn wf(&self) -> bool {
        &&& 1 <= self.channels <= 2
        &&& 1 <= self.sample_rate <= 0x3FFF_FFFF
    }

    /// A fresh session: empty, inactive, with the default format and no
    /// backend wired in yet.
    pub fn new() -> (r: Self)
        ensures
            r.wf(),
            r.samples@.len() == 0,
            r.sample_rate == 44100,
            r.channels == 2,
            r.error is None,
            r.backend == BackendKind::Unavailable,
            !r.active,
            !r.stop_armed,
            r.deadline_ms == 0,
    {
        AudioCaptureState {
            samples: Vec::new(),
            sample_rate: 44100,
            channels: 2,
            error: Option::None,
            backend: BackendKind::Unavailable,
            active: false,
            stop_armed: false,
            deadline_ms: 0,
        }
    }

    /// Wires the session to the backend available on this platform.
    pub fn set_backend(&mut self, backend: BackendKind)
        ensures
            *final(self) == (AudioCaptureState { backend, ..*old(self) }),
    {
        self.backend = backend;
    }

    /// Clears the sample store and the error slot; format, backend and
    /// lifecycle state are untouched.
    pub fn reset(&mut self)
        ensures
            *final(self) == (AudioCaptureState {
                samples: final(self).samples,
                error: Option::None,
                ..*old(self)
            }),
            final(self).samples@.len() == 0,
    {
        self.samples = Vec::new();
        self.error = Option::None;
    }

    /// Appends one chunk of normalized samples: order is preserved and no
    /// sample is dropped, so the store afterwards is exactly the old store
    /// followed by the chunk.
    pub fn append_samples(&mut self, chunk: &Vec<u32>)
        ensures
            *final(self) == (AudioCaptureState { samples: final(self).samples, ..*old(self) }),
            final(self).samples@ == old(self).samples@ + chunk@,
    {
        let mut i: usize = 0;
        while i < chunk.len()
            invariant
                i <= chunk@.len(),
                self.samples@ == old(self).samples@ + chunk@.take(i as int),
                *self == (AudioCaptureState { samples: self.samples, ..*old(self) }),
            decreases chunk@.len() - i,
        {
            self.samples.push(chunk[i]);
            proof {
                assert(old(self).samples@ + chunk@.take(i + 1)
                    =~= old(self).samples@ + chunk@.take(i as int) + seq![chunk@[i as int]]);
            }
            i = i + 1;
        }
        proof {
            assert(chunk@.take(chunk@.len() as int) =~= chunk@);
        }
    }

    /// Appends a whole delivery of chunks: the store afterwards is exactly
    /// the old store followed by the concatenation of all chunks, in order.
    pub fn append_chunks(&mut self, chunks: &Vec<Vec<u32>>)
        ensures
            *final(self) == (AudioCaptureState { samples: final(self).samples, ..*old(self) }),
            final(self).samples@ == old(self).samples@ + concat_chunks(chunk_views(chunks@)),
    {
        let ghost views = chunk_views(chunks@);
        let mut i: usize = 0;
        while i < chunks.len()
            invariant
                i <= chunks@.len(),
                views == chunk_views(chunks@),
                self.samples@ == old(self).samples@ + concat_chunks(views.take(i as int)),
                *self == (AudioCaptureState { samples: self.samples, ..*old(self) }),
            decreases chunks@.len() - i,
        {
            let ghost before = self.samples@;
            self.append_samples(&chunks[i]);
            proof {
                assert(views.take(i + 1).drop_last() =~= views.take(i as int));
                assert(views.take(i + 1).last() == views[i as int]);
                assert(old(self).samples@ + concat_chunks(views.take(i + 1))
                    =~= before + chunks@[i as int]@);
            }
            i = i + 1;
        }
        proof {
            assert(views.take(views.len() as int) =~= views);
        }
    }

    /// An immutable copy of the current samples with the format they carry.
    pub fn snapshot(&self) -> (r: (Vec<u32>, u32, u16))
        ensures
            r.0@ == self.samples@,
            r.1 == self.sample_rate,
            r.2 == self.channels,
    {
        let mut copy: Vec<u32> = Vec::new();
        let mut i: usize = 0;
        while i < self.samples.len()
            invariant
                i <= self.samples@.len(),
                copy@ == self.samples@.take(i as int),
            decreases self.samples@.len() - i,
        {
            copy.push(self.samples[i]);
            proof {
                assert(self.samples@.take(i + 1)
                    =~= self.samples@.take(i as int) + seq![self.samples@[i as int]]);
            }
            i = i + 1;
        }
        proof {
            assert(self.samples@.take(self.samples@.len() as int) =~= self.samples@);
        }
        (copy, self.sample_rate, self.channels)
    }

    /// Records a fatal native failure seen during capture; it takes priority
    /// over success when the session stops.
    pub fn record_error(&mut self, message: String)
        ensures
            *final(self) == (AudioCaptureState {
                error: Some(message),
                ..*old(self)
            }),
    {
        self.error = Some(message);
    }

    /// Applies the backend's report of how its start attempt settled.  A
    /// usable report fixes the session's format for the whole capture; any
    /// failure — including a native format this container cannot declare,
    /// which is refused rather than silently misread — closes the session
    /// again, so a failed start always falls back to idle.
    pub fn confirm_start(&mut self, event: StartEvent) -> (r: Result<(), CaptureError>)
        requires
            old(self).wf(),
            old(self).active,
        ensures
            final(self).wf(),
            final(self).samples@ == old(self).samples@,
            final(self).error == old(self).error,
            final(self).backend == old(self).backend,
            final(self).deadline_ms == old(self).deadline_ms,
            r is Ok <==> (event matches StartEvent::Ready { sample_rate, channels }
                && 1 <= channels <= 2 && 1 <= sample_rate <= 0x3FFF_FFFF),
            r is Ok ==> final(self).active && final(self).stop_armed == old(self).stop_armed,
            r is Ok ==> (event matches StartEvent::Ready { sample_rate, channels }
                && final(self).sample_rate == sample_rate && final(self).channels == channels),
            r is Err ==> !final(self).active && !final(self).stop_armed
                && final(self).sample_rate == old(self).sample_rate
                && final(self).channels == old(self).channels,
            event is NoSource ==> r == Err::<(), CaptureError>(CaptureError::NoAudioSource),
            event matches StartEvent::Failed(m) ==> (r matches Err(e)
                && e matches CaptureError::NativeApiError(m2) && m2@ == m@),
            (event matches StartEvent::Ready { sample_rate, channels }
                && !(1 <= channels <= 2 && 1 <= sample_rate <= 0x3FFF_FFFF))
                ==> (r matches Err(e) && e matches CaptureError::NativeApiError(_)),
    {
        match event {
            StartEvent::Ready { sample_rate, channels } => {
                if 1 <= channels && channels <= 2 && 1 <= sample_rate
                    && sample_rate <= 0x3FFF_FFFF {
                    self.sample_rate = sample_rate;
                    self.channels = channels;
                    Ok(())
                } else {
                    self.active = false;
                    self.stop_armed = false;
                    Err(CaptureError::NativeApiError(String::from_str(
                        "The native audio format is not supported",
                    )))
                }
            },
            StartEvent::NoSource => {
                self.active = false;
                self.stop_armed = false;
                Err(CaptureError::NoAudioSource)
            },
            StartEvent::Failed(m) => {
                self.active = false;
                self.stop_armed = false;
                Err(CaptureError::NativeApiError(m))
            },
        }
    }

    /// Consumes the single-use stop signal: true exactly on the first call
    /// after it was armed, so the manual stop and the timeout guard can race
    /// and the backend's stop path still runs exactly once.
    pub fn request_stop(&mut self) -> (r: bool)
        ensures
            *final(self) == (AudioCaptureState { stop_armed: false, ..*old(self) }),
            r == old(self).stop_armed,
    {
        let was = self.stop_armed;
        self.stop_armed = false;
        was
    }

    /// Whether the timeout guard is due: a capture is running and the clock
    /// has reached the deadline fixed at start.
    pub fn timeout_due(&self, now_ms: u64) -> (r: bool)
        ensures
            r == (self.active && now_ms >= self.deadline_ms),
    {
        self.active && now_ms >= self.deadline_ms
    }
}

/// Starts a capture session.  Starting while one is active is a success that
/// changes nothing and directs the caller not to start a second native
/// stream; otherwise the session is reset, marked active, armed for one stop
/// signal, and given a deadline `max_duration_secs` from now.
pub fn start_capture(state: &mut AudioCaptureState, max_duration_secs: u32, now_ms: u64) -> (r:
    Result<StartAction, CaptureError>)
    requires
        old(state).wf(),
        now_ms + 1000 * (max_duration_secs as int) <= u64::MAX,
    ensures
        final(state).wf(),
        old(state).backend == BackendKind::Unavailable ==> (r == Err::<StartAction, CaptureError>(
            CaptureError::UnsupportedPlatform,
        ) && *final(state) == *old(state)),
        old(state).backend != BackendKind::Unavailable && old(state).active ==> (r == Ok::<
            StartAction,
            CaptureError,
        >(StartAction::AlreadyActive) && *final(state) == *old(state)),
        old(state).backend != BackendKind::Unavailable && !old(state).active ==> (r == Ok::<
            StartAction,
            CaptureError,
        >(StartAction::BeginBackend) && *final(state) == (AudioCaptureState {
            samples: final(state).samples,
            error: Option::None,
            active: true,
            stop_armed: true,
            deadline_ms: (now_ms + 1000 * max_duration_secs) as u64,
            ..*old(state)
        }) && final(state).samples@.len() == 0),
{
    if state.backend == BackendKind::Unavailable {
        return Err(CaptureError::UnsupportedPlatform);
    }
    if state.active {
        return Ok(StartAction::AlreadyActive);
    }
    state.reset();
    state.active = true;
    state.stop_armed = true;
    state.deadline_ms = now_ms + 1000 * (max_duration_secs as u64);
    Ok(StartAction::BeginBackend)
}

/// Stops the session and delivers the result.  The session always comes out
/// inactive and disarmed, whatever happens.  A backend error recorded during
/// capture takes priority; a capture with no samples at all is the
/// `EmptyCapture` failure, never an empty success; otherwise the samples are
/// quantized, serialized into the container and returned as its standard
/// base64 text, exactly as `wav_bytes` and `base64_chars` state — unless the
/// capture cannot be serialized at all (it overflows the container's size
/// fields or breaks off mid-frame), which is an encoding failure.
pub fn stop_capture(state: &mut AudioCaptureState) -> (r: Result<String, CaptureError>)
    requires
        old(state).wf(),
    ensures
        final(state).wf(),
        !final(state).active,
        !final(state).stop_armed,
        *final(state) == (AudioCaptureState {
            active: false,
            stop_armed: false,
            ..*old(state)
        }),
        old(state).error is Some ==> (r matches Err(e)
            && e matches CaptureError::NativeApiError(m) && m@ == old(state).error->0@),
        old(state).error is None && old(state).samples@.len() == 0 ==> r == Err::<
            String,
            CaptureError,
        >(CaptureError::EmptyCapture),
        (old(state).error is None && old(state).samples@.len() > 0 && encodable(
            old(state).samples@.len(),
            old(state).channels,
        )) ==> (r matches Ok(s) && s@ == base64_chars(
            wav_bytes(
                quantized(old(state).samples@),
                old(state).sample_rate,
                old(state).channels,
            ),
        )),
        (old(state).error is None && old(state).samples@.len() > 0 && !encodable(
            old(state).samples@.len(),
            old(state).channels,
        )) ==> (r matches Err(e) && e matches CaptureError::EncodingError(_)),
{
    state.active = false;
    state.stop_armed = false;
    match &state.error {
        Some(m) => {
            return Err(CaptureError::NativeApiError(m.clone()));
        },
        Option::None => {},
    }
    if state.samples.len() == 0 {
        return Err(CaptureError::EmptyCapture);
    }
    if state.samples.len() > (((u32::MAX - 44) / 2) as usize)
        || state.samples.len() > (usize::MAX / 4 - 44) / 2 {
        return Err(CaptureError::EncodingError(String::from_str(
            "The capture is too large for the container",
        )));
    }
    proof {
        assert(state.sample_rate as int * 2 * state.channels as int <= u32::MAX as int)
            by (nonlinear_arith)
            requires
                1 <= state.channels <= 2,
                1 <= state.sample_rate <= 0x3FFF_FFFF,
        ;
    }
    match samples_to_wav(&state.samples, state.sample_rate, state.channels) {
        Ok(bytes) => Ok(encode_base64(&bytes)),
        Err(m) => Err(CaptureError::EncodingError(m)),
    }
}

} // verus!
