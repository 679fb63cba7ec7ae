//! The frame cache: the freshest frame pushed by the broadcast extension and
//! the broadcast lifecycle that goes with it.
//!
//! Timestamps are milliseconds on the caller's clock; the cache never reads a
//! clock itself.

use vstd::prelude::*;

verus! {

/// How long an active broadcast may stay silent before it counts as stale.
pub const LIVENESS_WINDOW_MS: u64 = 3000;

/// One captured frame.
pub struct Frame {
    pub bytes: Vec<u8>,
    pub captured_at: u64,
}

/// The broadcast lifecycle record.
pub struct BroadcastState {
    pub is_active: bool,
    pub started_at: Option<u64>,
    pub last_frame_at: Option<u64>,
    pub frame_count: u64,
}

/// The frame cache: at most one frame, and the lifecycle record.
pub struct ServerState {
    pub latest_frame: Option<Frame>,
    pub broadcast: BroadcastState,
}

/// What a status read reports.
#[derive(Clone, Copy, PartialEq, Eq, Structural, Debug)]
pub struct BroadcastStatus {
    pub is_active: bool,
    pub is_stale: bool,
    pub started_at: Option<u64>,
    pub last_frame_at: Option<u64>,
    pub frame_count: u64,
}

/// What a frame read hands out: the bytes and how old they are.
pub struct FrameSnapshot {
    pub bytes: Vec<u8>,
    pub age_ms: u64,
}

/// The unified status read of the UI: the lifecycle flags, the frame as
/// base64 text and its capture time, and the frame count.
pub struct BroadcastSnapshot {
    pub is_active: bool,
    pub is_stale: bool,
    pub frame: Option<String>,
    pub timestamp: Option<u64>,
    pub frame_count: u64,
}

/// The standard base64 alphabet.
pub open spec fn base64_alphabet() -> Seq<char> {
    "ABCDEFGHIJKLMNOPQRSTUVWXYZabcdefghijklmnopqrstuvwxyz0123456789+/"@
}

/// The character for the six bits of `n` that start at bit `shift`.
pub open spec fn sextet(n: int, shift: int) -> char {
    base64_alphabet()[(n / bit_weight(shift)) % 64]
}

/// The weight of bit `k` for the shifts that `sextet` uses.
pub open spec fn bit_weight(k: int) -> int {
    if k == 18 {
        262144
    } else if k == 12 {
        4096
    } else if k == 6 {
        64
    } else {
        1
    }
}

/// Standard padded base64: each group of three bytes, read as a 24-bit
/// number, gives four characters; a last group of two bytes gives three and
/// `=`, one of one byte gives two and `==`.
pub open spec fn base64_of(b: Seq<u8>) -> Seq<char>
    decreases b.len(),
{
    if b.len() == 0 {
        Seq::empty()
    } else if b.len() == 1 {
        let n = b[0] * 65536;
        seq![sextet(n, 18), sextet(n, 12), '=', '=']
    } else if b.len() == 2 {
        let n = b[0] * 65536 + b[1] * 256;
        seq![sextet(n, 18), sextet(n, 12), sextet(n, 6), '=']
    } else {
        let n = b[0] * 65536 + b[1] * 256 + b[2];
        seq![sextet(n, 18), sextet(n, 12), sextet(n, 6), sextet(n, 0)] + base64_of(
            b.subrange(3, b.len() as int),
        )
    }
}

/// Relies on base64's `BASE64_STANDARD.encode`: the padded standard encoding
/// with the standard alphabet, four characters for each started group of
/// three bytes. It panics only when that length overflows `usize`.
#[verifier::external_body]
fn encode_base64(b: &Vec<u8>) -> (r: String)
    requires
        4 * ((b@.len() + 2) / 3) <= usize::MAX,
    ensures
        r@ == base64_of(b@),
        r@.len() == 4 * ((b@.len() + 2) / 3),
{
    base64::Engine::encode(&base64::prelude::BASE64_STANDARD, b)
}

/// The abstract state of the cache.
pub struct CacheModel {
    pub frame: Option<(Seq<u8>, u64)>,
    pub is_active: bool,
    pub started_at: Option<u64>,
    pub last_frame_at: Option<u64>,
    pub frame_count: nat,
}

impl View for ServerState {
    type V = CacheModel;

    open spec fn view(&self) -> CacheModel {
        CacheModel {
            frame: match self.latest_frame {
                Some(f) => Some((f.bytes@, f.captured_at)),
                None => None,
            },
            is_active: self.broadcast.is_active,
            started_at: self.broadcast.started_at,
            last_frame_at: self.broadcast.last_frame_at,
            frame_count: self.broadcast.frame_count as nat,
        }
    }
}

/// The cache after a frame arrives at `now`.
pub open spec fn ingest_model(m: CacheModel, bytes: Seq<u8>, now: u64) -> CacheModel {
    CacheModel {
        frame: Some((bytes, now)),
        is_active: m.is_active,
        started_at: m.started_at,
        last_frame_at: Some(now),
        frame_count: m.frame_count + 1,
    }
}

/// The cache after the broadcast starts at `now`.
pub open spec fn start_model(m: CacheModel, now: u64) -> CacheModel {
    CacheModel {
        frame: None,
        is_active: true,
        started_at: Some(now),
        last_frame_at: None,
        frame_count: 0,
    }
}

/// The cache after the broadcast stops.
pub open spec fn stop_model(m: CacheModel) -> CacheModel {
    CacheModel { is_active: false, ..m }
}

/// Whether an active broadcast has been silent past the liveness window.
pub open spec fn is_stale_model(m: CacheModel, now: u64) -> bool {
    m.is_active && match m.last_frame_at {
        None => true,
        Some(t) => now - t > LIVENESS_WINDOW_MS,
    }
}

/// The cache after a run of frames, in order.
pub open spec fn ingest_all(m: CacheModel, frames: Seq<(Seq<u8>, u64)>) -> CacheModel
    decreases frames.len(),
{
    if frames.len() == 0 {
        m
    } else {
        let last = frames.last();
        ingest_model(ingest_all(m, frames.drop_last()), last.0, last.1)
    }
}

/// The age of a frame captured at `captured_at`, seen at `now`; a clock that
/// went back gives age zero.
pub open spec fn age_of(captured_at: u64, now: u64) -> u64 {
    if now >= captured_at {
        (now - captured_at) as u64
    } else {
        0
    }
}

impl ServerState {
    /// An idle cache with no frame.
    pub fn new() -> (r: Self)
        ensures
            r@.frame is None,
            !r@.is_active,
            r@.started_at is None,
            r@.last_frame_at is None,
            r@.frame_count == 0,
    {
        ServerState {
            latest_frame: None,
            broadcast: BroadcastState {
                is_active: false,
                started_at: None,
                last_frame_at: None,
                frame_count: 0,
            },
        }
    }

    /// Records `bytes` as the frame captured at `now`, replacing any earlier
    /// frame, and counts it.
    pub fn ingest(&mut self, bytes: Vec<u8>, now: u64)
        requires
            old(self).broadcast.frame_count < u64::MAX,
        ensures
            final(self)@ == ingest_model(old(self)@, bytes@, now),
    {
        self.broadcast.last_frame_at = Some(now);
        self.broadcast.frame_count = self.broadcast.frame_count + 1;
        self.latest_frame = Some(Frame { bytes, captured_at: now });
    }

    /// Starts a broadcast at `now`: resets the counters and drops the frame
    /// of any earlier session.
    pub fn mark_broadcast_start(&mut self, now: u64)
        ensures
            final(self)@ == start_model(old(self)@, now),
    {
        self.broadcast.is_active = true;
        self.broadcast.started_at = Some(now);
        self.broadcast.last_frame_at = None;
        self.broadcast.frame_count = 0;
        self.latest_frame = None;
    }

    /// Stops the broadcast; the frame and the counters stay for late readers.
    pub fn mark_broadcast_stop(&mut self)
        ensures
            final(self)@ == stop_model(old(self)@),
    {
        self.broadcast.is_active = false;
    }

    /// Whether the broadcast counts as stale at `now`.
    pub fn is_stale(&self, now: u64) -> (r: bool)
        ensures
            r == is_stale_model(self@, now),
    {
        if !self.broadcast.is_active {
            return false;
        }
        match self.broadcast.last_frame_at {
            None => true,
            Some(t) => now > t && now - t > LIVENESS_WINDOW_MS,
        }
    }

    /// The lifecycle record as seen at `now`.
    pub fn read_status(&self, now: u64) -> (r: BroadcastStatus)
        ensures
            r.is_active == self.broadcast.is_active,
            r.is_stale == is_stale_model(self@, now),
            r.started_at == self.broadcast.started_at,
            r.last_frame_at == self.broadcast.last_frame_at,
            r.frame_count == self.broadcast.frame_count,
    {
        BroadcastStatus {
            is_active: self.broadcast.is_active,
            is_stale: self.is_stale(now),
            started_at: self.broadcast.started_at,
            last_frame_at: self.broadcast.last_frame_at,
            frame_count: self.broadcast.frame_count,
        }
    }

    /// The current frame and its age at `now`, or nothing when there is none.
    pub fn read_frame(&self, now: u64) -> (r: Option<FrameSnapshot>)
        ensures
            r is None <==> self@.frame is None,
            r is Some ==> r->Some_0.bytes@ == self@.frame->Some_0.0
                && r->Some_0.age_ms == age_of(self@.frame->Some_0.1, now),
    {
        match &self.latest_frame {
            None => None,
            Some(f) => {
                let age_ms: u64 = if now >= f.captured_at { now - f.captured_at } else { 0 };
                Some(FrameSnapshot { bytes: f.bytes.clone(), age_ms })
            },
        }
    }

    /// The snapshot at `now`, given the frame's base64 text (`None` when
    /// there is no frame).
    pub fn snapshot_with(&self, now: u64, frame_base64: Option<String>) -> (r: BroadcastSnapshot)
        ensures
            r.is_active == self.broadcast.is_active,
            r.is_stale == is_stale_model(self@, now),
            r.frame == frame_base64,
            r.timestamp == match self@.frame {
                Some(f) => Some(f.1),
                None => None::<u64>,
            },
            r.frame_count == self.broadcast.frame_count,
    {
        let timestamp = match &self.latest_frame {
            Some(f) => Some(f.captured_at),
            None => None,
        };
        BroadcastSnapshot {
            is_active: self.broadcast.is_active,
            is_stale: self.is_stale(now),
            frame: frame_base64,
            timestamp,
            frame_count: self.broadcast.frame_count,
        }
    }

    /// The lifecycle and the current frame, base64-encoded, in one read.
    pub fn get_broadcast_status(&self, now: u64) -> (r: BroadcastSnapshot)
        requires
            self.latest_frame is Some ==> 4 * ((self@.frame->Some_0.0.len() + 2) / 3)
                <= usize::MAX,
        ensures
            r.is_active == self.broadcast.is_active,
            r.is_stale == is_stale_model(self@, now),
            r.frame is None <==> self@.frame is None,
            r.frame is Some ==> r.frame->Some_0@ == base64_of(self@.frame->Some_0.0),
            r.timestamp == match self@.frame {
                Some(f) => Some(f.1),
                None => None::<u64>,
            },
            r.frame_count == self.broadcast.frame_count,
    {
        let encoded = match &self.latest_frame {
            Some(f) => Some(encode_base64(&f.bytes)),
            None => None,
        };
        self.snapshot_with(now, encoded)
    }
}

/// After a broadcast starts, a run of ingests leaves exactly one frame, the
/// last one ingested, and a frame count equal to the number of ingests.
pub proof fn lemma_ingests_since_start(m: CacheModel, start: u64, frames: Seq<(Seq<u8>, u64)>)
    ensures
        ingest_all(start_model(m, start), frames).frame_count == frames.len(),
        frames.len() == 0 ==> ingest_all(start_model(m, start), frames).frame is None,
        frames.len() > 0 ==> ingest_all(start_model(m, start), frames).frame == Some(frames.last()),
    decreases frames.len(),
{
    if frames.len() > 0 {
        lemma_ingests_since_start(m, start, frames.drop_last());
    }
}

/// Starting a broadcast leaves no frame to read, whatever was there before.
pub proof fn lemma_start_clears_frame(m: CacheModel, now: u64)
    ensures
        start_model(m, now).frame is None,
{
}

/// A broadcast is stale exactly when it is active and its last frame is
/// absent or older than the liveness window; an inactive one never is.
pub proof fn lemma_stale_iff(m: CacheModel, now: u64)
    ensures
        is_stale_model(m, now) <==> (m.is_active && (m.last_frame_at is None
            || now - m.last_frame_at->Some_0 > LIVENESS_WINDOW_MS)),
        !m.is_active ==> !is_stale_model(m, now),
{
}

} // verus!
