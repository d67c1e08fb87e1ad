//! Capture-to-output fan-out pipeline.
//!
//! The pipeline is a two-state machine (idle or capturing). While capturing,
//! every delivered frame with a payload is counted once and offered to each
//! registered, running output sink; each successful delivery is counted.
//! Stopping is idempotent, tears every sink down in a fixed order, and
//! resets both counters.

use vstd::prelude::*;

verus! {

/// The kinds of output sink the pipeline can drive. At most one sink of
/// each kind is registered at a time.
#[derive(Clone, Copy, Debug, PartialEq, Eq, Structural)]
pub enum SinkKind {
    Ndi,
    Syphon,
}

/// Why a pipeline operation was refused. The state is left unchanged in
/// every refused case.
#[derive(Clone, Copy, Debug, PartialEq, Eq, Structural)]
pub enum CaptureError {
    /// `start` was called while already capturing.
    AlreadyRunning,
    /// The requested capture target could not be resolved.
    TargetResolutionFailed,
    /// A sink was offered while the pipeline was idle.
    NotCapturing,
    /// A sink of this kind is already registered; stop it first.
    SinkAlreadyRegistered,
}

/// Frame data ready for transmission to an output sink.
#[derive(Clone)]
pub struct CapturedFrame {
    pub data: Vec<u8>,
    pub width: u32,
    pub height: u32,
    pub bytes_per_row: u32,
    pub timestamp_ns: u64,
}

/// Capture configuration handed to the frame source.
#[derive(Clone, Copy, Debug)]
pub struct CaptureConfig {
    /// Target frames per second.
    pub fps: u8,
    /// Output width (0 = native resolution).
    pub width: u32,
    /// Output height (0 = native resolution).
    pub height: u32,
    /// Whether to capture the cursor.
    pub show_cursor: bool,
}

impl Default for CaptureConfig {
    fn default() -> (c: Self)
        ensures
            c.fps == 30,
            c.width == 1920,
            c.height == 1080,
            c.show_cursor,
    {
        CaptureConfig { fps: 30, width: 1920, height: 1080, show_cursor: true }
    }
}

/// A counter that sticks at its ceiling instead of wrapping.
pub open spec fn inc64(x: u64) -> u64 {
    if x == u64::MAX {
        x
    } else {
        (x + 1) as u64
    }
}

/// Book-keeping for frames handed over by the frame source.
pub struct StreamHandler {
    pub frames_seen: u64,
}

impl StreamHandler {
    /// A handler that has seen no frames.
    pub fn new() -> (h: Self)
        ensures
            h.frames_seen == 0,
    {
        StreamHandler { frames_seen: 0 }
    }

    /// Count one delivered sample.
    pub fn record_sample(&mut self)
        ensures
            final(self).frames_seen == inc64(old(self).frames_seen),
    {
        if self.frames_seen < u64::MAX {
            self.frames_seen = self.frames_seen + 1;
        }
    }

    /// How many samples the frame source has delivered so far.
    pub fn frame_count(&self) -> (n: u64)
        ensures
            n == self.frames_seen,
    {
        self.frames_seen
    }
}

impl Default for StreamHandler {
    fn default() -> (h: Self)
        ensures
            h.frames_seen == 0,
    {
        StreamHandler::new()
    }
}

/// A sample's presentation time in nanoseconds: `value / timescale` seconds,
/// with a non-positive value reading as zero, a non-positive timescale
/// reading as one, and the result saturating at the 64-bit ceiling.
pub open spec fn spec_timestamp_ns(value: i64, timescale: i32) -> u64 {
    let v: int = if value <= 0 {
        0
    } else {
        value as int
    };
    let scale: int = if timescale <= 0 {
        1
    } else {
        timescale as int
    };
    let ns: int = (v * 1_000_000_000) / scale;
    if ns > u64::MAX {
        u64::MAX
    } else {
        ns as u64
    }
}

/// Convert a sample's rational presentation time to nanoseconds.
pub fn timestamp_ns(value: i64, timescale: i32) -> (ns: u64)
    ensures
        ns == spec_timestamp_ns(value, timescale),
{
    if value <= 0 {
        return 0u64;
    }
    let scale: u128 = if timescale <= 0 {
        1u128
    } else {
        timescale as u128
    };
    let product: u128 = (value as u128) * 1_000_000_000u128;
    let q: u128 = product / scale;
    if q > u64::MAX as u128 {
        u64::MAX
    } else {
        q as u64
    }
}

/// Assemble the frame handed to the fan-out path from what the frame
/// source delivered. A sample without an image buffer, a failed buffer
/// lock, or an empty or unmapped pixel buffer all yield a frame with no
/// payload; only a successfully locked, mapped buffer carries its data.
pub fn assemble_frame(
    has_buffer: bool,
    lock_ok: bool,
    base_ok: bool,
    width: u32,
    height: u32,
    bytes_per_row: u32,
    data: Vec<u8>,
    ts_value: i64,
    ts_timescale: i32,
) -> (f: CapturedFrame)
    ensures
        f.timestamp_ns == spec_timestamp_ns(ts_value, ts_timescale),
        !has_buffer ==> f.data@.len() == 0 && f.width == 0 && f.height == 0
            && f.bytes_per_row == 0,
        has_buffer && !lock_ok ==> f.data@.len() == 0 && f.width == 0 && f.height == 0
            && f.bytes_per_row == 0,
        has_buffer && lock_ok && !base_ok ==> f.data@.len() == 0 && f.width == width
            && f.height == height && f.bytes_per_row == 0,
        has_buffer && lock_ok && base_ok ==> f.data == data && f.width == width
            && f.height == height && f.bytes_per_row == bytes_per_row,
{
    let timestamp_ns = timestamp_ns(ts_value, ts_timescale);
    if !has_buffer || !lock_ok {
        CapturedFrame { data: Vec::new(), width: 0, height: 0, bytes_per_row: 0, timestamp_ns }
    } else if !base_ok {
        CapturedFrame { data: Vec::new(), width, height, bytes_per_row: 0, timestamp_ns }
    } else {
        CapturedFrame { data, width, height, bytes_per_row, timestamp_ns }
    }
}

/// Whether a raw frame buffer has exactly the size of a packed
/// four-byte-per-pixel image of the given dimensions.
pub fn frame_size_matches(len: usize, width: u32, height: u32) -> (r: bool)
    ensures
        r == (len as int == width as int * height as int * 4),
{
    proof {
        assert((width as int) * (height as int) <= 0xffff_ffff * 0xffff_ffff)
            by (nonlinear_arith)
            requires
                width <= 0xffff_ffff,
                height <= 0xffff_ffff,
        ;
    }
    let expected: u128 = (width as u128) * (height as u128) * 4;
    (len as u128) == expected
}

/// The capture pipeline: the capture state machine, the output-sink
/// registry, the frame counters, and which sink kinds this build can offer.
pub struct CapturePipeline {
    pub running: bool,
    pub frames_captured: u64,
    pub frames_sent: u64,
    pub ndi_registered: bool,
    pub syphon_registered: bool,
    pub ndi_available: bool,
    pub syphon_available: bool,
}

/// Pipeline status snapshot handed to callers.
#[derive(Clone, Copy, Debug, PartialEq, Eq, Structural)]
pub struct CaptureStatus {
    pub is_capturing: bool,
    pub ndi_available: bool,
    pub ndi_running: bool,
    pub syphon_available: bool,
    pub syphon_running: bool,
    pub frames_captured: u64,
    pub frames_sent: u64,
    pub target_fps: u8,
}

impl CapturePipeline {
    /// While idle the pipeline holds no counts and no sinks; the state a
    /// client reads always reflects reality, never optimistic intent.
    pub open spec fn wf(&self) -> bool {
        !self.running ==> {
            &&& self.frames_captured == 0
            &&& self.frames_sent == 0
            &&& !self.ndi_registered
            &&& !self.syphon_registered
        }
    }

    /// What `start` does: refused while running, refused when the target
    /// did not resolve, and otherwise the one transition to capturing.
    pub open spec fn start_transition(self, resolved: bool) -> (CapturePipeline, Result<
        (),
        CaptureError,
    >) {
        if self.running {
            (self, Err(CaptureError::AlreadyRunning))
        } else if !resolved {
            (self, Err(CaptureError::TargetResolutionFailed))
        } else {
            (CapturePipeline { running: true, ..self }, Ok(()))
        }
    }

    /// What `stop` does to the state: nothing when idle, else back to the
    /// pristine idle state (capabilities kept).
    pub open spec fn stop_transition(self) -> CapturePipeline {
        if !self.running {
            self
        } else {
            CapturePipeline {
                running: false,
                frames_captured: 0,
                frames_sent: 0,
                ndi_registered: false,
                syphon_registered: false,
                ..self
            }
        }
    }

    /// The sinks `stop` tears down, in their fixed teardown order.
    pub open spec fn teardown_order(self) -> Seq<SinkKind> {
        if !self.running {
            Seq::empty()
        } else {
            let base = Seq::<SinkKind>::empty();
            let with_ndi = if self.ndi_registered {
                base.push(SinkKind::Ndi)
            } else {
                base
            };
            if self.syphon_registered {
                with_ndi.push(SinkKind::Syphon)
            } else {
                with_ndi
            }
        }
    }

    /// What accepting one delivered frame does to the counters: a frame
    /// with a payload, arriving while capturing, is counted exactly once;
    /// every other frame is discarded without touching anything.
    pub open spec fn accept_transition(self, has_payload: bool) -> (CapturePipeline, bool) {
        if self.running && has_payload {
            (CapturePipeline { frames_captured: inc64(self.frames_captured), ..self }, true)
        } else {
            (self, false)
        }
    }

    /// An idle pipeline that can offer the given sink kinds.
    pub fn new(ndi_available: bool, syphon_available: bool) -> (p: Self)
        ensures
            p.wf(),
            !p.running,
            p.frames_captured == 0,
            p.frames_sent == 0,
            !p.ndi_registered,
            !p.syphon_registered,
            p.ndi_available == ndi_available,
            p.syphon_available == syphon_available,
    {
        CapturePipeline {
            running: false,
            frames_captured: 0,
            frames_sent: 0,
            ndi_registered: false,
            syphon_registered: false,
            ndi_available,
            syphon_available,
        }
    }

    /// Enter the capturing state. `resolved` reports whether the frame
    /// source resolved the requested target; on any refusal the prior
    /// state is preserved exactly.
    pub fn start(&mut self, resolved: bool) -> (r: Result<(), CaptureError>)
        requires
            old(self).wf(),
        ensures
            final(self).wf(),
            (*final(self), r) == old(self).start_transition(resolved),
    {
        if self.running {
            Err(CaptureError::AlreadyRunning)
        } else if !resolved {
            Err(CaptureError::TargetResolutionFailed)
        } else {
            self.running = true;
            Ok(())
        }
    }

    /// Leave the capturing state: a no-op when idle, otherwise both
    /// counters are reset and every registered sink is handed back for
    /// teardown, in the fixed order.
    pub fn stop(&mut self) -> (torn_down: Vec<SinkKind>)
        requires
            old(self).wf(),
        ensures
            final(self).wf(),
            *final(self) == old(self).stop_transition(),
            torn_down@ == old(self).teardown_order(),
            !final(self).running,
            final(self).frames_captured == 0,
            final(self).frames_sent == 0,
            !final(self).ndi_registered,
            !final(self).syphon_registered,
    {
        let mut torn_down: Vec<SinkKind> = Vec::new();
        if !self.running {
            proof {
                assert(torn_down@ =~= old(self).teardown_order());
            }
            return torn_down;
        }
        if self.ndi_registered {
            torn_down.push(SinkKind::Ndi);
        }
        if self.syphon_registered {
            torn_down.push(SinkKind::Syphon);
        }
        self.running = false;
        self.frames_captured = 0;
        self.frames_sent = 0;
        self.ndi_registered = false;
        self.syphon_registered = false;
        proof {
            assert(torn_down@ =~= old(self).teardown_order());
        }
        torn_down
    }

    /// Take in one delivered frame. Returns whether the frame should be
    /// offered to the sinks; a frame without a payload never counts.
    pub fn accept_frame(&mut self, has_payload: bool) -> (deliver: bool)
        requires
            old(self).wf(),
        ensures
            final(self).wf(),
            (*final(self), deliver) == old(self).accept_transition(has_payload),
            !has_payload ==> final(self).frames_captured == old(self).frames_captured,
    {
        if self.running && has_payload {
            if self.frames_captured < u64::MAX {
                self.frames_captured = self.frames_captured + 1;
            }
            true
        } else {
            false
        }
    }

    /// Record the outcome of offering a frame to one sink: a successful
    /// delivery while capturing counts once, anything else not at all.
    pub fn record_delivery(&mut self, delivered: bool)
        requires
            old(self).wf(),
        ensures
            final(self).wf(),
            old(self).running && delivered ==> *final(self) == (CapturePipeline {
                frames_sent: inc64(old(self).frames_sent),
                ..*old(self)
            }),
            !(old(self).running && delivered) ==> *final(self) == *old(self),
    {
        if self.running && delivered {
            if self.frames_sent < u64::MAX {
                self.frames_sent = self.frames_sent + 1;
            }
        }
    }

    /// The sink kinds a delivered frame is offered to, in offer order.
    pub fn fan_out_order(&self) -> (kinds: Vec<SinkKind>)
        ensures
            kinds@ == self.teardown_order(),
    {
        let mut kinds: Vec<SinkKind> = Vec::new();
        if self.running {
            if self.ndi_registered {
                kinds.push(SinkKind::Ndi);
            }
            if self.syphon_registered {
                kinds.push(SinkKind::Syphon);
            }
        }
        proof {
            assert(kinds@ =~= self.teardown_order());
        }
        kinds
    }

    /// Register a sink of the given kind. Registration is exclusive per
    /// kind and only a capturing pipeline holds sinks; a refusal leaves
    /// the registry unchanged.
    pub fn register_sink(&mut self, kind: SinkKind) -> (r: Result<(), CaptureError>)
        requires
            old(self).wf(),
        ensures
            final(self).wf(),
            !old(self).running ==> r == Err::<(), CaptureError>(CaptureError::NotCapturing)
                && *final(self) == *old(self),
            old(self).running && old(self).has_sink(kind) ==> r == Err::<(), CaptureError>(
                CaptureError::SinkAlreadyRegistered,
            ) && *final(self) == *old(self),
            old(self).running && !old(self).has_sink(kind) ==> r == Ok::<(), CaptureError>(())
                && final(self).has_sink(kind) && final(self).running
                && final(self).frames_captured == old(self).frames_captured
                && final(self).frames_sent == old(self).frames_sent
                && (forall|k: SinkKind| k != kind ==> final(self).has_sink(k) == old(
                self,
            ).has_sink(k)),
    {
        if !self.running {
            return Err(CaptureError::NotCapturing);
        }
        match kind {
            SinkKind::Ndi => {
                if self.ndi_registered {
                    Err(CaptureError::SinkAlreadyRegistered)
                } else {
                    self.ndi_registered = true;
                    Ok(())
                }
            },
            SinkKind::Syphon => {
                if self.syphon_registered {
                    Err(CaptureError::SinkAlreadyRegistered)
                } else {
                    self.syphon_registered = true;
                    Ok(())
                }
            },
        }
    }

    /// Drop one sink kind from the registry. Idempotent; returns whether
    /// a sink of that kind had been registered, so that its owner can be
    /// torn down.
    pub fn unregister_sink(&mut self, kind: SinkKind) -> (was_registered: bool)
        requires
            old(self).wf(),
        ensures
            final(self).wf(),
            was_registered == old(self).has_sink(kind),
            !final(self).has_sink(kind),
            forall|k: SinkKind| k != kind ==> final(self).has_sink(k) == old(self).has_sink(k),
            final(self).running == old(self).running,
            final(self).frames_captured == old(self).frames_captured,
            final(self).frames_sent == old(self).frames_sent,
            final(self).ndi_available == old(self).ndi_available,
            final(self).syphon_available == old(self).syphon_available,
    {
        match kind {
            SinkKind::Ndi => {
                let was = self.ndi_registered;
                self.ndi_registered = false;
                was
            },
            SinkKind::Syphon => {
                let was = self.syphon_registered;
                self.syphon_registered = false;
                was
            },
        }
    }

    /// Whether a sink of this kind is currently registered.
    pub open spec fn has_sink(&self, kind: SinkKind) -> bool {
        match kind {
            SinkKind::Ndi => self.ndi_registered,
            SinkKind::Syphon => self.syphon_registered,
        }
    }

    /// Whether the pipeline is capturing.
    pub fn is_running(&self) -> (r: bool)
        ensures
            r == self.running,
    {
        self.running
    }

    /// Frames counted since capture started.
    pub fn frame_count(&self) -> (n: u64)
        ensures
            n == self.frames_captured,
    {
        self.frames_captured
    }

    /// Successful sink deliveries since capture started.
    pub fn frames_sent(&self) -> (n: u64)
        ensures
            n == self.frames_sent,
    {
        self.frames_sent
    }

    /// Whether this build can offer an NDI sink.
    pub fn is_ndi_available(&self) -> (r: bool)
        ensures
            r == self.ndi_available,
    {
        self.ndi_available
    }

    /// Whether this build can offer a Syphon sink.
    pub fn is_syphon_available(&self) -> (r: bool)
        ensures
            r == self.syphon_available,
    {
        self.syphon_available
    }

    /// A status snapshot of the whole pipeline.
    pub fn status(&self) -> (s: CaptureStatus)
        ensures
            s.is_capturing == self.running,
            s.ndi_available == self.ndi_available,
            s.ndi_running == (self.running && self.ndi_registered),
            s.syphon_available == self.syphon_available,
            s.syphon_running == (self.running && self.syphon_registered),
            s.frames_captured == self.frames_captured,
            s.frames_sent == self.frames_sent,
            s.target_fps == 30,
    {
        CaptureStatus {
            is_capturing: self.running,
            ndi_available: self.ndi_available,
            ndi_running: self.running && self.ndi_registered,
            syphon_available: self.syphon_available,
            syphon_running: self.running && self.syphon_registered,
            frames_captured: self.frames_captured,
            frames_sent: self.frames_sent,
            target_fps: 30,
        }
    }
}

/// Starting capture twice without an intervening stop is refused with
/// `AlreadyRunning`, and the second call leaves the counters and the sink
/// registry from the first call untouched.
pub proof fn lemma_start_while_running_is_refused(p: CapturePipeline, resolved: bool)
    requires
        p.running,
    ensures
        p.start_transition(resolved).1 == Err::<(), CaptureError>(CaptureError::AlreadyRunning),
        p.start_transition(resolved).0 == p,
{
}

/// Stopping an idle pipeline is a no-op: no error, no state change, and
/// nothing to tear down.
pub proof fn lemma_stop_when_idle_is_noop(p: CapturePipeline)
    requires
        !p.running,
    ensures
        p.stop_transition() == p,
        p.teardown_order() == Seq::<SinkKind>::empty(),
{
}

/// After a stop, both frame counters are zero and no sink is registered,
/// whatever state the pipeline was in.
pub proof fn lemma_stop_clears_counters_and_sinks(p: CapturePipeline)
    requires
        p.wf(),
    ensures
        p.stop_transition().frames_captured == 0,
        p.stop_transition().frames_sent == 0,
        !p.stop_transition().ndi_registered,
        !p.stop_transition().syphon_registered,
        !p.stop_transition().running,
{
}

/// A frame with an empty payload never increments the captured-frame
/// counter, and is never offered to any sink.
pub proof fn lemma_empty_frame_not_counted(p: CapturePipeline)
    ensures
        p.accept_transition(false).0 == p,
        !p.accept_transition(false).1,
{
}


/// Information about a capturable window.
#[derive(Clone, Debug)]
pub struct CaptureTarget {
    pub id: u32,
    pub app_name: String,
    pub title: String,
}

/// Runtime output capabilities exposed to callers.
#[derive(Clone, Debug)]
pub struct OutputCapabilities {
    pub platform: String,
    pub ndi_available: bool,
    pub syphon_available: bool,
}

impl OutputCapabilities {
    /// The capabilities of this build on the given platform.
    pub fn new(platform: String, ndi_available: bool, syphon_available: bool) -> (r: Self)
        ensures
            r.platform == platform,
            r.ndi_available == ndi_available,
            r.syphon_available == syphon_available,
    {
        OutputCapabilities { platform, ndi_available, syphon_available }
    }
}

/// Character-for-character string equality.
fn str_eq(a: &str, b: &str) -> (r: bool)
    ensures
        r == (a@ == b@),
{
    let n = a.unicode_len();
    if n != b.unicode_len() {
        return false;
    }
    let mut i: usize = 0;
    while i < n
        invariant
            n == a@.len(),
            n == b@.len(),
            0 <= i <= n,
            forall|j: int| 0 <= j < i ==> a@[j] == b@[j],
        decreases n - i,
    {
        if a.get_char(i) != b.get_char(i) {
            return false;
        }
        i = i + 1;
    }
    proof {
        assert(a@ =~= b@);
    }
    true
}

/// Whether the pattern sits at position `i` of the sequence.
pub open spec fn matches_at(s: Seq<char>, pat: Seq<char>, i: int) -> bool {
    forall|u: int| 0 <= u < pat.len() ==> #[trigger] s[i + u] == pat[u]
}

/// Whether the pattern occurs in the sequence.
pub open spec fn contains_seq(s: Seq<char>, pat: Seq<char>) -> bool {
    exists|i: int| 0 <= i && i + pat.len() <= s.len() && #[trigger] matches_at(s, pat, i)
}

/// Whether a character matches a lowercase ASCII pattern character,
/// ignoring ASCII case.
pub open spec fn eq_ascii_ci(a: char, b: char) -> bool {
    a == b || (65 <= a as u32 <= 90 && a as u32 + 32 == b as u32)
}

/// Whether the lowercase ASCII pattern sits at position `i` of the
/// sequence, ignoring ASCII case.
pub open spec fn matches_at_ci(s: Seq<char>, pat: Seq<char>, i: int) -> bool {
    forall|u: int| 0 <= u < pat.len() ==> #[trigger] eq_ascii_ci(s[i + u], pat[u])
}

/// Whether the lowercase ASCII pattern occurs in the sequence, ignoring
/// ASCII case.
pub open spec fn contains_seq_ci(s: Seq<char>, pat: Seq<char>) -> bool {
    exists|i: int| 0 <= i && i + pat.len() <= s.len() && #[trigger] matches_at_ci(s, pat, i)
}

/// Search a string for a pattern.
fn contains_substr(s: &str, pat: &str) -> (r: bool)
    ensures
        r == contains_seq(s@, pat@),
{
    let n = s.unicode_len();
    let m = pat.unicode_len();
    if m > n {
        return false;
    }
    let mut i: usize = 0;
    while i <= n - m
        invariant
            n == s@.len(),
            m == pat@.len(),
            m <= n,
            0 <= i <= n - m + 1,
            forall|t: int| 0 <= t < i ==> !(#[trigger] matches_at(s@, pat@, t)),
        decreases n + 1 - i,
    {
        let mut j: usize = 0;
        let mut hit = true;
        while j < m
            invariant
                n == s@.len(),
                m == pat@.len(),
                0 <= i <= n - m,
                0 <= j <= m,
                hit ==> forall|u: int| 0 <= u < j ==> #[trigger] s@[i + u] == pat@[u],
                !hit ==> !matches_at(s@, pat@, i as int),
            decreases m - j,
        {
            if s.get_char(i + j) != pat.get_char(j) {
                proof {
                    assert(s@[i + j] != pat@[j as int]);
                }
                hit = false;
                j = m;
            } else {
                j = j + 1;
            }
        }
        if hit {
            proof {
                assert(matches_at(s@, pat@, i as int));
            }
            return true;
        }
        i = i + 1;
    }
    false
}

/// Search a string for a lowercase ASCII pattern, ignoring ASCII case.
fn contains_substr_ci(s: &str, pat: &str) -> (r: bool)
    ensures
        r == contains_seq_ci(s@, pat@),
{
    let n = s.unicode_len();
    let m = pat.unicode_len();
    if m > n {
        return false;
    }
    let mut i: usize = 0;
    while i <= n - m
        invariant
            n == s@.len(),
            m == pat@.len(),
            m <= n,
            0 <= i <= n - m + 1,
            forall|t: int| 0 <= t < i ==> !(#[trigger] matches_at_ci(s@, pat@, t)),
        decreases n + 1 - i,
    {
        let mut j: usize = 0;
        let mut hit = true;
        while j < m
            invariant
                n == s@.len(),
                m == pat@.len(),
                0 <= i <= n - m,
                0 <= j <= m,
                hit ==> forall|u: int| 0 <= u < j ==> #[trigger] eq_ascii_ci(s@[i + u], pat@[u]),
                !hit ==> !matches_at_ci(s@, pat@, i as int),
            decreases m - j,
        {
            let sc = s.get_char(i + j);
            let pc = pat.get_char(j);
            let sv = sc as u32;
            let pv = pc as u32;
            let ok = sc == pc || (65 <= sv && sv <= 90 && sv + 32 == pv);
            if !ok {
                proof {
                    assert(!eq_ascii_ci(s@[i + j], pat@[j as int]));
                }
                hit = false;
                j = m;
            } else {
                j = j + 1;
            }
        }
        if hit {
            proof {
                assert(matches_at_ci(s@, pat@, i as int));
            }
            return true;
        }
        i = i + 1;
    }
    false
}

/// Whether a window belongs in the list of capturable windows: it has a
/// title and is not the window server's own.
pub fn is_listable_window(app_name: &str, title: &str) -> (r: bool)
    ensures
        r == (title@.len() > 0 && app_name@ != "Window Server"@),
{
    let has_title = title.unicode_len() > 0;
    let is_server = str_eq(app_name, "Window Server");
    has_title && !is_server
}

/// Whether a window is the driver's own main window, fit to capture: the
/// owning application carries the driver's name and the window is not
/// the presenter window.
pub fn is_capture_source_window(app_name: &str, title: &str) -> (r: bool)
    ensures
        r == ((contains_seq(app_name@, "StreamSlate"@) || contains_seq(
            app_name@,
            "streamslate"@,
        )) && !contains_seq_ci(title@, "presenter"@)),
{
    let ours = contains_substr(app_name, "StreamSlate") || contains_substr(
        app_name,
        "streamslate",
    );
    if !ours {
        return false;
    }
    !contains_substr_ci(title, "presenter")
}

} // verus!
