use vstd::prelude::*;
use vstd::string::*;

verus! {

/// The lifecycle state of the capture engine.
#[derive(Debug, Clone, PartialEq, Eq)]
pub enum CaptureState {
    Uninitialized,
    Idle,
    Active,
    Error(String),
}

/// The failures the capture engine reports.
#[derive(Debug, Clone, Copy, PartialEq, Eq, Structural)]
pub enum CaptureError {
    DeviceOpenError,
    StreamError,
    DecodeError,
    NotInitialized,
    MalformedFrame,
}

/// What a start request asks of the device layer.
#[derive(Debug, Clone, Copy, PartialEq, Eq, Structural)]
pub enum StartStep {
    AlreadyActive,
    OpenStream,
}

/// What a stop request asks of the device layer.
#[derive(Debug, Clone, Copy, PartialEq, Eq, Structural)]
pub enum StopStep {
    NotActive,
    CloseStream,
}

/// What a capture request asks of the device layer.
#[derive(Debug, Clone, Copy, PartialEq, Eq, Structural)]
pub enum CaptureStep {
    Inactive,
    RateLimited,
    ReadFrame,
}

/// What `start` decides in each state: without a device handle it fails,
/// when already streaming it is a successful no-op, and from `Idle` it asks
/// the device layer to open the stream (the state changes only once the
/// outcome is recorded).
pub open spec fn start_decision_spec(s: CaptureState) -> Result<StartStep, CaptureError> {
    match s {
        CaptureState::Uninitialized => Err(CaptureError::NotInitialized),
        CaptureState::Error(_) => Err(CaptureError::NotInitialized),
        CaptureState::Active => Ok(StartStep::AlreadyActive),
        CaptureState::Idle => Ok(StartStep::OpenStream),
    }
}

/// The state after a stream-open outcome is recorded: `Idle` becomes
/// `Active` only when the open succeeded; a failed open leaves the state
/// unchanged.
pub open spec fn apply_start(s: CaptureState, ok: bool) -> CaptureState {
    if s == CaptureState::Idle && ok {
        CaptureState::Active
    } else {
        s
    }
}

/// What `stop` decides: a no-op unless the engine is streaming.
pub open spec fn stop_decision_spec(s: CaptureState) -> StopStep {
    if s == CaptureState::Active {
        StopStep::CloseStream
    } else {
        StopStep::NotActive
    }
}

/// The state after a stream-close outcome is recorded: the engine leaves
/// `Active` only when the close succeeded, so a failed close can be retried.
pub open spec fn apply_stop(s: CaptureState, ok: bool) -> CaptureState {
    if s == CaptureState::Active && ok {
        CaptureState::Idle
    } else {
        s
    }
}

/// Capture engine: owns the lifecycle state of the single device stream and
/// the rate-limit policy that bounds how often frames are pulled. The device
/// itself lives outside; every device outcome is recorded through one of the
/// `on_*`/`initialize` calls.
pub struct CameraCapture {
    pub state: CaptureState,
    pub last_frame_ms: u64,
    pub has_last_frame: bool,
    pub frame_skip_threshold_ms: u64,
}

/// What `capture_frame` decides: skipped while not streaming, skipped while
/// the minimum inter-frame interval since the last recorded frame has not
/// elapsed, and a device read otherwise.
pub open spec fn capture_decision_spec(c: CameraCapture, now_ms: u64) -> CaptureStep {
    if c.state != CaptureState::Active {
        CaptureStep::Inactive
    } else if c.has_last_frame && (now_ms as int) < c.last_frame_ms + c.frame_skip_threshold_ms {
        CaptureStep::RateLimited
    } else {
        CaptureStep::ReadFrame
    }
}

impl CameraCapture {
    /// A fresh engine: no device, no frame recorded yet, and the fixed
    /// 50 ms minimum inter-frame interval (at most ~20 frames per second).
    pub fn new() -> (r: Self)
        ensures
            r == (CameraCapture {
                state: CaptureState::Uninitialized,
                last_frame_ms: 0u64,
                has_last_frame: false,
                frame_skip_threshold_ms: 50u64,
            }),
    {
        CameraCapture {
            state: CaptureState::Uninitialized,
            last_frame_ms: 0,
            has_last_frame: false,
            frame_skip_threshold_ms: 50,
        }
    }

    /// Records the outcome of opening the device: on success the engine is
    /// `Idle` (streaming has not started); on failure nothing changes and
    /// the open error is surfaced.
    pub fn initialize(&mut self, opened: bool) -> (r: Result<(), CaptureError>)
        ensures
            opened ==> *final(self) == (CameraCapture {
                state: CaptureState::Idle,
                ..*old(self)
            }) && r == Ok::<(), CaptureError>(()),
            !opened ==> *final(self) == *old(self) && r == Err::<(), CaptureError>(
                CaptureError::DeviceOpenError,
            ),
    {
        if opened {
            self.state = CaptureState::Idle;
            Ok(())
        } else {
            Err(CaptureError::DeviceOpenError)
        }
    }

    /// Decides a start request; the state is not changed until the stream
    /// outcome is recorded with `on_stream_opened`.
    pub fn start(&self) -> (r: Result<StartStep, CaptureError>)
        ensures
            r == start_decision_spec(self.state),
    {
        match &self.state {
            CaptureState::Uninitialized => Err(CaptureError::NotInitialized),
            CaptureState::Error(_) => Err(CaptureError::NotInitialized),
            CaptureState::Active => Ok(StartStep::AlreadyActive),
            CaptureState::Idle => Ok(StartStep::OpenStream),
        }
    }

    /// Records the outcome of opening the stream after `start` asked for it:
    /// success makes the engine `Active`; failure leaves it `Idle` and
    /// surfaces the error rather than swallowing it.
    pub fn on_stream_opened(&mut self, ok: bool) -> (r: Result<(), CaptureError>)
        requires
            old(self).state == CaptureState::Idle,
        ensures
            final(self).state == apply_start(old(self).state, ok),
            *final(self) == (CameraCapture {
                state: apply_start(old(self).state, ok),
                ..*old(self)
            }),
            ok ==> r == Ok::<(), CaptureError>(()),
            !ok ==> r == Err::<(), CaptureError>(CaptureError::StreamError),
    {
        if ok {
            self.state = CaptureState::Active;
            Ok(())
        } else {
            Err(CaptureError::StreamError)
        }
    }

    /// Decides a stop request; the state is not changed until the close
    /// outcome is recorded with `on_stream_closed`.
    pub fn stop(&self) -> (r: StopStep)
        ensures
            r == stop_decision_spec(self.state),
    {
        match &self.state {
            CaptureState::Active => StopStep::CloseStream,
            _ => StopStep::NotActive,
        }
    }

    /// Records the outcome of closing the stream: the engine becomes `Idle`
    /// only when the close succeeded; on failure it stays `Active` so the
    /// caller can retry, never losing track of a stream that is still open.
    pub fn on_stream_closed(&mut self, ok: bool)
        requires
            old(self).state == CaptureState::Active,
        ensures
            *final(self) == (CameraCapture {
                state: apply_stop(old(self).state, ok),
                ..*old(self)
            }),
    {
        if ok {
            self.state = CaptureState::Idle;
        }
    }

    /// Forces the engine out of `Active` whatever the device layer managed:
    /// the caller may retry the close a bounded number of times first, and
    /// the engine stops tracking the stream regardless. Returns whether a
    /// close was owed at all.
    pub fn force_stop(&mut self) -> (needed_close: bool)
        ensures
            needed_close == (old(self).state == CaptureState::Active),
            old(self).state == CaptureState::Active ==> *final(self) == (CameraCapture {
                state: CaptureState::Idle,
                ..*old(self)
            }),
            old(self).state != CaptureState::Active ==> *final(self) == *old(self),
    {
        match &self.state {
            CaptureState::Active => {
                self.state = CaptureState::Idle;
                true
            },
            _ => false,
        }
    }

    /// Decides whether to pull one frame now: a successful no-op while the
    /// engine is not streaming, a rate-limited skip while less than the
    /// threshold has elapsed since the last recorded frame, and a device
    /// read otherwise.
    pub fn capture_frame(&self, now_ms: u64) -> (r: CaptureStep)
        ensures
            r == capture_decision_spec(*self, now_ms),
    {
        let active: bool = self.is_active();
        if !active {
            CaptureStep::Inactive
        } else if self.has_last_frame && {
            let elapsed_ok: bool = if now_ms >= self.last_frame_ms {
                now_ms - self.last_frame_ms < self.frame_skip_threshold_ms
            } else {
                true
            };
            elapsed_ok
        } {
            CaptureStep::RateLimited
        } else {
            CaptureStep::ReadFrame
        }
    }

    /// Records a successfully delivered frame at the given clock reading;
    /// the rate limiter measures from this instant.
    pub fn on_frame_ok(&mut self, now_ms: u64)
        ensures
            *final(self) == (CameraCapture {
                last_frame_ms: now_ms,
                has_last_frame: true,
                ..*old(self)
            }),
    {
        self.last_frame_ms = now_ms;
        self.has_last_frame = true;
    }

    /// Records a fatal device fault with its description; the engine then
    /// demands re-initialization before streaming again.
    pub fn record_fault(&mut self, msg: String)
        ensures
            *final(self) == (CameraCapture { state: CaptureState::Error(msg), ..*old(self) }),
    {
        self.state = CaptureState::Error(msg);
    }

    /// Whether the engine believes the stream is running.
    pub fn is_active(&self) -> (r: bool)
        ensures
            r == (self.state == CaptureState::Active),
    {
        match &self.state {
            CaptureState::Active => true,
            _ => false,
        }
    }

    /// Whether a stream is open: the engine has a device and is streaming.
    pub fn is_stream_open(&self) -> (r: bool)
        ensures
            r == (self.state == CaptureState::Active),
    {
        self.is_active()
    }

    /// Releases everything: the engine returns to `Uninitialized` and
    /// forgets its frame clock. Idempotent. Returns whether the device layer
    /// still owes a stream close.
    pub fn cleanup(&mut self) -> (needed_close: bool)
        ensures
            needed_close == (old(self).state == CaptureState::Active),
            *final(self) == (CameraCapture {
                state: CaptureState::Uninitialized,
                last_frame_ms: 0u64,
                has_last_frame: false,
                frame_skip_threshold_ms: old(self).frame_skip_threshold_ms,
            }),
    {
        let needed: bool = self.is_active();
        self.state = CaptureState::Uninitialized;
        self.last_frame_ms = 0;
        self.has_last_frame = false;
        needed
    }
}

/// Stopping twice in a row is safe: from `Active`, a stop whose close
/// succeeded leaves the engine `Idle`, and a second stop is a no-op that
/// asks for no close and leaves the state `Idle`.
pub proof fn lemma_stop_twice(s: CaptureState)
    requires
        s == CaptureState::Active,
    ensures
        stop_decision_spec(s) == StopStep::CloseStream,
        apply_stop(s, true) == CaptureState::Idle,
        stop_decision_spec(apply_stop(s, true)) == StopStep::NotActive,
        apply_stop(apply_stop(s, true), true) == CaptureState::Idle,
{
}

/// Starting twice in a row is safe: from `Idle`, the first start asks the
/// device layer to open the stream, and once that is recorded as successful
/// a second start reports success without asking for another stream open,
/// leaving the state `Active`.
pub proof fn lemma_start_twice(s: CaptureState)
    requires
        s == CaptureState::Idle,
    ensures
        start_decision_spec(s) == Ok::<StartStep, CaptureError>(StartStep::OpenStream),
        apply_start(s, true) == CaptureState::Active,
        start_decision_spec(apply_start(s, true)) == Ok::<StartStep, CaptureError>(
            StartStep::AlreadyActive,
        ),
        apply_start(apply_start(s, true), true) == CaptureState::Active,
{
}

} // verus!

verus! {

/// The character code with an ASCII upper-case letter folded to lower case.
pub open spec fn lower_code(c: char) -> int {
    if 65 <= c as int && c as int <= 90 {
        c as int + 32
    } else {
        c as int
    }
}

/// Case-insensitive equality of two characters, ASCII-folded.
pub open spec fn ci_eq(a: char, b: char) -> bool {
    lower_code(a) == lower_code(b)
}

/// `pat` occurs in `name` starting at position `i`, case-insensitively.
pub open spec fn ci_match_at(name: Seq<char>, pat: Seq<char>, i: int) -> bool {
    forall|j: int| 0 <= j < pat.len() ==> ci_eq(name[i + j], pat[j])
}

/// `name` contains `pat` somewhere, case-insensitively.
pub open spec fn ci_contains(name: Seq<char>, pat: Seq<char>) -> bool {
    exists|i: int| 0 <= i && i + pat.len() <= name.len() && ci_match_at(name, pat, i)
}

/// Device names the filter treats as virtual/loopback devices.
pub open spec fn is_virtual_name(name: Seq<char>) -> bool {
    ci_contains(name, "virtual"@) || ci_contains(name, "dummy"@)
}

fn char_eq_ci(a: char, b: char) -> (r: bool)
    ensures
        r == ci_eq(a, b),
{
    let ac: u32 = a as u32;
    let bc: u32 = b as u32;
    let al: u32 = if ac >= 65 && ac <= 90 {
        ac + 32
    } else {
        ac
    };
    let bl: u32 = if bc >= 65 && bc <= 90 {
        bc + 32
    } else {
        bc
    };
    al == bl
}

/// Case-insensitive substring search, ASCII-folded.
fn str_contains_ci(name: &str, pat: &str) -> (r: bool)
    ensures
        r == ci_contains(name@, pat@),
{
    let n: usize = name.unicode_len();
    let m: usize = pat.unicode_len();
    if m > n {
        return false;
    }
    let mut i: usize = 0;
    while i <= n - m
        invariant
            m <= n,
            n == name@.len(),
            m == pat@.len(),
            i <= n - m + 1,
            forall|k: int| 0 <= k < i as int ==> !ci_match_at(name@, pat@, k),
        decreases n - m + 1 - i,
    {
        let mut j: usize = 0;
        let mut ok: bool = true;
        while j < m
            invariant
                m <= n,
            n == name@.len(),
                m == pat@.len(),
                i + m <= n,
                j <= m,
                ok ==> forall|jj: int| 0 <= jj < j as int ==> ci_eq(
                    name@[i as int + jj],
                    pat@[jj],
                ),
                !ok ==> !ci_match_at(name@, pat@, i as int),
            decreases m - j,
        {
            let a: char = name.get_char(i + j);
            let b: char = pat.get_char(j);
            if !char_eq_ci(a, b) {
                proof {
                    assert(!ci_eq(name@[i as int + j as int], pat@[j as int]));
                }
                ok = false;
                j = m;
            } else {
                j = j + 1;
            }
        }
        if ok {
            proof {
                assert(ci_match_at(name@, pat@, i as int));
            }
            return true;
        }
        i = i + 1;
    }
    false
}

/// Whether entry `i` of the raw enumeration survives the filter: its name is
/// not a virtual/loopback marker and has not occurred at any earlier entry.
pub open spec fn device_kept(entries: Seq<(u32, String)>, i: int) -> bool {
    &&& !is_virtual_name(entries[i].1@)
    &&& forall|j: int| 0 <= j < i ==> (#[trigger] entries[j].1)@ != entries[i].1@
}

/// The filtered view of the first `k` raw entries, in order, each carrying
/// its original enumeration index.
pub open spec fn filter_devices_prefix(entries: Seq<(u32, String)>, k: int) -> Seq<
    (u32, Seq<char>),
>
    decreases k,
{
    if k <= 0 {
        Seq::empty()
    } else {
        let prev = filter_devices_prefix(entries, k - 1);
        if device_kept(entries, k - 1) {
            prev.push((entries[k - 1].0, entries[k - 1].1@))
        } else {
            prev
        }
    }
}

/// The filtered device list owed for a raw enumeration.
pub open spec fn filter_devices(entries: Seq<(u32, String)>) -> Seq<(u32, Seq<char>)> {
    filter_devices_prefix(entries, entries.len() as int)
}

/// The (index, name) view of a device list.
pub open spec fn entries_view(s: Seq<(u32, String)>) -> Seq<(u32, Seq<char>)> {
    s.map(|i: int, e: (u32, String)| (e.0, e.1@))
}

impl CameraCapture {
    /// Filters a raw device enumeration: drops entries whose display name
    /// contains "virtual" or "dummy" (case-insensitively) and entries whose
    /// name already occurred, keeping the original enumeration index of each
    /// survivor — filtering never renumbers.
    pub fn list_cameras(raw: &Vec<(u32, String)>) -> (out: Vec<(u32, String)>)
        ensures
            entries_view(out@) == filter_devices(raw@),
    {
        let mut out: Vec<(u32, String)> = Vec::new();
        let mut i: usize = 0;
        while i < raw.len()
            invariant
                i <= raw@.len(),
                entries_view(out@) == filter_devices_prefix(raw@, i as int),
            decreases raw@.len() - i,
        {
            let name: &String = &raw[i].1;
            let mut dup: bool = false;
            let mut j: usize = 0;
            while j < i
                invariant
                    j <= i,
                    i < raw@.len(),
                    name@ == (raw@[i as int].1)@,
                    dup == exists|k: int|
                        0 <= k < j as int && (#[trigger] raw@[k].1)@ == raw@[i as int].1@,
                decreases i - j,
            {
                let other: &String = &raw[j].1;
                let same: bool = other.eq(name);
                proof {
                    if same {
                        assert((raw@[j as int].1)@ == raw@[i as int].1@);
                    } else {
                        assert((raw@[j as int].1)@ != raw@[i as int].1@);
                        assert forall|k: int|
                            0 <= k < j as int + 1 && (#[trigger] raw@[k].1)@
                                == raw@[i as int].1@ implies 0 <= k < j as int by {}
                    }
                }
                if same {
                    dup = true;
                }
                j = j + 1;
            }
            let virt: bool = str_contains_ci(name.as_str(), "virtual") || str_contains_ci(
                name.as_str(),
                "dummy",
            );
            if !dup && !virt {
                let idx: u32 = raw[i].0;
                let kept_name: String = name.clone();
                out.push((idx, kept_name));
                proof {
                    assert(device_kept(raw@, i as int));
                    assert(entries_view(out@) =~= filter_devices_prefix(raw@, i as int + 1));
                }
            } else {
                proof {
                    assert(!device_kept(raw@, i as int));
                    assert(entries_view(out@) =~= filter_devices_prefix(raw@, i as int + 1));
                }
            }
            i = i + 1;
        }
        out
    }
}

} // verus!
