use vstd::prelude::*;

use crate::capture::{
    frame_bytes, frame_len, Capture, CaptureInitError, CaptureOpts, Frame, MAX_EXTENT,
    NANOS_PER_SECOND,
};

verus! {

/// One native operation on a surface delivered by the display stream. A
/// surface is named by its handle.
#[derive(Debug, Clone, Copy, PartialEq, Eq, Structural)]
pub enum SurfaceOp {
    Retain(u64),
    Release(u64),
    IncrementUseCount(u64),
    DecrementUseCount(u64),
    LockReadOnly(u64),
    UnlockReadOnly(u64),
}

/// One native operation on the stream's own resources, or on a surface.
#[derive(Debug, Clone, Copy, PartialEq, Eq, Structural)]
pub enum StreamOp {
    StopStream,
    ReleaseStream,
    ReleaseQueue,
    Surface(SurfaceOp),
}

/// The counters that the platform keeps on each surface.
#[derive(Clone, Copy, PartialEq, Eq, Structural)]
pub enum Counter {
    Retains,
    Uses,
    Locks,
}

/// The status that the platform gives each firing of the frame callback.
#[derive(Debug, Clone, Copy, PartialEq, Eq, Structural)]
pub enum FrameStatus {
    FrameComplete,
    FrameIdle,
    FrameBlank,
    Stopped,
}

/// How creating and starting the native stream went.
#[derive(Debug, Clone, Copy, PartialEq, Eq, Structural)]
pub enum StreamOutcome {
    /// The stream object could not be created; the platform's last error.
    NotCreated { os_error: i32 },
    /// The stream was created but did not start; the status it gave.
    StartFailed { status: i32 },
    Started,
}

/// The configuration handed to the native stream when it is created.
#[derive(Debug, Clone, Copy, PartialEq, Eq, Structural)]
pub struct StreamConfig {
    pub show_cursor: bool,
    pub preserve_aspect_ratio: bool,
    /// The least time between two frames, in nanoseconds; 0 for none.
    pub minimum_frame_time_nanos: u64,
    pub queue_depth: u8,
}

/// The pixel layout that the stream delivers.
#[derive(Debug, Clone, Copy, PartialEq, Eq, Structural)]
pub enum PixelFormat {
    /// Packed 32-bit pixels, alpha first.
    Argb8888,
}

/// Everything the native stream is created with: the display to stream, the
/// output size in pixels, the pixel layout, and the configuration.
#[derive(Debug, Clone, Copy, PartialEq, Eq, Structural)]
pub struct StreamRequest {
    pub display: u64,
    pub width: u32,
    pub height: u32,
    pub pixel_format: PixelFormat,
    pub config: StreamConfig,
}

/// A delivered surface, held for reading. While the frame lives the surface is
/// read-locked and its use count raised; it also holds the backend's retain on
/// the surface, which it gives up when released.
#[derive(Debug)]
pub struct QuartzFrame {
    surface: u64,
    byte_len: u64,
}

/// The decisions of the streaming backend. The platform's callback thread
/// reports each completed frame through `on_frame`; the consumer polls with
/// `frame`. At most one delivered, unconsumed surface is held: a new one
/// replaces it, and the replaced one is released.
#[derive(Debug)]
pub struct QuartzCapture {
    latest: Option<u64>,
    live: bool,
    byte_len: u64,
}

pub open spec fn op_delta(op: SurfaceOp, t: u64, c: Counter) -> int {
    match (op, c) {
        (SurfaceOp::Retain(s), Counter::Retains) => if s == t { 1 } else { 0 },
        (SurfaceOp::Release(s), Counter::Retains) => if s == t { -1 } else { 0 },
        (SurfaceOp::IncrementUseCount(s), Counter::Uses) => if s == t { 1 } else { 0 },
        (SurfaceOp::DecrementUseCount(s), Counter::Uses) => if s == t { -1 } else { 0 },
        (SurfaceOp::LockReadOnly(s), Counter::Locks) => if s == t { 1 } else { 0 },
        (SurfaceOp::UnlockReadOnly(s), Counter::Locks) => if s == t { -1 } else { 0 },
        _ => 0,
    }
}

/// How much a run of operations changes counter `c` of surface `t`.
pub open spec fn net(ops: Seq<SurfaceOp>, t: u64, c: Counter) -> int
    decreases ops.len(),
{
    if ops.len() == 0 {
        0
    } else {
        net(ops.drop_last(), t, c) + op_delta(ops.last(), t, c)
    }
}

pub open spec fn acquire_ops_of(s: u64) -> Seq<SurfaceOp> {
    seq![SurfaceOp::IncrementUseCount(s), SurfaceOp::LockReadOnly(s)]
}

pub open spec fn release_ops_of(s: u64) -> Seq<SurfaceOp> {
    seq![SurfaceOp::UnlockReadOnly(s), SurfaceOp::DecrementUseCount(s), SurfaceOp::Release(s)]
}

pub open spec fn minimum_frame_time(frame_rate: u32) -> u64 {
    if frame_rate == 0 {
        0
    } else {
        (NANOS_PER_SECOND / frame_rate as u64) as u64
    }
}

pub open spec fn config_of(opts: CaptureOpts) -> StreamConfig {
    StreamConfig {
        show_cursor: opts.cursor,
        preserve_aspect_ratio: false,
        minimum_frame_time_nanos: minimum_frame_time(opts.frame_rate),
        queue_depth: opts.frame_queue,
    }
}

pub open spec fn request_of(opts: CaptureOpts) -> StreamRequest {
    StreamRequest {
        display: opts.display.handle,
        width: opts.display.width,
        height: opts.display.height,
        pixel_format: PixelFormat::Argb8888,
        config: config_of(opts),
    }
}

pub open spec fn open_cleanup_of(outcome: StreamOutcome) -> Seq<StreamOp> {
    match outcome {
        StreamOutcome::NotCreated { .. } => seq![StreamOp::ReleaseQueue],
        StreamOutcome::StartFailed { .. } => seq![StreamOp::ReleaseStream, StreamOp::ReleaseQueue],
        StreamOutcome::Started => seq![],
    }
}

/// How often `op` occurs in `ops`.
pub open spec fn occurrences(ops: Seq<StreamOp>, op: StreamOp) -> nat
    decreases ops.len(),
{
    if ops.len() == 0 {
        0
    } else {
        occurrences(ops.drop_last(), op) + if ops.last() == op {
            1nat
        } else {
            0nat
        }
    }
}

/// What a completed frame `s` makes the backend do while it holds `latest`:
/// retain `s`, then release what it replaces.
pub open spec fn deliver_ops(latest: Option<u64>, s: u64) -> Seq<SurfaceOp> {
    match latest {
        Some(d) => seq![SurfaceOp::Retain(s), SurfaceOp::Release(d)],
        None => seq![SurfaceOp::Retain(s)],
    }
}

/// The surface held after a run of completed frames, starting from `latest`.
pub open spec fn latest_after(latest: Option<u64>, ss: Seq<u64>) -> Option<u64> {
    if ss.len() == 0 {
        latest
    } else {
        Some(ss.last())
    }
}

/// The operations that a run of completed frames performs, starting from
/// `latest`.
pub open spec fn ops_after(latest: Option<u64>, ss: Seq<u64>) -> Seq<SurfaceOp>
    decreases ss.len(),
{
    if ss.len() == 0 {
        seq![]
    } else {
        ops_after(latest, ss.drop_last()) + deliver_ops(
            latest_after(latest, ss.drop_last()),
            ss.last(),
        )
    }
}

/// How many retains a backend holding `latest` has on surface `t`.
pub open spec fn held(latest: Option<u64>, t: u64) -> int {
    if latest == Some(t) {
        1
    } else {
        0
    }
}

impl QuartzFrame {
    pub closed spec fn view_surface(&self) -> u64 {
        self.surface
    }

    /// The number of pixel bytes that the frame hands out.
    pub closed spec fn view_len(&self) -> u64 {
        self.byte_len
    }

    /// The frame over `surface`, which carries the backend's retain on it and
    /// hands out `byte_len` bytes of pixels.
    pub fn new(surface: u64, byte_len: u64) -> (r: QuartzFrame)
        ensures
            r.view_surface() == surface,
            r.view_len() == byte_len,
    {
        QuartzFrame { surface, byte_len }
    }

    pub fn byte_len(&self) -> (r: u64)
        ensures
            r == self.view_len(),
    {
        self.byte_len
    }

    pub fn surface(&self) -> (r: u64)
        ensures
            r == self.view_surface(),
    {
        self.surface
    }

    /// What to do before reading the surface: raise its use count, then lock
    /// it for reading.
    pub fn acquire_ops(&self) -> (r: Vec<SurfaceOp>)
        ensures
            r@ == acquire_ops_of(self.view_surface()),
    {
        let s = self.surface;
        let r = vec![SurfaceOp::IncrementUseCount(s), SurfaceOp::LockReadOnly(s)];
        proof {
            assert(r@ =~= acquire_ops_of(s));
        }
        r
    }

    /// Ends the frame, returning what to do: unlock the surface, lower its use
    /// count, and give up the retain, in that order. The frame is consumed, so
    /// this happens once.
    pub fn release(self) -> (r: Vec<SurfaceOp>)
        ensures
            r@ == release_ops_of(self.view_surface()),
    {
        let s = self.surface;
        let r = vec![
            SurfaceOp::UnlockReadOnly(s),
            SurfaceOp::DecrementUseCount(s),
            SurfaceOp::Release(s),
        ];
        proof {
            assert(r@ =~= release_ops_of(s));
        }
        r
    }
}

impl QuartzCapture {
    pub closed spec fn view_latest(&self) -> Option<u64> {
        self.latest
    }

    pub closed spec fn view_live(&self) -> bool {
        self.live
    }

    /// The number of pixel bytes that each frame of this backend hands out.
    pub closed spec fn view_len(&self) -> u64 {
        self.byte_len
    }

    /// What the native stream is created with: the display of `opts` at its
    /// full size, packed 32-bit pixels with alpha first, and the configuration
    /// of `opts`.
    pub fn build_request(opts: &CaptureOpts) -> (r: StreamRequest)
        ensures
            r == request_of(*opts),
    {
        StreamRequest {
            display: opts.display.handle,
            width: opts.display.width,
            height: opts.display.height,
            pixel_format: PixelFormat::Argb8888,
            config: Self::build_config(opts),
        }
    }

    /// The stream configuration for `opts`: the cursor as asked, the aspect
    /// ratio not preserved, the least frame time one second divided by the
    /// rate ceiling (none when the ceiling is 0), and the queue depth as asked.
    pub fn build_config(opts: &CaptureOpts) -> (r: StreamConfig)
        ensures
            r == config_of(*opts),
    {
        let minimum_frame_time_nanos: u64 = if opts.frame_rate == 0 {
            0
        } else {
            NANOS_PER_SECOND / opts.frame_rate as u64
        };
        StreamConfig {
            show_cursor: opts.cursor,
            preserve_aspect_ratio: false,
            minimum_frame_time_nanos,
            queue_depth: opts.frame_queue,
        }
    }

    /// What to release after an attempt to open the stream: the worker queue
    /// whenever the stream did not start, and the stream too when it was
    /// created but not started. Nothing when it started.
    pub fn open_cleanup(outcome: StreamOutcome) -> (r: Vec<StreamOp>)
        ensures
            r@ == open_cleanup_of(outcome),
    {
        let r = match outcome {
            StreamOutcome::NotCreated { .. } => vec![StreamOp::ReleaseQueue],
            StreamOutcome::StartFailed { .. } => vec![StreamOp::ReleaseStream, StreamOp::ReleaseQueue],
            StreamOutcome::Started => Vec::new(),
        };
        proof {
            assert(r@ =~= open_cleanup_of(outcome));
        }
        r
    }

    /// The backend for a stream on the display of `opts` that was opened with
    /// the given outcome: a live backend with nothing delivered, whose frames
    /// hold four bytes per pixel of the display, when it started; else the
    /// platform's error code.
    pub fn new(opts: &CaptureOpts, outcome: StreamOutcome) -> (r: Result<
        QuartzCapture,
        CaptureInitError,
    >)
        requires
            opts.display.width <= MAX_EXTENT,
            opts.display.height <= MAX_EXTENT,
        ensures
            match outcome {
                StreamOutcome::NotCreated { os_error } => r == Err::<
                    QuartzCapture,
                    CaptureInitError,
                >(CaptureInitError { code: os_error }),
                StreamOutcome::StartFailed { status } => r == Err::<
                    QuartzCapture,
                    CaptureInitError,
                >(CaptureInitError { code: status }),
                StreamOutcome::Started => r is Ok && r->Ok_0.view_live() && r->Ok_0.view_latest()
                    is None && r->Ok_0.view_len() == frame_len(
                    opts.display.width,
                    opts.display.height,
                ),
            },
    {
        match outcome {
            StreamOutcome::NotCreated { os_error } => Err(CaptureInitError { code: os_error }),
            StreamOutcome::StartFailed { status } => Err(CaptureInitError { code: status }),
            StreamOutcome::Started => Ok(
                QuartzCapture {
                    latest: None,
                    live: true,
                    byte_len: frame_bytes(opts.display.width, opts.display.height),
                },
            ),
        }
    }

    /// A firing of the frame callback. A completed frame on a live backend is
    /// retained and becomes the latest; the surface it replaces, if any, is
    /// released. Any other status, or a firing after teardown, changes nothing.
    pub fn on_frame(&mut self, status: FrameStatus, surface: u64) -> (r: Vec<SurfaceOp>)
        ensures
            final(self).view_live() == old(self).view_live(),
            final(self).view_len() == old(self).view_len(),
            old(self).view_live() && status == FrameStatus::FrameComplete ==> r@ == deliver_ops(
                old(self).view_latest(),
                surface,
            ) && final(self).view_latest() == Some(surface),
            !(old(self).view_live() && status == FrameStatus::FrameComplete) ==> r@
                == Seq::<SurfaceOp>::empty() && final(self).view_latest() == old(
                self,
            ).view_latest(),
    {
        if self.live && status == FrameStatus::FrameComplete {
            let r = match self.latest {
                Some(d) => vec![SurfaceOp::Retain(surface), SurfaceOp::Release(d)],
                None => vec![SurfaceOp::Retain(surface)],
            };
            proof {
                assert(r@ =~= deliver_ops(self.latest, surface));
            }
            self.latest = Some(surface);
            r
        } else {
            Vec::new()
        }
    }

    /// Takes the latest surface, leaving nothing behind: `Ready` with a frame
    /// over it when there was one, `Blocking` when nothing arrived since the
    /// last poll.
    pub fn poll(&mut self) -> (r: Frame<QuartzFrame>)
        ensures
            final(self).view_latest() is None,
            final(self).view_live() == old(self).view_live(),
            final(self).view_len() == old(self).view_len(),
            match old(self).view_latest() {
                Some(s) => r is Ready && r->Ready_0.view_surface() == s && r->Ready_0.view_len()
                    == old(self).view_len(),
                None => r is Blocking,
            },
    {
        match self.latest.take() {
            Some(s) => Frame::Ready(QuartzFrame::new(s, self.byte_len)),
            None => Frame::Blocking,
        }
    }

    /// Stops the backend, once: the stream is stopped, a surface still waiting
    /// is released, then the stream and the worker queue are released. A
    /// second teardown does nothing. Frames already handed out keep their
    /// surfaces.
    pub fn teardown(&mut self) -> (r: Vec<StreamOp>)
        ensures
            !final(self).view_live(),
            final(self).view_latest() is None,
            final(self).view_len() == old(self).view_len(),
            !old(self).view_live() ==> r@ == Seq::<StreamOp>::empty(),
            old(self).view_live() ==> r@ == match old(self).view_latest() {
                Some(s) => seq![
                    StreamOp::StopStream,
                    StreamOp::Surface(SurfaceOp::Release(s)),
                    StreamOp::ReleaseStream,
                    StreamOp::ReleaseQueue,
                ],
                None => seq![StreamOp::StopStream, StreamOp::ReleaseStream, StreamOp::ReleaseQueue],
            },
    {
        if !self.live {
            self.latest = None;
            return Vec::new();
        }
        let mut r: Vec<StreamOp> = vec![StreamOp::StopStream];
        match self.latest.take() {
            Some(s) => r.push(StreamOp::Surface(SurfaceOp::Release(s))),
            None => {},
        }
        r.push(StreamOp::ReleaseStream);
        r.push(StreamOp::ReleaseQueue);
        self.live = false;
        proof {
            assert(r@ =~= match old(self).view_latest() {
                Some(s) => seq![
                    StreamOp::StopStream,
                    StreamOp::Surface(SurfaceOp::Release(s)),
                    StreamOp::ReleaseStream,
                    StreamOp::ReleaseQueue,
                ],
                None => seq![StreamOp::StopStream, StreamOp::ReleaseStream, StreamOp::ReleaseQueue],
            });
        }
        r
    }
}

impl Capture<QuartzFrame> for QuartzCapture {
    /// Takes the latest surface: `Ready` with a frame over it when one arrived
    /// since the last poll, else `Blocking`; the slot is left empty.
    fn frame(&mut self) -> (r: Frame<QuartzFrame>)
        ensures
            final(self).view_latest() is None,
            final(self).view_live() == old(self).view_live(),
            final(self).view_len() == old(self).view_len(),
            match old(self).view_latest() {
                Some(s) => r is Ready && r->Ready_0.view_surface() == s && r->Ready_0.view_len()
                    == old(self).view_len(),
                None => r is Blocking,
            },
    {
        self.poll()
    }
}

proof fn lemma_net_append(a: Seq<SurfaceOp>, b: Seq<SurfaceOp>, t: u64, c: Counter)
    ensures
        net(a + b, t, c) == net(a, t, c) + net(b, t, c),
    decreases b.len(),
{
    if b.len() == 0 {
        assert(a + b =~= a);
    } else {
        lemma_net_append(a, b.drop_last(), t, c);
        assert((a + b).drop_last() =~= a + b.drop_last());
    }
}

proof fn lemma_net_two(x: SurfaceOp, y: SurfaceOp, t: u64, c: Counter)
    ensures
        net(seq![x], t, c) == op_delta(x, t, c),
        net(seq![x, y], t, c) == op_delta(x, t, c) + op_delta(y, t, c),
{
    reveal_with_fuel(net, 3);
    assert(seq![x].drop_last() =~= Seq::<SurfaceOp>::empty());
    assert(seq![x, y].drop_last() =~= seq![x]);
    assert(net(Seq::<SurfaceOp>::empty(), t, c) == 0);
}

proof fn lemma_net_three(x: SurfaceOp, y: SurfaceOp, z: SurfaceOp, t: u64, c: Counter)
    ensures
        net(seq![x, y, z], t, c) == op_delta(x, t, c) + op_delta(y, t, c) + op_delta(z, t, c),
{
    lemma_net_two(x, y, t, c);
    assert(seq![x, y, z].drop_last() =~= seq![x, y]);
}

/// Over any run of completed frames, each surface's retain count changes by
/// what the backend holds of it afterwards less what it held before: every
/// replaced surface is released as often as it was retained, and no use count
/// or lock is touched.
pub proof fn lemma_deliveries_balance(latest: Option<u64>, ss: Seq<u64>, t: u64)
    ensures
        net(ops_after(latest, ss), t, Counter::Retains) == held(latest_after(latest, ss), t) - held(
            latest,
            t,
        ),
        net(ops_after(latest, ss), t, Counter::Uses) == 0,
        net(ops_after(latest, ss), t, Counter::Locks) == 0,
    decreases ss.len(),
{
    if ss.len() > 0 {
        let prev = latest_after(latest, ss.drop_last());
        let step = deliver_ops(prev, ss.last());
        lemma_deliveries_balance(latest, ss.drop_last(), t);
        lemma_net_append(ops_after(latest, ss.drop_last()), step, t, Counter::Retains);
        lemma_net_append(ops_after(latest, ss.drop_last()), step, t, Counter::Uses);
        lemma_net_append(ops_after(latest, ss.drop_last()), step, t, Counter::Locks);
        match prev {
            Some(d) => {
                lemma_net_two(SurfaceOp::Retain(ss.last()), SurfaceOp::Release(d), t, Counter::Retains);
                lemma_net_two(SurfaceOp::Retain(ss.last()), SurfaceOp::Release(d), t, Counter::Uses);
                lemma_net_two(SurfaceOp::Retain(ss.last()), SurfaceOp::Release(d), t, Counter::Locks);
            },
            None => {
                lemma_net_two(SurfaceOp::Retain(ss.last()), SurfaceOp::Retain(ss.last()), t, Counter::Retains);
                lemma_net_two(SurfaceOp::Retain(ss.last()), SurfaceOp::Retain(ss.last()), t, Counter::Uses);
                lemma_net_two(SurfaceOp::Retain(ss.last()), SurfaceOp::Retain(ss.last()), t, Counter::Locks);
            },
        }
    }
}

/// A frame's acquisition holds one use and one read lock on its surface, and
/// its release returns the use count and the lock count of every surface to
/// their values before the acquisition; the release also gives up the one
/// retain that the frame carried.
pub proof fn lemma_frame_balanced(s: u64, t: u64)
    ensures
        net(acquire_ops_of(s), s, Counter::Uses) == 1,
        net(acquire_ops_of(s), s, Counter::Locks) == 1,
        net(acquire_ops_of(s) + release_ops_of(s), t, Counter::Uses) == 0,
        net(acquire_ops_of(s) + release_ops_of(s), t, Counter::Locks) == 0,
        net(acquire_ops_of(s) + release_ops_of(s), t, Counter::Retains) == -held(Some(s), t),
{
    let a = acquire_ops_of(s);
    let r = release_ops_of(s);
    lemma_net_two(a[0], a[1], s, Counter::Uses);
    lemma_net_two(a[0], a[1], s, Counter::Locks);
    lemma_net_two(a[0], a[1], t, Counter::Uses);
    lemma_net_two(a[0], a[1], t, Counter::Locks);
    lemma_net_two(a[0], a[1], t, Counter::Retains);
    lemma_net_three(r[0], r[1], r[2], t, Counter::Uses);
    lemma_net_three(r[0], r[1], r[2], t, Counter::Locks);
    lemma_net_three(r[0], r[1], r[2], t, Counter::Retains);
    assert(a =~= seq![a[0], a[1]]);
    assert(r =~= seq![r[0], r[1], r[2]]);
    lemma_net_append(a, r, t, Counter::Uses);
    lemma_net_append(a, r, t, Counter::Locks);
    lemma_net_append(a, r, t, Counter::Retains);
}

/// Latest wins: after any number n > 0 of completed frames between two polls,
/// starting from an empty slot, the backend holds only the last, and once that
/// one is taken as a frame and the frame released, every surface's retain
/// count, use count and lock count is back where it started; the n - 1
/// replaced surfaces were released on the way.
pub proof fn lemma_latest_wins(ss: Seq<u64>, t: u64)
    requires
        ss.len() > 0,
    ensures
        latest_after(None, ss) == Some(ss.last()),
        t != ss.last() ==> net(ops_after(None, ss), t, Counter::Retains) == 0,
        net(ops_after(None, ss) + acquire_ops_of(ss.last()) + release_ops_of(ss.last()), t, Counter::Retains) == 0,
        net(ops_after(None, ss) + acquire_ops_of(ss.last()) + release_ops_of(ss.last()), t, Counter::Uses) == 0,
        net(ops_after(None, ss) + acquire_ops_of(ss.last()) + release_ops_of(ss.last()), t, Counter::Locks) == 0,
{
    let s = ss.last();
    let d = ops_after(None, ss);
    let f = acquire_ops_of(s) + release_ops_of(s);
    lemma_deliveries_balance(None, ss, t);
    lemma_frame_balanced(s, t);
    assert(d + acquire_ops_of(s) + release_ops_of(s) =~= d + f);
    lemma_net_append(d, f, t, Counter::Retains);
    lemma_net_append(d, f, t, Counter::Uses);
    lemma_net_append(d, f, t, Counter::Locks);
}

/// An open that fails releases each resource that it created exactly once,
/// the worker queue always and the stream when it was created, and never stops
/// a stream that did not start.
pub proof fn lemma_failed_open_releases_all(outcome: StreamOutcome)
    requires
        outcome != StreamOutcome::Started,
    ensures
        occurrences(open_cleanup_of(outcome), StreamOp::ReleaseQueue) == 1,
        occurrences(open_cleanup_of(outcome), StreamOp::ReleaseStream) == if outcome is StartFailed {
            1nat
        } else {
            0nat
        },
        occurrences(open_cleanup_of(outcome), StreamOp::StopStream) == 0,
{
    let ops = open_cleanup_of(outcome);
    reveal_with_fuel(occurrences, 3);
    if outcome is StartFailed {
        assert(ops.drop_last() =~= seq![StreamOp::ReleaseStream]);
        assert(ops.drop_last().drop_last() =~= Seq::<StreamOp>::empty());
    } else {
        assert(ops.drop_last() =~= Seq::<StreamOp>::empty());
    }
}

} // verus!
