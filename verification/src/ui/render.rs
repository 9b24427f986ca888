//! Paint scheduling: the dirty flag that says the active tab has a new
//! frame, the coalescing of wake-ups, the heartbeat that pumps the engine,
//! and the bookkeeping of the frame handed to the window.
use vstd::prelude::*;

verus! {

/// Whether the active web view has a frame that has not been painted yet.
/// A fresh flag is set, so the first heartbeat paints.
pub struct ActiveDirty {
    dirty: bool,
}

impl View for ActiveDirty {
    type V = bool;

    closed spec fn view(&self) -> bool {
        self.dirty
    }
}

impl ActiveDirty {
    /// A set flag.
    pub fn new() -> (flag: Self)
        ensures
            flag@,
    {
        ActiveDirty { dirty: true }
    }
}

/// Sets or clears the flag.
pub fn set_active_dirty(flag: &mut ActiveDirty, dirty: bool)
    ensures
        final(flag)@ == dirty,
{
    flag.dirty = dirty;
}

/// Reads and clears the flag.
pub fn take_active_dirty(flag: &mut ActiveDirty) -> (was_dirty: bool)
    ensures
        was_dirty == old(flag)@,
        !final(flag)@,
{
    let was = flag.dirty;
    flag.dirty = false;
    was
}

/// The paint callback's decision: paint only when there is an active web
/// view and it has an unpainted frame. The flag is taken either way, so a
/// frame flagged while no web view was active is not painted later.
pub fn take_paint_request(flag: &mut ActiveDirty, has_active_webview: bool) -> (paint: bool)
    ensures
        paint == (has_active_webview && old(flag)@),
        !final(flag)@,
{
    let was_dirty = take_active_dirty(flag);
    has_active_webview && was_dirty
}

/// Coalesces wake-up requests: while one is pending, further requests are
/// not scheduled again.
pub struct SlintWaker {
    is_woken: bool,
}

impl View for SlintWaker {
    type V = bool;

    /// Whether a wake-up is pending.
    closed spec fn view(&self) -> bool {
        self.is_woken
    }
}

impl SlintWaker {
    /// No wake-up pending.
    pub fn new() -> (waker: Self)
        ensures
            !waker@,
    {
        SlintWaker { is_woken: false }
    }

    /// A wake-up request: returns whether a new wake-up has to be scheduled
    /// (none was pending); afterwards one is pending.
    pub fn wake(&mut self) -> (schedule: bool)
        ensures
            schedule == !old(self)@,
            final(self)@,
    {
        let was = self.is_woken;
        self.is_woken = true;
        !was
    }

    /// The scheduled wake-up runs: later requests schedule again.
    pub fn woken(&mut self)
        ensures
            !final(self)@,
    {
        self.is_woken = false;
    }
}

/// Runs the engine pump callback, if one is registered.
pub fn trigger_pump<F: Fn()>(trigger: &Option<F>)
    requires
        trigger matches Some(f) ==> call_requires(f, ()),
{
    match trigger {
        Some(f) => f(),
        None => {},
    }
}

/// Runs the paint callback, if one is registered, and returns whether it
/// painted; without a callback nothing is painted.
pub fn trigger_paint<F: Fn() -> bool>(trigger: &Option<F>) -> (painted: bool)
    requires
        trigger matches Some(f) ==> call_requires(f, ()),
    ensures
        trigger is None ==> !painted,
        trigger matches Some(f) ==> call_ensures(f, (), painted),
{
    match trigger {
        Some(f) => f(),
        None => false,
    }
}

/// Heartbeat ticks without a paint after which the heartbeat slows down.
pub const IDLE_THRESHOLD: u32 = 20;

/// In slow mode, work is done on one tick out of this many.
pub const SLOW_DIVISOR: u32 = 8;

/// The heartbeat's counters.
pub struct HeartbeatState {
    pub idle_ticks: u32,
    pub slow_skip: u32,
}

/// One tick: the next counters, and whether this tick pumps and paints.
pub open spec fn tick_step(s: HeartbeatState) -> (HeartbeatState, bool) {
    if s.idle_ticks >= IDLE_THRESHOLD {
        let skip = if s.slow_skip + 1 > u32::MAX {
            u32::MAX
        } else {
            (s.slow_skip + 1) as u32
        };
        if skip < SLOW_DIVISOR {
            (HeartbeatState { idle_ticks: s.idle_ticks, slow_skip: skip }, false)
        } else {
            (HeartbeatState { idle_ticks: s.idle_ticks, slow_skip: 0 }, true)
        }
    } else {
        (s, true)
    }
}

/// The counters after a working tick that did or did not paint.
pub open spec fn paint_step(s: HeartbeatState, painted: bool) -> HeartbeatState {
    if painted {
        HeartbeatState { idle_ticks: 0, slow_skip: 0 }
    } else {
        HeartbeatState {
            idle_ticks: if s.idle_ticks + 1 > u32::MAX {
                u32::MAX
            } else {
                (s.idle_ticks + 1) as u32
            },
            slow_skip: s.slow_skip,
        }
    }
}

/// The adaptive heartbeat: it works on every tick while pages paint, and
/// after `IDLE_THRESHOLD` working ticks without a paint only on one tick in
/// `SLOW_DIVISOR`, until a paint brings it back.
pub struct Heartbeat {
    idle_ticks: u32,
    slow_skip: u32,
}

impl View for Heartbeat {
    type V = HeartbeatState;

    closed spec fn view(&self) -> HeartbeatState {
        HeartbeatState { idle_ticks: self.idle_ticks, slow_skip: self.slow_skip }
    }
}

impl Heartbeat {
    /// A heartbeat in fast mode.
    pub fn new() -> (h: Self)
        ensures
            h@ == (HeartbeatState { idle_ticks: 0, slow_skip: 0 }),
    {
        Heartbeat { idle_ticks: 0, slow_skip: 0 }
    }

    /// A timer tick: returns whether to pump the engine and paint now.
    pub fn tick(&mut self) -> (work: bool)
        ensures
            (final(self)@, work) == tick_step(old(self)@),
    {
        if self.idle_ticks >= IDLE_THRESHOLD {
            self.slow_skip = self.slow_skip.saturating_add(1);
            if self.slow_skip < SLOW_DIVISOR {
                return false;
            }
            self.slow_skip = 0;
        }
        true
    }

    /// Records whether the work of a tick painted.
    pub fn record_paint(&mut self, painted: bool)
        ensures
            final(self)@ == paint_step(old(self)@, painted),
    {
        if painted {
            self.idle_ticks = 0;
            self.slow_skip = 0;
        } else {
            self.idle_ticks = self.idle_ticks.saturating_add(1);
        }
    }
}

/// Below the idle threshold every tick works.
pub proof fn lemma_fast_mode_always_works(s: HeartbeatState)
    requires
        s.idle_ticks < IDLE_THRESHOLD,
    ensures
        tick_step(s).1,
        tick_step(s).0 == s,
{
}

/// A paint puts the heartbeat back in fast mode: the next tick works.
pub proof fn lemma_paint_restores_fast_mode(s: HeartbeatState)
    ensures
        tick_step(paint_step(s, true)).1,
{
}

/// In slow mode, starting from a fresh skip count, the first seven ticks
/// do nothing and the eighth works and restarts the count.
pub proof fn lemma_slow_mode_works_every_eighth_tick(s: HeartbeatState)
    requires
        s.idle_ticks >= IDLE_THRESHOLD,
        s.slow_skip == 0,
    ensures
        ({
            let t1 = tick_step(s);
            let t2 = tick_step(t1.0);
            let t3 = tick_step(t2.0);
            let t4 = tick_step(t3.0);
            let t5 = tick_step(t4.0);
            let t6 = tick_step(t5.0);
            let t7 = tick_step(t6.0);
            let t8 = tick_step(t7.0);
            &&& !t1.1 && !t2.1 && !t3.1 && !t4.1 && !t5.1 && !t6.1 && !t7.1
            &&& t8.1
            &&& t8.0 == s
        }),
{
}

/// `IDLE_THRESHOLD` working ticks in a row without a paint, from a fresh
/// start, put the heartbeat in slow mode.
pub proof fn lemma_idle_ticks_enter_slow_mode(s: HeartbeatState, n: nat)
    requires
        s.idle_ticks == 0,
        n <= IDLE_THRESHOLD,
    ensures
        idle_run(s, n).idle_ticks == n,
        n == IDLE_THRESHOLD ==> !tick_step(
            HeartbeatState { idle_ticks: idle_run(s, n).idle_ticks, slow_skip: 0 },
        ).1,
    decreases n,
{
    if n > 0 {
        lemma_idle_ticks_enter_slow_mode(s, (n - 1) as nat);
    }
}

/// The counters after `n` working ticks that painted nothing.
pub open spec fn idle_run(s: HeartbeatState, n: nat) -> HeartbeatState
    decreases n,
{
    if n == 0 {
        s
    } else {
        paint_step(tick_step(idle_run(s, (n - 1) as nat)).0, false)
    }
}

/// Number of render targets the engine's rendering context rotates
/// through.
pub const BUFFER_COUNT: usize = 2;

/// Double buffering of the engine's render targets: the engine renders into
/// one while the window samples the most recently presented one.
pub struct BufferRing {
    render_index: usize,
    front_index: usize,
}

impl BufferRing {
    /// Both indices always name one of the `BUFFER_COUNT` targets.
    #[verifier::type_invariant]
    spec fn indices_in_range(self) -> bool {
        self.render_index < BUFFER_COUNT && self.front_index < BUFFER_COUNT
    }

    /// The target the next frame is rendered into.
    pub closed spec fn render(self) -> usize {
        self.render_index
    }

    /// The target the window samples.
    pub closed spec fn front(self) -> usize {
        self.front_index
    }

    /// Both indices at the first target (also the state after a resize).
    pub fn new() -> (ring: Self)
        ensures
            ring.render() == 0,
            ring.front() == 0,
    {
        BufferRing { render_index: 0, front_index: 0 }
    }

    /// The target the next frame is rendered into.
    pub fn render_index(&self) -> (i: usize)
        ensures
            i == self.render(),
            i < BUFFER_COUNT,
    {
        proof {
            use_type_invariant(self);
        }
        self.render_index
    }

    /// The target the window samples.
    pub fn front_index(&self) -> (i: usize)
        ensures
            i == self.front(),
            i < BUFFER_COUNT,
    {
        proof {
            use_type_invariant(self);
        }
        self.front_index
    }

    /// A frame was rendered and finished: it becomes the front, and the
    /// next frame goes to the other target.
    pub fn present(&mut self)
        ensures
            final(self).front() == old(self).render(),
            final(self).render() == (old(self).render() + 1) % (BUFFER_COUNT as int),
            final(self).render() != final(self).front(),
            final(self).render() < BUFFER_COUNT,
    {
        proof {
            use_type_invariant(&*self);
        }
        let rendered = self.render_index;
        *self = BufferRing { render_index: (rendered + 1) % BUFFER_COUNT, front_index: rendered };
    }
}

/// What to do with the window after a paint.
pub enum FramePlan {
    /// Hand the window a new frame borrowing this GL texture.
    Publish { texture_id: u32, width: u32, height: u32 },
    /// The frame already shown is current; ask the window to redraw it.
    RequestRedraw,
    /// A redraw is already pending.
    Nothing,
}

/// What the bridge between the engine's shared surface and the window's
/// texture knows. Surfaces are identified by opaque handles.
pub struct FrameBridge {
    /// The surface the active tab presents.
    pub iosurface: Option<u64>,
    /// The surface the window's texture is bound to.
    pub bound_iosurface: Option<u64>,
    pub width: u32,
    pub height: u32,
    pub needs_bind: bool,
    pub frame_published: bool,
    pub published_width: u32,
    pub published_height: u32,
    pub published_texture_id: u32,
    pub redraw_pending: bool,
    /// The window-side texture frames are published from (0: none yet).
    pub texture_2d_id: u32,
}

/// Whether a paint has to hand the window a new frame: nothing was
/// published yet, or the size, the texture or the surface changed.
pub open spec fn must_publish(b: FrameBridge) -> bool {
    ||| !b.frame_published
    ||| b.published_width != b.width
    ||| b.published_height != b.height
    ||| b.published_texture_id != b.texture_2d_id
    ||| b.bound_iosurface != b.iosurface
}

impl FrameBridge {
    /// Nothing known yet.
    pub fn new() -> (b: Self)
        ensures
            b.iosurface is None && b.bound_iosurface is None,
            b.width == 0 && b.height == 0,
            !b.needs_bind && !b.frame_published && !b.redraw_pending,
            b.published_width == 0 && b.published_height == 0 && b.published_texture_id == 0,
            b.texture_2d_id == 0,
    {
        FrameBridge {
            iosurface: None,
            bound_iosurface: None,
            width: 0,
            height: 0,
            needs_bind: false,
            frame_published: false,
            published_width: 0,
            published_height: 0,
            published_texture_id: 0,
            redraw_pending: false,
            texture_2d_id: 0,
        }
    }

    /// The window is about to render: any redraw asked for has been taken
    /// up.
    pub fn begin_rendering(&mut self)
        ensures
            *final(self) == (FrameBridge { redraw_pending: false, ..*old(self) }),
    {
        self.redraw_pending = false;
    }

    /// The active tab's live surface and size, read before rendering. When
    /// they differ from what the bridge holds, the old binding refers to a
    /// surface that may be gone: forget it and bind again.
    pub fn observe_live(&mut self, live: Option<u64>, width: u32, height: u32)
        ensures
            (old(self).iosurface != live || old(self).width != width || old(self).height != height)
                ==> *final(self) == (FrameBridge {
                iosurface: live,
                width,
                height,
                bound_iosurface: None,
                needs_bind: true,
                ..*old(self)
            }),
            !(old(self).iosurface != live || old(self).width != width || old(self).height
                != height) ==> *final(self) == *old(self),
    {
        if self.iosurface != live || self.width != width || self.height != height {
            self.iosurface = live;
            self.width = width;
            self.height = height;
            self.bound_iosurface = None;
            self.needs_bind = true;
        }
    }

    /// The window's texture now shows `iosurface`.
    pub fn mark_bound(&mut self, iosurface: u64)
        ensures
            *final(self) == (FrameBridge { bound_iosurface: Some(iosurface), ..*old(self) }),
    {
        self.bound_iosurface = Some(iosurface);
    }

    /// A bind pass finished (or had nothing to bind).
    pub fn bind_done(&mut self)
        ensures
            *final(self) == (FrameBridge { needs_bind: false, ..*old(self) }),
    {
        self.needs_bind = false;
    }

    /// The window-side texture was created.
    pub fn set_texture_2d_id(&mut self, id: u32)
        ensures
            *final(self) == (FrameBridge { texture_2d_id: id, ..*old(self) }),
    {
        self.texture_2d_id = id;
    }

    /// The window asked for a redraw.
    pub fn redraw_requested(&mut self)
        ensures
            *final(self) == (FrameBridge { redraw_pending: true, ..*old(self) }),
    {
        self.redraw_pending = true;
    }

    /// The GL objects were torn down: nothing is bound or published.
    pub fn teardown(&mut self)
        ensures
            *final(self) == (FrameBridge {
                bound_iosurface: None,
                frame_published: false,
                published_width: 0,
                published_height: 0,
                texture_2d_id: 0,
                ..*old(self)
            }),
    {
        self.bound_iosurface = None;
        self.frame_published = false;
        self.published_width = 0;
        self.published_height = 0;
        self.texture_2d_id = 0;
    }

    /// After the engine painted the active tab into `iosurface` at the
    /// given size: what to do with the window. A publish is recorded as
    /// done, with a redraw pending.
    pub fn plan_frame(&mut self, iosurface: Option<u64>, width: u32, height: u32) -> (plan: FramePlan)
        ensures
            ({
                let s = FrameBridge {
                    iosurface,
                    width,
                    height,
                    needs_bind: true,
                    ..*old(self)
                };
                if must_publish(s) && iosurface is Some && s.texture_2d_id != 0 && width > 0
                    && height > 0 {
                    &&& plan == (FramePlan::Publish { texture_id: s.texture_2d_id, width, height })
                    &&& *final(self) == (FrameBridge {
                        frame_published: true,
                        published_width: width,
                        published_height: height,
                        published_texture_id: s.texture_2d_id,
                        redraw_pending: true,
                        ..s
                    })
                } else {
                    &&& *final(self) == s
                    &&& plan == if !s.redraw_pending {
                        FramePlan::RequestRedraw
                    } else {
                        FramePlan::Nothing
                    }
                }
            }),
            old(self).texture_2d_id != 0 && iosurface is Some && width > 0 && height > 0 && (
            old(self).published_width != width || old(self).published_height != height)
                ==> plan == (FramePlan::Publish {
                texture_id: old(self).texture_2d_id,
                width,
                height,
            }),
    {
        self.iosurface = iosurface;
        self.width = width;
        self.height = height;
        self.needs_bind = true;
        let publish = !self.frame_published || self.published_width != self.width
            || self.published_height != self.height || self.published_texture_id
            != self.texture_2d_id || self.bound_iosurface != iosurface;
        if publish && iosurface.is_some() && self.texture_2d_id != 0 && width > 0 && height > 0 {
            self.frame_published = true;
            self.published_width = width;
            self.published_height = height;
            self.published_texture_id = self.texture_2d_id;
            self.redraw_pending = true;
            FramePlan::Publish { texture_id: self.texture_2d_id, width, height }
        } else if !self.redraw_pending {
            FramePlan::RequestRedraw
        } else {
            FramePlan::Nothing
        }
    }
}

/// Once a frame is published and the window's texture is bound to the same
/// surface, painting again with the same surface, size and texture does not
/// publish a new frame: the window only redraws.
pub proof fn lemma_unchanged_frame_not_republished(b: FrameBridge, iosurface: u64, width: u32, height: u32)
    requires
        b.frame_published,
        b.published_width == width,
        b.published_height == height,
        b.published_texture_id == b.texture_2d_id,
        b.bound_iosurface == Some(iosurface),
    ensures
        !must_publish(
            FrameBridge { iosurface: Some(iosurface), width, height, needs_bind: true, ..b },
        ),
{
}

/// A paint that changes what the window would show publishes a new frame:
/// when the bridge has a window texture and the painted surface has a
/// non-empty size, a painted width or height other than the published one,
/// a texture other than the published one, a surface other than the bound
/// one, or no frame published yet, each forces a publish.
pub proof fn lemma_changed_frame_is_published(b: FrameBridge, iosurface: u64, width: u32, height: u32)
    requires
        b.texture_2d_id != 0,
        width > 0,
        height > 0,
        !b.frame_published || b.published_width != width || b.published_height != height
            || b.published_texture_id != b.texture_2d_id || b.bound_iosurface != Some(iosurface),
    ensures
        must_publish(
            FrameBridge { iosurface: Some(iosurface), width, height, needs_bind: true, ..b },
        ),
{
}

} // verus!
