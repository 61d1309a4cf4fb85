//! The capture orchestrator: binds one active capture backend (the
//! push-discipline window capture or the pull-discipline desktop
//! duplication engine) to the frame broadcast hub, owns the capture
//! lifecycle (bind / start / stop) and the aggregate metrics, and accounts
//! for the OS resource handles each binding holds.
//!
//! The OS delivers its part as events: the push callback hands in raw BGRA
//! buffers, the pull loop hands in acquire outcomes. Every decision taken
//! on those events is verified.

use vstd::prelude::*;

use crate::engine::{AcquireOutcome, DxgiDesktopDuplication, DxgiError};
use crate::frame::{CaptureSource, CapturedFrame, FrameFormat, FrameModel};
use crate::hub::{FrameBroadcastHub, HubSubscriber, RecvOutcome};
use crate::metrics::{CaptureMetrics, CaptureStats, sat_add};
use crate::pixels::{bgra_to_rgba, channel_swapped_seq};

verus! {

/// The binding state of the orchestrator, as a value: which target name is
/// bound and which backends currently hold OS resources.
#[verifier::ext_equal]
pub struct BindingModel {
    pub target: Option<Seq<char>>,
    pub push_active: bool,
    pub dxgi_active: bool,
}

impl BindingModel {
    /// How many OS resource handles the binding holds: one per active
    /// backend.
    pub open spec fn handles(self) -> int {
        (if self.push_active {
            1int
        } else {
            0int
        }) + (if self.dxgi_active {
            1int
        } else {
            0int
        })
    }
}

/// Stopping the capture: both backends release their OS resources
/// completely; the remembered target name is untouched.
pub open spec fn teardown(m: BindingModel) -> BindingModel {
    BindingModel { target: m.target, push_active: false, dxgi_active: false }
}

/// Binding a window target: the previous push backend is torn down first,
/// then a fresh push-discipline backend is constructed for the new target;
/// there is no update in place.
pub open spec fn bind_push(m: BindingModel, title: Seq<char>) -> BindingModel {
    BindingModel { target: Some(title), push_active: true, dxgi_active: m.dxgi_active }
}

/// Law: `set_target(A)` immediately followed by `set_target(B)` never
/// leaves the engine bound to A's resources: each bind is preceded by a
/// full teardown, so the resource-handle count returns to zero before B's
/// bind begins, and the end state is bound to B alone, holding exactly
/// B's one handle.
pub proof fn lemma_rebind_releases_previous(m0: BindingModel, a: Seq<char>, b: Seq<char>)
    ensures
        ({
            let after_a = bind_push(teardown(m0), a);
            let between = teardown(after_a);
            let after_b = bind_push(between, b);
            &&& between.handles() == 0
            &&& after_b.target == Some(b)
            &&& after_b.handles() == 1
        }),
{
}

/// What one pull-loop iteration decided.
#[derive(Debug)]
pub enum LoopAction {
    /// A frame was extracted and published.
    Published,
    /// Nothing new (empty acquire or timeout); poll again at the normal
    /// cadence, with no delay escalation.
    Idle,
    /// The frame was acquired but could not be extracted; it was dropped
    /// and counted, and the loop continues.
    Dropped,
    /// Access was lost: the session is unbound and must be initialized
    /// again before capturing; not a crash, and no frames are counted
    /// dropped for the recovery itself.
    Reinitialize,
    /// A non-recoverable capture error, surfaced once; the loop stops.
    Failed(DxgiError),
}

/// High-performance graphics capture service fanning frames out to
/// multiple consumers.
pub struct GraphicsCaptureService {
    hub: FrameBroadcastHub,
    current_window: Option<String>,
    push_active: bool,
    dxgi: Option<DxgiDesktopDuplication>,
    metrics: CaptureMetrics,
    os_resource_handles: u64,
}

impl GraphicsCaptureService {
    pub closed spec fn hub_history(self) -> Seq<FrameModel> {
        self.hub.history()
    }

    pub closed spec fn hub_subscribers(self) -> int {
        self.hub.spec_subscribers()
    }

    pub closed spec fn hub_published(self) -> int {
        self.hub.spec_published()
    }

    pub closed spec fn hub_capacity(self) -> int {
        self.hub.spec_capacity()
    }

    pub closed spec fn metrics(self) -> CaptureMetrics {
        self.metrics
    }

    pub closed spec fn binding(self) -> BindingModel {
        BindingModel {
            target: match self.current_window {
                Some(s) => Some(s@),
                None => None,
            },
            push_active: self.push_active,
            dxgi_active: match self.dxgi {
                Some(e) => e.spec_bound(),
                None => false,
            },
        }
    }

    /// The duplication engine exists (device and context are held) —
    /// distinct from its session being bound.
    pub closed spec fn dxgi_present(self) -> bool {
        self.dxgi is Some
    }

    /// Whether the duplication engine's frame extraction prefers the GPU
    /// path; meaningful while the engine exists.
    pub closed spec fn gpu_processing(self) -> bool {
        self.dxgi.unwrap().spec_gpu_processing()
    }

    pub closed spec fn wf(self) -> bool {
        &&& self.hub.wf()
        &&& !self.hub.is_closed()
        &&& self.os_resource_handles == self.binding().handles()
    }

    pub fn new() -> (r: Self)
        ensures
            r.wf(),
            r.hub_history() == Seq::<FrameModel>::empty(),
            r.hub_subscribers() == 0,
            r.hub_capacity() == crate::HUB_CAPACITY,
            r.metrics() == (CaptureMetrics {
                frames_captured: 0u64,
                frames_dropped: 0u64,
                total_capture_time_ms: 0u64,
                active_subscribers: 0u64,
            }),
            r.binding() == (BindingModel { target: None, push_active: false, dxgi_active: false }),
            !r.dxgi_present(),
    {
        GraphicsCaptureService {
            hub: FrameBroadcastHub::new(),
            current_window: None,
            push_active: false,
            dxgi: None,
            metrics: CaptureMetrics::new(),
            os_resource_handles: 0,
        }
    }

    /// Subscribe to frame updates: each subscriber gets an independent
    /// stream starting at the current end of the history.
    pub fn subscribe(&mut self) -> (sub: HubSubscriber)
        requires
            old(self).wf(),
            old(self).hub_subscribers() < u64::MAX,
        ensures
            final(self).wf(),
            sub.cursor == old(self).hub_published(),
            final(self).hub_history() == old(self).hub_history(),
            final(self).hub_published() == old(self).hub_published(),
            final(self).hub_subscribers() == old(self).hub_subscribers() + 1,
            final(self).hub_subscribers() >= 1,
            final(self).hub_capacity() == old(self).hub_capacity(),
            final(self).metrics() == old(self).metrics(),
            final(self).binding() == old(self).binding(),
            final(self).dxgi_present() == old(self).dxgi_present(),
    {
        self.hub.subscribe()
    }

    /// Retires a subscription handle.
    pub fn unsubscribe(&mut self, sub: HubSubscriber)
        requires
            old(self).wf(),
            old(self).hub_subscribers() >= 1,
        ensures
            final(self).wf(),
            final(self).hub_history() == old(self).hub_history(),
            final(self).hub_published() == old(self).hub_published(),
            final(self).hub_subscribers() == old(self).hub_subscribers() - 1,
            final(self).hub_capacity() == old(self).hub_capacity(),
            final(self).metrics() == old(self).metrics(),
            final(self).binding() == old(self).binding(),
            final(self).dxgi_present() == old(self).dxgi_present(),
    {
        self.hub.unsubscribe(sub)
    }

    /// One receive step on a subscription.
    pub fn recv(&self, sub: &mut HubSubscriber) -> (r: RecvOutcome)
        requires
            self.wf(),
            old(sub).cursor <= self.hub_published(),
        ensures
            final(sub).cursor <= self.hub_published(),
            old(sub).cursor <= final(sub).cursor,
            ({
                let h = self.hub_history();
                let start = crate::hub::hub_start(h.len() as int, self.hub_capacity());
                let c = old(sub).cursor as int;
                &&& (c == h.len() ==> (r matches RecvOutcome::Empty) && final(sub).cursor == old(
                    sub,
                ).cursor)
                &&& (c < start ==> (r matches RecvOutcome::Lagged(skip) && skip == start - c)
                    && final(sub).cursor == start)
                &&& (start <= c < h.len() ==> (r matches RecvOutcome::Frame(f) && f@ == h[c])
                    && final(sub).cursor == c + 1)
            }),
    {
        self.hub.recv(sub)
    }

    /// Starts push-discipline capture of the window named `window_title`.
    /// The unverified shell resolves the title against the OS and starts
    /// the capture session; `resolved` reports whether the window was
    /// found. On success the previous push binding is fully torn down
    /// first and the new target is bound; a window that is not found is
    /// surfaced to this caller only and changes nothing.
    pub fn start_window_capture(&mut self, window_title: &str, resolved: bool) -> (r: Result<
        (),
        String,
    >)
        requires
            old(self).wf(),
        ensures
            final(self).wf(),
            r.is_ok() == resolved,
            resolved ==> final(self).binding() == bind_push(old(self).binding(), window_title@),
            !resolved ==> final(self).binding() == old(self).binding(),
            final(self).hub_history() == old(self).hub_history(),
            final(self).hub_published() == old(self).hub_published(),
            final(self).hub_subscribers() == old(self).hub_subscribers(),
            final(self).hub_capacity() == old(self).hub_capacity(),
            final(self).metrics() == old(self).metrics(),
            resolved ==> final(self).dxgi_present() == old(self).dxgi_present(),
            !resolved ==> final(self).dxgi_present() == old(self).dxgi_present(),
    {
        if !resolved {
            proof {
                reveal_strlit("window not found");
            }
            return Err("window not found".to_owned());
        }
        if self.push_active {
            // Tear the previous backend's OS resources down completely
            // before constructing the new one; no update in place.
            self.push_active = false;
            self.os_resource_handles = self.os_resource_handles - 1;
        }
        self.current_window = Some(window_title.to_owned());
        self.push_active = true;
        self.os_resource_handles = self.os_resource_handles + 1;
        Ok(())
    }

    /// Activates the pull-discipline duplication engine. The unverified
    /// shell creates the session on the primary output and reports the
    /// outcome; on failure the engine is not retained and the error is
    /// surfaced once.
    pub fn start_dxgi_capture(&mut self, session: Result<(), DxgiError>) -> (r: Result<(), String>)
        requires
            old(self).wf(),
            !old(self).dxgi_present(),
        ensures
            final(self).wf(),
            r.is_ok() == session.is_ok(),
            session.is_ok() ==> final(self).binding() == (BindingModel {
                dxgi_active: true,
                ..old(self).binding()
            }) && final(self).dxgi_present() && final(self).gpu_processing(),
            session.is_err() ==> final(self).binding() == old(self).binding()
                && final(self).dxgi_present() == old(self).dxgi_present(),
            final(self).hub_history() == old(self).hub_history(),
            final(self).hub_published() == old(self).hub_published(),
            final(self).hub_subscribers() == old(self).hub_subscribers(),
            final(self).hub_capacity() == old(self).hub_capacity(),
            final(self).metrics() == old(self).metrics(),
    {
        let mut engine = DxgiDesktopDuplication::new();
        match engine.initialize_primary_output(session) {
            Ok(()) => {
                self.dxgi = Some(engine);
                self.os_resource_handles = self.os_resource_handles + 1;
                Ok(())
            },
            Err(_) => {
                proof {
                    reveal_strlit("failed to create the duplication session");
                }
                Err("failed to create the duplication session".to_owned())
            },
        }
    }

    /// Stops all capture: whichever backend is active is torn down and
    /// every OS resource handle is released. Later `subscribe` calls still
    /// succeed but receive nothing until a new bind or start.
    pub fn stop_capture(&mut self)
        requires
            old(self).wf(),
        ensures
            final(self).wf(),
            final(self).binding() == teardown(old(self).binding()),
            final(self).binding().handles() == 0,
            !final(self).dxgi_present(),
            final(self).hub_history() == old(self).hub_history(),
            final(self).hub_published() == old(self).hub_published(),
            final(self).hub_subscribers() == old(self).hub_subscribers(),
            final(self).hub_capacity() == old(self).hub_capacity(),
            final(self).metrics() == old(self).metrics(),
    {
        self.push_active = false;
        self.dxgi = None;
        self.os_resource_handles = 0;
    }

    /// The push-discipline capture callback: minimal synchronous work on
    /// the delivered BGRA buffer (format conversion only), then a
    /// non-blocking hand-off to the hub. With zero subscribers the publish
    /// still succeeds and the frame counts as neither captured-for-nothing
    /// nor dropped.
    pub fn deliver_frame(&mut self, data: &Vec<u8>, width: u32, height: u32, timestamp_ms: u64,
        elapsed_ms: u64)
        requires
            old(self).wf(),
            data@.len() == 4 * width * height,
            old(self).hub_published() < u64::MAX,
        ensures
            final(self).wf(),
            final(self).hub_history().len() == old(self).hub_history().len() + 1,
            final(self).hub_history().drop_last() == old(self).hub_history(),
            final(self).hub_published() == old(self).hub_published() + 1,
            ({
                let f = final(self).hub_history().last();
                &&& f.data == channel_swapped_seq(data@)
                &&& f.width == width
                &&& f.height == height
                &&& f.format == FrameFormat::Rgba8
                &&& f.timestamp_ms == timestamp_ms
                &&& f.source == CaptureSource::WindowsGraphicsCapture
            }),
            final(self).hub_subscribers() == old(self).hub_subscribers(),
            final(self).hub_capacity() == old(self).hub_capacity(),
            ({
                let m0 = old(self).metrics();
                let m1 = final(self).metrics();
                &&& m1.active_subscribers == old(self).hub_subscribers()
                &&& (old(self).hub_subscribers() > 0 ==> m1.frames_captured == sat_add(
                    m0.frames_captured,
                    1,
                ) && m1.total_capture_time_ms == sat_add(m0.total_capture_time_ms, elapsed_ms))
                &&& (old(self).hub_subscribers() == 0 ==> m1.frames_captured
                    == m0.frames_captured && m1.total_capture_time_ms
                    == m0.total_capture_time_ms)
                &&& m1.frames_dropped == m0.frames_dropped
            }),
            final(self).binding() == old(self).binding(),
            final(self).dxgi_present() == old(self).dxgi_present(),
    {
        proof {
            let k = (width as int) * (height as int);
            assert(data@.len() == k * 4) by (nonlinear_arith)
                requires
                    data@.len() == 4 * (width as int) * (height as int),
                    k == (width as int) * (height as int),
            ;
            vstd::arithmetic::div_mod::lemma_mod_multiples_basic(k, 4);
        }
        let rgba = bgra_to_rgba(data);
        let frame = CapturedFrame {
            data: rgba,
            width,
            height,
            format: FrameFormat::Rgba8,
            timestamp_ms,
            source: CaptureSource::WindowsGraphicsCapture,
        };
        let subscriber_count = self.hub.subscriber_count();
        self.metrics.set_active_subscribers(subscriber_count);
        self.hub.publish(frame);
        proof {
            assert(self.hub.history().drop_last() =~= old(self).hub_history());
        }
        if subscriber_count > 0 {
            self.metrics.record_captured(elapsed_ms);
        }
    }

    /// One iteration of the pull-discipline capture loop, deciding on the
    /// acquire outcome the unverified shell observed. A timeout or an
    /// empty acquire is idle, not an error. On `AccessLost` the engine is
    /// unbound and the loop reinitializes and continues; the recovery
    /// itself drops no frames, touches no counter, and never disturbs the
    /// hub or its subscribers. Only an extraction failure counts one
    /// dropped frame; any other capture error stops the loop and is
    /// surfaced once.
    pub fn dxgi_loop_step(&mut self, acquired: AcquireOutcome, elapsed_ms: u64) -> (r: LoopAction)
        requires
            old(self).wf(),
            old(self).dxgi_present(),
            old(self).binding().dxgi_active,
            old(self).hub_published() < u64::MAX,
            (acquired matches AcquireOutcome::Frame(t) ==> t.wf()),
        ensures
            final(self).wf(),
            final(self).hub_subscribers() == old(self).hub_subscribers(),
            final(self).hub_capacity() == old(self).hub_capacity(),
            (r matches LoopAction::Published ==> final(self).hub_published() == old(
                self,
            ).hub_published() + 1),
            (!(r matches LoopAction::Published) ==> final(self).hub_published() == old(
                self,
            ).hub_published()),
            final(self).dxgi_present(),
            ({
                let m0 = old(self).metrics();
                let m1 = final(self).metrics();
                let h0 = old(self).hub_history();
                let h1 = final(self).hub_history();
                match r {
                    LoopAction::Published => {
                        &&& h1.len() == h0.len() + 1
                        &&& h1.drop_last() == h0
                        &&& h1.last().format == FrameFormat::Bgra8
                        &&& h1.last().source == CaptureSource::DxgiDesktopDuplication
                        &&& (acquired matches AcquireOutcome::Frame(t) && t.map_ok
                            && h1.last().width == t.width && h1.last().height == t.height)
                        &&& m1.frames_dropped == m0.frames_dropped
                        &&& (old(self).hub_subscribers() > 0 ==> m1.frames_captured == sat_add(
                            m0.frames_captured,
                            1,
                        ))
                        &&& (old(self).hub_subscribers() == 0 ==> m1.frames_captured
                            == m0.frames_captured)
                    },
                    LoopAction::Idle => {
                        &&& h1 == h0
                        &&& m1 == (CaptureMetrics {
                            active_subscribers: m1.active_subscribers,
                            ..m0
                        })
                        &&& (acquired matches AcquireOutcome::NoFrame
                            || acquired matches AcquireOutcome::TimedOut)
                    },
                    LoopAction::Dropped => {
                        &&& h1 == h0
                        &&& m1.frames_dropped == sat_add(m0.frames_dropped, 1)
                        &&& m1.frames_captured == m0.frames_captured
                        &&& (acquired matches AcquireOutcome::Frame(t) && !t.map_ok)
                    },
                    LoopAction::Reinitialize => {
                        &&& h1 == h0
                        &&& m1 == m0
                        &&& acquired matches AcquireOutcome::AccessLost
                        &&& final(self).binding().dxgi_active == false
                    },
                    LoopAction::Failed(_) => {
                        &&& h1 == h0
                        &&& m1 == m0
                        &&& (acquired matches AcquireOutcome::InvalidCall
                            || acquired matches AcquireOutcome::Failed(..))
                    },
                }
            }),
    {
        let mut engine = self.dxgi.take().unwrap();
        let step = engine.capture_frame(acquired);
        self.dxgi = Some(engine);
        match step {
            Ok(Some(texture)) => {
                match self.dxgi.as_ref().unwrap().extract_frame_data(&texture) {
                    Ok(processed) => {
                        let frame = CapturedFrame {
                            data: processed.data,
                            width: processed.width,
                            height: processed.height,
                            format: FrameFormat::Bgra8,
                            timestamp_ms: processed.timestamp_ms,
                            source: CaptureSource::DxgiDesktopDuplication,
                        };
                        let subscriber_count = self.hub.subscriber_count();
                        self.metrics.set_active_subscribers(subscriber_count);
                        self.hub.publish(frame);
                        proof {
                            assert(self.hub.history().drop_last() =~= old(self).hub_history());
                        }
                        if subscriber_count > 0 {
                            self.metrics.record_captured(elapsed_ms);
                        }
                        LoopAction::Published
                    },
                    Err(_) => {
                        self.metrics.record_dropped(1);
                        LoopAction::Dropped
                    },
                }
            },
            Ok(None) => LoopAction::Idle,
            Err(e) => match e {
                DxgiError::AccessLost => {
                    // The invalidated session no longer holds its OS handle.
                    self.os_resource_handles = self.os_resource_handles - 1;
                    LoopAction::Reinitialize
                },
                other => LoopAction::Failed(other),
            },
        }
    }

    /// Rebinds the duplication session after access loss, completing the
    /// recovery: on success capture continues where it left off, with the
    /// hub, its subscribers and every counter exactly as before the loss.
    pub fn reinitialize_dxgi(&mut self, session: Result<(), DxgiError>) -> (r: Result<(), DxgiError>)
        requires
            old(self).wf(),
            old(self).dxgi_present(),
        ensures
            final(self).wf(),
            r.is_ok() == session.is_ok(),
            final(self).dxgi_present(),
            final(self).binding() == (BindingModel {
                dxgi_active: session.is_ok(),
                ..old(self).binding()
            }),
            final(self).hub_history() == old(self).hub_history(),
            final(self).hub_published() == old(self).hub_published(),
            final(self).hub_subscribers() == old(self).hub_subscribers(),
            final(self).hub_capacity() == old(self).hub_capacity(),
            final(self).metrics() == old(self).metrics(),
    {
        let was_active = self.dxgi.as_ref().unwrap().is_active();
        let mut engine = self.dxgi.take().unwrap();
        let r = engine.initialize_primary_output(session);
        let now_active = engine.is_active();
        self.dxgi = Some(engine);
        if was_active && !now_active {
            self.os_resource_handles = self.os_resource_handles - 1;
        }
        if !was_active && now_active {
            self.os_resource_handles = self.os_resource_handles + 1;
        }
        r
    }

    /// Performance counters, as a structured snapshot.
    pub fn get_metrics(&self) -> (r: CaptureStats)
        ensures
            r.frames_captured == self.metrics().frames_captured,
            r.frames_dropped == self.metrics().frames_dropped,
            r.total_capture_time_ms == self.metrics().total_capture_time_ms,
            r.active_subscribers == self.metrics().active_subscribers,
    {
        self.metrics.get_stats()
    }

    /// Whether any backend is actively capturing.
    pub fn is_capturing(&self) -> (r: bool)
        ensures
            r == (self.binding().push_active || self.dxgi_present()),
    {
        self.push_active || self.dxgi.is_some()
    }

    /// The OS resource handles currently held; zero when nothing is bound.
    pub fn resource_handles(&self) -> (r: u64)
        requires
            self.wf(),
        ensures
            r == self.binding().handles(),
    {
        self.os_resource_handles
    }

    /// Configures GPU processing for the duplication engine's extraction:
    /// with an engine present its GPU flag becomes exactly `enabled`;
    /// without one there is nothing to configure and nothing changes.
    /// The hub, its subscribers, the binding and every counter are never
    /// touched.
    pub fn set_gpu_processing(&mut self, enabled: bool)
        requires
            old(self).wf(),
        ensures
            final(self).wf(),
            old(self).dxgi_present() ==> final(self).gpu_processing() == enabled,
            !old(self).dxgi_present() ==> *final(self) == *old(self),
            final(self).hub_history() == old(self).hub_history(),
            final(self).hub_published() == old(self).hub_published(),
            final(self).hub_subscribers() == old(self).hub_subscribers(),
            final(self).hub_capacity() == old(self).hub_capacity(),
            final(self).metrics() == old(self).metrics(),
            final(self).binding() == old(self).binding(),
            final(self).dxgi_present() == old(self).dxgi_present(),
    {
        if self.dxgi.is_some() {
            let mut engine = self.dxgi.take().unwrap();
            engine.set_gpu_processing(enabled);
            self.dxgi = Some(engine);
        }
    }
}

} // verus!
