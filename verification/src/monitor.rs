//! The per-monitor encoding actor: a single-writer state machine that takes
//! raw frames and reconfigurations through a command queue, decides per
//! frame whether encoding work is needed at all and whether a keyframe must
//! be forced, and republishes encoder output and side-channel state to
//! independent consumers.

use vstd::prelude::*;

use crate::cell::LatestCell;
use crate::cursor::{
    assoc_find, bgra_to_rgba as bgra_to_rgba_pixels, checksum as checksum_bytes, crc32_of,
    no_dup_keys, png_of, remove_key, spec_bgra_to_rgba, CursorCache, CursorError, CursorImage, CursorImageView, CursorPosition,
};
use crate::hub::SampleHub;
use crate::utils::{Sample, SampleView};

verus! {

/// The negotiated target geometry of one monitor.
#[derive(Clone, Copy, Debug, PartialEq, Eq, Structural)]
pub struct MonitorConfig {
    pub width: u32,
    pub height: u32,
    pub framerate: u32,
}

/// Opaque out-of-band decoder configuration: the parameter blobs a decoder
/// needs before the first sample (for H.264, the SPS and PPS).
pub struct CodecParameters {
    pub params: Vec<Vec<u8>>,
}

impl View for CodecParameters {
    type V = Seq<Seq<u8>>;

    open spec fn view(&self) -> Seq<Seq<u8>> {
        self.params@.map_values(|b: Vec<u8>| b@)
    }
}

/// Copies a blob list; the copy carries the same bytes.
pub fn clone_blobs(v: &Vec<Vec<u8>>) -> (r: Vec<Vec<u8>>)
    ensures
        r@.map_values(|b: Vec<u8>| b@) == v@.map_values(|b: Vec<u8>| b@),
{
    let mut out: Vec<Vec<u8>> = Vec::new();
    let mut i: usize = 0;
    while i < v.len()
        invariant
            i <= v@.len(),
            out@.map_values(|b: Vec<u8>| b@) == v@.map_values(|b: Vec<u8>| b@).take(i as int),
        decreases v@.len() - i,
    {
        let ghost prev = out@;
        let b = v[i].clone();
        proof {
            assert(b@ =~= v@[i as int]@);
        }
        out.push(b);
        proof {
            prev.lemma_push_map_commute(|b: Vec<u8>| b@, b);
            assert(out@.map_values(|b: Vec<u8>| b@) =~= v@.map_values(|b: Vec<u8>| b@).take(
                i as int + 1,
            ));
        }
        i = i + 1;
    }
    proof {
        assert(v@.map_values(|b: Vec<u8>| b@).take(v@.len() as int) =~= v@.map_values(
            |b: Vec<u8>| b@,
        ));
    }
    out
}

impl Clone for CodecParameters {
    fn clone(&self) -> (c: CodecParameters)
        ensures
            c@ == self@,
    {
        CodecParameters { params: clone_blobs(&self.params) }
    }
}

/// One command for the encoding worker.
#[derive(Clone, Copy, Debug, PartialEq, Eq, Structural)]
pub enum EncodingCommand {
    /// A fresh frame is staged in the raw-frame buffer.
    NewFrame { timestamp_ms: u64 },
    /// The source geometry changed.
    Configure { config: MonitorConfig },
}

/// Why a frame cycle did no encoding work.
#[derive(Clone, Copy, Debug, PartialEq, Eq, Structural)]
pub enum SkipReason {
    /// No configuration has been applied yet, so there is no encoder.
    NotConfigured,
    /// Nobody is watching: encoding is skipped entirely.
    NoViewers,
    /// The staged frame does not match the configured geometry.
    BadFrameSize,
}

/// What the worker decided for one command.
#[derive(Clone, Copy, Debug, PartialEq, Eq, Structural)]
pub enum WorkerAction {
    /// The queue was empty.
    Idle,
    /// Reconfiguration with unchanged parameters: a no-op.
    ConfigUnchanged { config: MonitorConfig },
    /// Drain the encoder, apply this geometry, then publish the resulting
    /// codec parameters.
    Reconfigure { config: MonitorConfig },
    /// This frame cycle is skipped.
    Skip { reason: SkipReason, timestamp_ms: u64 },
    /// Convert the staged frame and encode it, forcing a keyframe when a
    /// viewer joined since the previous cycle.
    Encode { timestamp_ms: u64, force_keyframe: bool, config: MonitorConfig, duration_us: u64 },
}

/// The per-frame presentation duration for a framerate, in microseconds; a
/// framerate of zero falls back to one frame per second.
pub open spec fn spec_duration_us(framerate: u32) -> u64 {
    if framerate == 0 {
        1000000u64
    } else {
        (1000000u64 / framerate as u64) as u64
    }
}

/// What a `Configure` command does to a worker whose applied configuration
/// is `applied`: an unchanged configuration is ignored, anything else is
/// applied.
pub open spec fn spec_configure_decision(applied: Option<MonitorConfig>, config: MonitorConfig)
    -> WorkerAction {
    if applied == Some(config) {
        WorkerAction::ConfigUnchanged { config }
    } else {
        WorkerAction::Reconfigure { config }
    }
}

/// What a `NewFrame` command does to the worker: skip without an encoder,
/// skip when nobody watches, skip a mis-sized frame, else encode — forcing
/// a keyframe exactly when the viewer count increased since the previous
/// cycle.
pub open spec fn spec_frame_decision(
    applied: Option<MonitorConfig>,
    viewers: usize,
    last_viewers: usize,
    frame_len: nat,
    timestamp_ms: u64,
    duration_us: u64,
) -> WorkerAction {
    match applied {
        None => WorkerAction::Skip { reason: SkipReason::NotConfigured, timestamp_ms },
        Some(config) => {
            if viewers == 0 {
                WorkerAction::Skip { reason: SkipReason::NoViewers, timestamp_ms }
            } else if frame_len != 4 * config.width * config.height {
                WorkerAction::Skip { reason: SkipReason::BadFrameSize, timestamp_ms }
            } else {
                WorkerAction::Encode {
                    timestamp_ms,
                    force_keyframe: viewers > last_viewers,
                    config,
                    duration_us,
                }
            }
        },
    }
}

/// A queue that already carries a frame notification coalesces further
/// ones: the worker always works on the latest staged frame, never a
/// backlog.
pub open spec fn has_new_frame(q: Seq<EncodingCommand>) -> bool {
    exists|i: int| 0 <= i < q.len() && q[i] is NewFrame
}

/// The per-monitor actor: the command queue, the raw-frame staging buffer,
/// the handle-visible geometry, the worker's own state, and the sample and
/// side-channel outputs.
pub struct Monitor {
    /// Commands awaiting the worker, oldest first.
    pub cmds: Vec<EncodingCommand>,
    /// The raw-frame staging buffer.
    pub frame: Vec<u8>,
    /// The geometry consumers see, updated as soon as `configure` is called.
    pub geometry: MonitorConfig,
    /// The configuration the worker last applied to its encoder.
    pub applied: Option<MonitorConfig>,
    /// Per-frame presentation duration under the applied configuration.
    pub duration_us: u64,
    /// The viewer count the worker saw on its previous frame cycle.
    pub last_viewers: usize,
    /// Sample distribution to viewers.
    pub hub: SampleHub,
    /// Latest-value cell of the codec parameters.
    pub codec_data: LatestCell<CodecParameters>,
    /// Latest-value cell of the cursor position.
    pub cursor_position: LatestCell<CursorPosition>,
    /// Latest-value cell of the cursor image.
    pub cursor_image: LatestCell<CursorImage>,
    /// Content-addressed store of encoded cursor bitmaps.
    pub cache: CursorCache,
}

impl Monitor {
    /// Commands awaiting the worker, oldest first.
    pub open spec fn queue(&self) -> Seq<EncodingCommand> {
        self.cmds@
    }

    /// The staged raw frame.
    pub open spec fn frame(&self) -> Seq<u8> {
        self.frame@
    }

    /// The geometry visible to consumers, updated as soon as `configure`
    /// is called.
    pub open spec fn geometry(&self) -> MonitorConfig {
        self.geometry
    }

    /// The configuration the worker last applied to its encoder, if any.
    pub open spec fn applied(&self) -> Option<MonitorConfig> {
        self.applied
    }

    /// The per-frame presentation duration under the applied configuration.
    pub open spec fn duration_us(&self) -> u64 {
        self.duration_us
    }

    /// The viewer count the worker saw on its previous frame cycle.
    pub open spec fn last_viewers(&self) -> usize {
        self.last_viewers
    }

    /// The distribution side is structurally sound.
    pub open spec fn wf(&self) -> bool {
        self.hub.wf()
    }

    /// The worker-side state is untouched.
    pub open spec fn worker_unchanged(a: &Monitor, b: &Monitor) -> bool {
        &&& b.applied() == a.applied()
        &&& b.duration_us() == a.duration_us()
        &&& b.last_viewers() == a.last_viewers()
    }

    /// The outputs — samples, codec parameters, cursor cells, cache — are
    /// untouched.
    pub open spec fn outputs_unchanged(a: &Monitor, b: &Monitor) -> bool {
        &&& b.hub == a.hub
        &&& b.codec_data == a.codec_data
        &&& b.cursor_position == a.cursor_position
        &&& b.cursor_image == a.cursor_image
        &&& b.cache == a.cache
    }

    /// A fresh monitor: nothing queued, nothing staged, nothing configured,
    /// retaining `history` samples for consumers and caching up to
    /// `cursor_entries` cursor bitmaps.
    pub fn new(history: usize, cursor_entries: usize) -> (m: Monitor)
        requires
            history >= 1,
            cursor_entries >= 1,
        ensures
            m.wf(),
            m.queue() == Seq::<EncodingCommand>::empty(),
            m.frame() == Seq::<u8>::empty(),
            m.geometry() == (MonitorConfig { width: 0, height: 0, framerate: 0 }),
            m.applied() == None::<MonitorConfig>,
            m.last_viewers() == 0,
            m.hub.log() == Seq::<SampleView>::empty(),
            m.hub.capacity() == history,
            m.hub.consumer_total() == 0,
            m.codec_data.version() == 0,
            m.codec_data.value() is None,
            m.cursor_position.version() == 0,
            m.cursor_position.value() is None,
            m.cursor_image.version() == 0,
            m.cursor_image.value() is None,
            m.cache.state() == Seq::<(u32, CursorImageView)>::empty(),
            m.cache.capacity() == cursor_entries,
    {
        Monitor {
            cmds: Vec::new(),
            frame: Vec::new(),
            geometry: MonitorConfig { width: 0, height: 0, framerate: 0 },
            applied: None,
            duration_us: 0,
            last_viewers: 0,
            hub: SampleHub::new(history),
            codec_data: LatestCell::new(),
            cursor_position: LatestCell::new(),
            cursor_image: LatestCell::new(),
            cache: CursorCache::new(cursor_entries),
        }
    }

    /// Current width as consumers report it.
    pub fn width(&self) -> (r: u32)
        ensures
            r == self.geometry().width,
    {
        self.geometry.width
    }

    /// Current height as consumers report it.
    pub fn height(&self) -> (r: u32)
        ensures
            r == self.geometry().height,
    {
        self.geometry.height
    }

    /// Current framerate as consumers report it.
    pub fn framerate(&self) -> (r: u32)
        ensures
            r == self.geometry().framerate,
    {
        self.geometry.framerate
    }

    /// Enqueues a reconfiguration, non-blocking, and updates the
    /// externally visible geometry at once; the encoder itself is
    /// reconfigured asynchronously by the worker.
    pub fn configure(&mut self, width: u32, height: u32, framerate: u32)
        ensures
            final(self).geometry() == (MonitorConfig { width, height, framerate }),
            final(self).queue() == old(self).queue().push(
                EncodingCommand::Configure {
                    config: MonitorConfig { width, height, framerate },
                },
            ),
            final(self).frame() == old(self).frame(),
            Monitor::worker_unchanged(old(self), final(self)),
            Monitor::outputs_unchanged(old(self), final(self)),
    {
        let config = MonitorConfig { width, height, framerate };
        self.cmds.push(EncodingCommand::Configure { config });
        self.geometry = config;
    }

    /// Copies the raw frame into the staging buffer, then notifies the
    /// worker — unless a frame notification is already pending, in which
    /// case the notification is dropped and the worker will pick up this
    /// newer frame content instead: intentional backpressure.
    pub fn submit_frame(&mut self, bytes: &[u8], timestamp_ms: u64)
        ensures
            final(self).frame() == bytes@,
            final(self).queue() == if has_new_frame(old(self).queue()) {
                old(self).queue()
            } else {
                old(self).queue().push(EncodingCommand::NewFrame { timestamp_ms })
            },
            final(self).geometry() == old(self).geometry(),
            Monitor::worker_unchanged(old(self), final(self)),
            Monitor::outputs_unchanged(old(self), final(self)),
    {
        self.frame = vstd::slice::slice_to_vec(bytes);
        let mut pending = false;
        let mut i: usize = 0;
        while i < self.cmds.len()
            invariant
                i <= self.cmds@.len(),
                pending == exists|j: int| 0 <= j < i && self.cmds@[j] is NewFrame,
            decreases self.cmds@.len() - i,
        {
            if matches!(self.cmds[i], EncodingCommand::NewFrame { .. }) {
                pending = true;
            }
            i = i + 1;
        }
        if !pending {
            self.cmds.push(EncodingCommand::NewFrame { timestamp_ms });
        }
    }

    /// Publishes a cursor position into its latest-value cell.
    pub fn set_cursor_position(&mut self, x: i32, y: i32, visible: bool)
        requires
            old(self).cursor_position.version() < u64::MAX,
        ensures
            final(self).cursor_position.value() == Some(CursorPosition { x, y, visible }),
            final(self).cursor_position.version() == old(self).cursor_position.version() + 1,
            final(self).queue() == old(self).queue(),
            final(self).frame() == old(self).frame(),
            final(self).geometry() == old(self).geometry(),
            Monitor::worker_unchanged(old(self), final(self)),
            final(self).hub == old(self).hub,
            final(self).codec_data == old(self).codec_data,
            final(self).cursor_image == old(self).cursor_image,
            final(self).cache == old(self).cache,
    {
        self.cursor_position.publish(CursorPosition { x, y, visible });
    }
}

} // verus!

verus! {

impl Monitor {
    /// Converts the BGRA bitmap to RGBA, looks its checksum up in the
    /// cursor cache — encoding and inserting on a miss — and publishes the
    /// resulting image into the cursor-image cell.
    pub fn set_cursor_image(&mut self, width: u32, height: u32, image: Vec<u8>) -> (r: Result<
        (),
        CursorError,
    >)
        requires
            image@.len() == 4 * width * height,
            old(self).cursor_image.version() < u64::MAX,
        ensures
            final(self).queue() == old(self).queue(),
            final(self).frame() == old(self).frame(),
            final(self).geometry() == old(self).geometry(),
            Monitor::worker_unchanged(old(self), final(self)),
            final(self).hub == old(self).hub,
            final(self).codec_data == old(self).codec_data,
            final(self).cursor_position == old(self).cursor_position,
            final(self).cache.capacity() == old(self).cache.capacity(),
            final(self).cache.state().len() <= final(self).cache.capacity(),
            no_dup_keys(final(self).cache.state()),
            width >= 1 && height >= 1 ==> r is Ok,
            ({
                let rgba = spec_bgra_to_rgba(image@);
                let checksum = crc32_of(rgba);
                match r {
                    Ok(_) => {
                        &&& final(self).cursor_image.version() == old(
                            self,
                        ).cursor_image.version() + 1
                        &&& match final(self).cursor_image.value() {
                            Some(img) => {
                                &&& match assoc_find(old(self).cache.state(), checksum) {
                                    Some(entry) => {
                                        &&& img@ == entry
                                        &&& final(self).cache.state() == seq![(checksum, entry)]
                                            + remove_key(old(self).cache.state(), checksum)
                                    },
                                    None => {
                                        &&& img@ == (CursorImageView {
                                            crc32: checksum,
                                            width,
                                            height,
                                            raw: rgba,
                                            encoded: png_of(width, height, rgba),
                                        })
                                        &&& final(self).cache.state() == if old(
                                            self,
                                        ).cache.state().len() < old(self).cache.capacity() {
                                            seq![(checksum, img@)] + old(self).cache.state()
                                        } else {
                                            seq![(checksum, img@)] + old(
                                                self,
                                            ).cache.state().drop_last()
                                        }
                                    },
                                }
                                &&& assoc_find(final(self).cache.state(), checksum) == Some(img@)
                            },
                            None => false,
                        }
                    },
                    Err(_) => {
                        &&& final(self).cursor_image == old(self).cursor_image
                        &&& final(self).cache.state() == old(self).cache.state()
                        &&& assoc_find(old(self).cache.state(), checksum)
                            == None::<CursorImageView>
                    },
                }
            }),
    {
        let mut rgba = image;
        proof {
            let wh = (width as int) * (height as int);
            vstd::arithmetic::div_mod::lemma_mod_multiples_basic(wh, 4);
            assert(wh * 4 == 4 * (width as int) * (height as int)) by (nonlinear_arith)
                requires
                    wh == (width as int) * (height as int),
            ;
        }
        bgra_to_rgba_pixels(&mut rgba);
        let checksum = checksum_bytes(rgba.as_slice());
        let img = match self.cache.get_or_insert(checksum, width, height, rgba) {
            Ok(img) => img,
            Err(e) => {
                return Err(e);
            },
        };
        self.cursor_image.publish(img);
        Ok(())
    }

    /// Processes the next queued command: pops it and decides what the
    /// worker must do, applying a reconfiguration to the worker state
    /// immediately. All encoder work — draining, reconfiguring, encoding —
    /// is the caller's, reported back through [`Monitor::complete_configure`]
    /// and [`Monitor::complete_encode`].
    pub fn worker_step(&mut self) -> (r: WorkerAction)
        ensures
            final(self).frame() == old(self).frame(),
            final(self).geometry() == old(self).geometry(),
            Monitor::outputs_unchanged(old(self), final(self)),
            old(self).queue().len() == 0 ==> {
                &&& r is Idle
                &&& final(self).queue() == old(self).queue()
                &&& Monitor::worker_unchanged(old(self), final(self))
            },
            old(self).queue().len() > 0 ==> {
                &&& final(self).queue() == old(self).queue().drop_first()
                &&& match old(self).queue()[0] {
                    EncodingCommand::Configure { config } => {
                        &&& r == spec_configure_decision(old(self).applied(), config)
                        &&& if r is ConfigUnchanged {
                            Monitor::worker_unchanged(old(self), final(self))
                        } else {
                            &&& final(self).applied() == Some(config)
                            &&& final(self).duration_us() == spec_duration_us(config.framerate)
                            &&& final(self).last_viewers() == 0
                        }
                    },
                    EncodingCommand::NewFrame { timestamp_ms } => {
                        &&& r == spec_frame_decision(
                            old(self).applied(),
                            old(self).hub.consumer_total(),
                            old(self).last_viewers(),
                            old(self).frame().len(),
                            timestamp_ms,
                            old(self).duration_us(),
                        )
                        &&& final(self).applied() == old(self).applied()
                        &&& final(self).duration_us() == old(self).duration_us()
                        &&& final(self).last_viewers() == match r {
                            WorkerAction::Skip { reason: SkipReason::NoViewers, .. } => 0usize,
                            WorkerAction::Encode { .. } => old(self).hub.consumer_total(),
                            _ => old(self).last_viewers(),
                        }
                    },
                }
            },
    {
        if self.cmds.len() == 0 {
            return WorkerAction::Idle;
        }
        let cmd = self.cmds.remove(0);
        match cmd {
            EncodingCommand::Configure { config } => {
                let same = match self.applied {
                    Some(applied) => applied == config,
                    None => false,
                };
                if same {
                    WorkerAction::ConfigUnchanged { config }
                } else {
                    self.applied = Some(config);
                    self.duration_us = if config.framerate == 0 {
                        1000000
                    } else {
                        1000000 / (config.framerate as u64)
                    };
                    self.last_viewers = 0;
                    WorkerAction::Reconfigure { config }
                }
            },
            EncodingCommand::NewFrame { timestamp_ms } => {
                let config = match self.applied {
                    Some(config) => config,
                    None => {
                        return WorkerAction::Skip {
                            reason: SkipReason::NotConfigured,
                            timestamp_ms,
                        };
                    },
                };
                let viewers = self.hub.consumer_count();
                if viewers == 0 {
                    self.last_viewers = 0;
                    return WorkerAction::Skip { reason: SkipReason::NoViewers, timestamp_ms };
                }
                proof {
                    assert(4 * (config.width as int) * (config.height as int)
                        < 0x100000000000000000000000000000000) by (nonlinear_arith)
                        requires
                            config.width <= u32::MAX,
                            config.height <= u32::MAX,
                    ;
                }
                let expected = 4u128 * (config.width as u128) * (config.height as u128);
                if self.frame.len() as u128 != expected {
                    return WorkerAction::Skip { reason: SkipReason::BadFrameSize, timestamp_ms };
                }
                let force_keyframe = viewers > self.last_viewers;
                self.last_viewers = viewers;
                WorkerAction::Encode {
                    timestamp_ms,
                    force_keyframe,
                    config,
                    duration_us: self.duration_us,
                }
            },
        }
    }

    /// Reports a finished encoder reconfiguration: publishes the codec
    /// parameters the freshly configured encoder produced, so consumers
    /// that connect late can still fetch them.
    pub fn complete_configure(&mut self, params: CodecParameters)
        requires
            old(self).codec_data.version() < u64::MAX,
        ensures
            final(self).codec_data.value() == Some(params),
            final(self).codec_data.version() == old(self).codec_data.version() + 1,
            final(self).queue() == old(self).queue(),
            final(self).frame() == old(self).frame(),
            final(self).geometry() == old(self).geometry(),
            Monitor::worker_unchanged(old(self), final(self)),
            final(self).hub == old(self).hub,
            final(self).cursor_position == old(self).cursor_position,
            final(self).cursor_image == old(self).cursor_image,
            final(self).cache == old(self).cache,
    {
        self.codec_data.publish(params);
    }

    /// Reports one encoder output unit: wraps it into a [`Sample`] with
    /// the original capture timestamp and the configured per-frame
    /// duration, and publishes it to every consumer.
    pub fn complete_encode(&mut self, timestamp_ms: u64, data: &[u8])
        requires
            old(self).wf(),
            old(self).hub.log().len() < u64::MAX,
        ensures
            final(self).wf(),
            final(self).hub.log() == old(self).hub.log().push(
                SampleView { data: data@, timestamp_ms, duration_us: old(self).duration_us() },
            ),
            final(self).hub.capacity() == old(self).hub.capacity(),
            final(self).hub.consumer_total() == old(self).hub.consumer_total(),
            final(self).queue() == old(self).queue(),
            final(self).frame() == old(self).frame(),
            final(self).geometry() == old(self).geometry(),
            Monitor::worker_unchanged(old(self), final(self)),
            final(self).codec_data == old(self).codec_data,
            final(self).cursor_position == old(self).cursor_position,
            final(self).cursor_image == old(self).cursor_image,
            final(self).cache == old(self).cache,
    {
        let sample = Sample::new(data, timestamp_ms, self.duration_us);
        self.hub.publish(sample);
    }
}

} // verus!

verus! {

// ---------------------------------------------------------------------------
// Laws of the worker decisions.
// ---------------------------------------------------------------------------

/// Reconfiguring twice with identical parameters performs exactly one
/// encoder reconfiguration: once a geometry is applied, a `Configure` with
/// the same geometry decides to do nothing, so codec parameters are
/// published at most once for it.
pub proof fn lemma_configure_idempotent(applied: Option<MonitorConfig>, config: MonitorConfig)
    ensures
        spec_configure_decision(Some(config), config) is ConfigUnchanged,
        spec_configure_decision(applied, config) is Reconfigure ==> applied != Some(config),
{
}

/// When the viewer count increased since the previous cycle, an encoded
/// frame is a forced keyframe — and only then.
pub proof fn lemma_keyframe_on_join(
    applied: Option<MonitorConfig>,
    viewers: usize,
    last_viewers: usize,
    frame_len: nat,
    timestamp_ms: u64,
    duration_us: u64,
)
    ensures
        spec_frame_decision(
            applied,
            viewers,
            last_viewers,
            frame_len,
            timestamp_ms,
            duration_us,
        ) matches WorkerAction::Encode { force_keyframe, .. } ==> (force_keyframe <==> viewers
            > last_viewers),
{
}

/// With no viewers, a frame cycle never decides to encode.
pub proof fn lemma_zero_viewer_backpressure(
    applied: Option<MonitorConfig>,
    last_viewers: usize,
    frame_len: nat,
    timestamp_ms: u64,
    duration_us: u64,
)
    ensures
        !(spec_frame_decision(
            applied,
            0,
            last_viewers,
            frame_len,
            timestamp_ms,
            duration_us,
        ) is Encode),
{
}

/// How many frame notifications a queue holds.
pub open spec fn new_frame_count(q: Seq<EncodingCommand>) -> nat
    decreases q.len(),
{
    if q.len() == 0 {
        0
    } else {
        (if q[0] is NewFrame {
            1nat
        } else {
            0nat
        }) + new_frame_count(q.drop_first())
    }
}

/// A queue without a frame notification holds zero of them.
proof fn lemma_no_new_frame_count(q: Seq<EncodingCommand>)
    requires
        !has_new_frame(q),
    ensures
        new_frame_count(q) == 0,
    decreases q.len(),
{
    if q.len() > 0 {
        assert(!(q[0] is NewFrame));
        assert forall|i: int| 0 <= i < q.drop_first().len() implies !(#[trigger] q.drop_first()[i]
            is NewFrame) by {
            assert(q.drop_first()[i] == q[i + 1]);
        }
        lemma_no_new_frame_count(q.drop_first());
    }
}

/// Appending a command changes the notification count by one exactly when
/// the command is a frame notification.
proof fn lemma_new_frame_count_push(q: Seq<EncodingCommand>, c: EncodingCommand)
    ensures
        new_frame_count(q.push(c)) == new_frame_count(q) + (if c is NewFrame {
            1nat
        } else {
            0nat
        }),
    decreases q.len(),
{
    if q.len() == 0 {
        assert(q.push(c)[0] == c);
        assert(q.push(c).drop_first() =~= Seq::<EncodingCommand>::empty());
        assert(new_frame_count(q.push(c).drop_first()) == 0);
        assert(new_frame_count(q) == 0);
    } else {
        lemma_new_frame_count_push(q.drop_first(), c);
        assert(q.push(c).drop_first() =~= q.drop_first().push(c));
        assert(q.push(c)[0] == q[0]);
    }
}

/// Submitting a frame while a frame notification is already queued adds no
/// second notification: after two submissions in a row the queue holds
/// exactly one `NewFrame` command — so the worker observes one — and the
/// staging buffer holds whatever the latest submission wrote.
pub proof fn lemma_submit_frame_coalesces(q: Seq<EncodingCommand>, t1: u64)
    requires
        !has_new_frame(q),
    ensures
        has_new_frame(q.push(EncodingCommand::NewFrame { timestamp_ms: t1 })),
        new_frame_count(q.push(EncodingCommand::NewFrame { timestamp_ms: t1 })) == 1,
{
    let q1 = q.push(EncodingCommand::NewFrame { timestamp_ms: t1 });
    assert(q1[q.len() as int] is NewFrame);
    lemma_no_new_frame_count(q);
    lemma_new_frame_count_push(q, EncodingCommand::NewFrame { timestamp_ms: t1 });
}

// ---------------------------------------------------------------------------
// An encoder double, for exercising the worker loop.
// ---------------------------------------------------------------------------

/// One observed call on the encoder double.
#[derive(Clone, Copy, Debug, PartialEq, Eq, Structural)]
pub enum EncoderEvent {
    /// The encoder was reconfigured to this geometry.
    Configured { config: MonitorConfig },
    /// The encoder was drained of pending output.
    Drained,
    /// One frame was encoded, with this keyframe flag.
    Encoded { force_keyframe: bool },
}

/// An encoder double: it records every call it observes and hands back
/// scripted outputs and parameter blobs.
pub struct MockEncoder {
    /// Every call observed, in order.
    pub events: Vec<EncoderEvent>,
    /// Scripted output units, consumed front first.
    pub outputs: Vec<Vec<u8>>,
    /// Scripted codec parameter blobs reported after a reconfiguration.
    pub params: Vec<Vec<u8>>,
}

impl MockEncoder {
    /// A double that has observed nothing and will produce nothing.
    pub fn new() -> (e: MockEncoder)
        ensures
            e.events@ == Seq::<EncoderEvent>::empty(),
            e.outputs@ == Seq::<Vec<u8>>::empty(),
            e.params@ == Seq::<Vec<u8>>::empty(),
    {
        MockEncoder { events: Vec::new(), outputs: Vec::new(), params: Vec::new() }
    }

    /// Scripts the next output unit the double will produce.
    pub fn script_output(&mut self, data: Vec<u8>)
        ensures
            final(self).outputs@ == old(self).outputs@.push(data),
            final(self).events@ == old(self).events@,
            final(self).params@ == old(self).params@,
    {
        self.outputs.push(data);
    }

    /// Scripts one codec parameter blob the double will report.
    pub fn script_param(&mut self, blob: Vec<u8>)
        ensures
            final(self).params@ == old(self).params@.push(blob),
            final(self).events@ == old(self).events@,
            final(self).outputs@ == old(self).outputs@,
    {
        self.params.push(blob);
    }

    /// Observes a reconfiguration and reports the scripted parameters.
    pub fn configure(&mut self, config: MonitorConfig) -> (r: CodecParameters)
        ensures
            final(self).events@ == old(self).events@.push(EncoderEvent::Configured { config }),
            final(self).outputs@ == old(self).outputs@,
            final(self).params@ == old(self).params@,
            r@ == old(self).params@.map_values(|b: Vec<u8>| b@),
    {
        self.events.push(EncoderEvent::Configured { config });
        CodecParameters { params: clone_blobs(&self.params) }
    }

    /// Observes a drain and hands every pending output unit out.
    pub fn drain(&mut self) -> (r: Vec<Vec<u8>>)
        ensures
            final(self).events@ == old(self).events@.push(EncoderEvent::Drained),
            final(self).outputs@ == Seq::<Vec<u8>>::empty(),
            final(self).params@ == old(self).params@,
            r@ == old(self).outputs@,
    {
        self.events.push(EncoderEvent::Drained);
        let mut drained: Vec<Vec<u8>> = Vec::new();
        core::mem::swap(&mut drained, &mut self.outputs);
        drained
    }

    /// Observes one encode call — with its keyframe flag — and hands back
    /// the next scripted output unit, if one is left.
    pub fn encode(&mut self, force_keyframe: bool) -> (r: Option<Vec<u8>>)
        ensures
            final(self).events@ == old(self).events@.push(
                EncoderEvent::Encoded { force_keyframe },
            ),
            final(self).params@ == old(self).params@,
            match r {
                Some(data) => {
                    &&& old(self).outputs@.len() > 0
                    &&& data == old(self).outputs@[0]
                    &&& final(self).outputs@ == old(self).outputs@.drop_first()
                },
                None => {
                    &&& old(self).outputs@.len() == 0
                    &&& final(self).outputs@ == old(self).outputs@
                },
            },
    {
        self.events.push(EncoderEvent::Encoded { force_keyframe });
        if self.outputs.len() == 0 {
            None
        } else {
            Some(self.outputs.remove(0))
        }
    }
}

} // verus!

verus! {

impl Monitor {
    /// Runs one full worker iteration against an encoder: takes the next
    /// command, performs the decided encoder work, and publishes what it
    /// produced. With no viewers the encoder is not touched at all; a
    /// viewer having joined forces a keyframe; an unchanged reconfiguration
    /// touches neither the encoder nor the codec-parameter cell.
    pub fn drive_step(&mut self, enc: &mut MockEncoder)
        requires
            old(self).wf(),
            old(self).codec_data.version() < u64::MAX,
            old(self).hub.log().len() + old(enc).outputs@.len() + 1 <= u64::MAX,
        ensures
            final(self).wf(),
            final(self).queue() == if old(self).queue().len() == 0 {
                old(self).queue()
            } else {
                old(self).queue().drop_first()
            },
            final(self).frame() == old(self).frame(),
            final(self).geometry() == old(self).geometry(),
            final(self).cursor_position == old(self).cursor_position,
            final(self).cursor_image == old(self).cursor_image,
            final(self).cache == old(self).cache,
            final(self).hub.consumer_total() == old(self).hub.consumer_total(),
            old(self).queue().len() == 0 ==> {
                &&& *final(enc) == *old(enc)
                &&& final(self).hub.log() == old(self).hub.log()
                &&& final(self).codec_data == old(self).codec_data
                &&& Monitor::worker_unchanged(old(self), final(self))
            },
            old(self).queue().len() > 0 ==> match old(self).queue()[0] {
                EncodingCommand::Configure { config } => {
                    if old(self).applied() == Some(config) {
                        &&& *final(enc) == *old(enc)
                        &&& final(self).codec_data == old(self).codec_data
                        &&& final(self).hub.log() == old(self).hub.log()
                        &&& Monitor::worker_unchanged(old(self), final(self))
                    } else {
                        &&& final(enc).events@ == old(enc).events@.push(
                            EncoderEvent::Drained,
                        ).push(EncoderEvent::Configured { config })
                        &&& final(enc).outputs@.len() == 0
                        &&& final(self).codec_data.version() == old(self).codec_data.version() + 1
                        &&& match final(self).codec_data.value() {
                            Some(p) => p@ == old(enc).params@.map_values(|b: Vec<u8>| b@),
                            None => false,
                        }
                        &&& final(self).hub.log() == old(self).hub.log() + old(
                            enc,
                        ).outputs@.map_values(
                            |d: Vec<u8>|
                                SampleView {
                                    data: d@,
                                    timestamp_ms: 0,
                                    duration_us: spec_duration_us(config.framerate),
                                },
                        )
                        &&& final(self).applied() == Some(config)
                        &&& final(self).duration_us() == spec_duration_us(config.framerate)
                        &&& final(self).last_viewers() == 0
                    }
                },
                EncodingCommand::NewFrame { timestamp_ms } => {
                    &&& final(self).codec_data == old(self).codec_data
                    &&& final(self).applied() == old(self).applied()
                    &&& final(self).duration_us() == old(self).duration_us()
                    &&& if old(self).hub.consumer_total() == 0 {
                        &&& *final(enc) == *old(enc)
                        &&& final(self).hub.log() == old(self).hub.log()
                        &&& final(self).last_viewers() == (if old(self).applied() is Some {
                            0usize
                        } else {
                            old(self).last_viewers()
                        })
                    } else if spec_frame_decision(
                        old(self).applied(),
                        old(self).hub.consumer_total(),
                        old(self).last_viewers(),
                        old(self).frame().len(),
                        timestamp_ms,
                        old(self).duration_us(),
                    ) is Encode {
                        &&& final(enc).events@ == old(enc).events@.push(
                            EncoderEvent::Encoded {
                                force_keyframe: old(self).hub.consumer_total() > old(
                                    self,
                                ).last_viewers(),
                            },
                        )
                        &&& old(enc).outputs@.len() > 0 ==> final(self).hub.log() == old(
                            self,
                        ).hub.log().push(
                            SampleView {
                                data: old(enc).outputs@[0]@,
                                timestamp_ms,
                                duration_us: old(self).duration_us(),
                            },
                        )
                        &&& old(enc).outputs@.len() == 0 ==> final(self).hub.log() == old(
                            self,
                        ).hub.log()
                        &&& final(self).last_viewers() == old(self).hub.consumer_total()
                    } else {
                        &&& *final(enc) == *old(enc)
                        &&& final(self).hub.log() == old(self).hub.log()
                        &&& final(self).last_viewers() == old(self).last_viewers()
                    }
                },
            },
    {
        let action = self.worker_step();
        match action {
            WorkerAction::Idle => {},
            WorkerAction::ConfigUnchanged { .. } => {},
            WorkerAction::Skip { .. } => {},
            WorkerAction::Reconfigure { config } => {
                let drained = enc.drain();
                let ghost pre_log = self.hub.log();
                let ghost drained_views = drained@.map_values(
                    |d: Vec<u8>|
                        SampleView {
                            data: d@,
                            timestamp_ms: 0,
                            duration_us: spec_duration_us(config.framerate),
                        },
                );
                let mut i: usize = 0;
                while i < drained.len()
                    invariant
                        i <= drained@.len(),
                        self.wf(),
                        drained_views == drained@.map_values(
                            |d: Vec<u8>|
                                SampleView {
                                    data: d@,
                                    timestamp_ms: 0,
                                    duration_us: spec_duration_us(config.framerate),
                                },
                        ),
                        self.hub.log() == pre_log + drained_views.take(i as int),
                        pre_log.len() + drained@.len() <= u64::MAX,
                        self.hub.consumer_total() == old(self).hub.consumer_total(),
                        self.codec_data == old(self).codec_data,
                        self.frame() == old(self).frame(),
                        self.geometry() == old(self).geometry(),
                        self.cursor_position == old(self).cursor_position,
                        self.cursor_image == old(self).cursor_image,
                        self.cache == old(self).cache,
                        self.queue() == old(self).queue().drop_first(),
                        self.applied() == Some(config),
                        self.duration_us() == spec_duration_us(config.framerate),
                        self.last_viewers() == 0,
                        self.codec_data.version() < u64::MAX,
                    decreases drained@.len() - i,
                {
                    let data = &drained[i];
                    self.complete_encode(0, data.as_slice());
                    proof {
                        assert(self.hub.log() =~= pre_log + drained_views.take(i as int + 1));
                    }
                    i = i + 1;
                }
                proof {
                    assert(drained_views.take(drained@.len() as int) =~= drained_views);
                }
                let params = enc.configure(config);
                self.complete_configure(params);
            },
            WorkerAction::Encode { timestamp_ms, force_keyframe, .. } => {
                if let Some(data) = enc.encode(force_keyframe) {
                    self.complete_encode(timestamp_ms, data.as_slice());
                }
            },
        }
    }
}

} // verus!

verus! {

/// Where an encoder fault surfaced during a worker cycle.
#[derive(Clone, Copy, Debug, PartialEq, Eq, Structural)]
pub enum EncoderFault {
    /// Reconfiguration failed; `recreated` says whether the encoder had
    /// already been rebuilt from scratch for this geometry.
    Reconfigure { recreated: bool },
    /// An encode call failed.
    Encode,
}

/// What the worker does about an encoder fault.
#[derive(Clone, Copy, Debug, PartialEq, Eq, Structural)]
pub enum FaultAction {
    /// Close the encoder and create a fresh one with the new geometry,
    /// then retry the reconfiguration.
    RecreateEncoder,
    /// The fault is fatal: the worker terminates and releases the encoder;
    /// no restart is attempted here.
    TerminateWorker,
}

/// The worker's fault policy: a failed reconfiguration gets one fresh
/// encoder (structurally incompatible parameters), any further encoder
/// fault — a failed recreation or a failed encode — is fatal to the
/// worker.
pub open spec fn spec_fault_decision(fault: EncoderFault) -> FaultAction {
    match fault {
        EncoderFault::Reconfigure { recreated: false } => FaultAction::RecreateEncoder,
        EncoderFault::Reconfigure { recreated: true } => FaultAction::TerminateWorker,
        EncoderFault::Encode => FaultAction::TerminateWorker,
    }
}

/// Decides the worker's reaction to an encoder fault, for the loop that
/// owns the real encoder.
pub fn on_encoder_fault(fault: EncoderFault) -> (r: FaultAction)
    ensures
        r == spec_fault_decision(fault),
{
    match fault {
        EncoderFault::Reconfigure { recreated: false } => FaultAction::RecreateEncoder,
        EncoderFault::Reconfigure { recreated: true } => FaultAction::TerminateWorker,
        EncoderFault::Encode => FaultAction::TerminateWorker,
    }
}

} // verus!
