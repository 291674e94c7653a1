//! Per-connection framer sessions: the decision half of each channel loop.
//! The transport side awaits events — a codec-parameter change, a ticker, a
//! new sample, a cursor update — and asks these state machines which packet
//! to put on the wire. Writes, flushes and timeouts stay with the caller.

use vstd::prelude::*;

use crate::cursor::{CursorImage, CursorPosition};
use crate::monitor::{clone_blobs, CodecParameters};
use crate::utils::Sample;
use crate::wire::{Packet, PacketView};

verus! {

/// The sample timestamp rebased onto the session clock, saturating at the
/// session start.
pub open spec fn spec_session_ts(timestamp_ms: u64, stream_start_ms: u64) -> u64 {
    if timestamp_ms >= stream_start_ms {
        (timestamp_ms - stream_start_ms) as u64
    } else {
        0u64
    }
}

/// The video channel: anchors the clock on connect, then interleaves
/// `Configure`, periodic `Timestamp` resyncs and `Video` samples — and
/// never lets a `Video` packet precede the first `Configure`.
pub struct VideoSession {
    /// Whether at least one `Configure` packet has been produced.
    pub configured: bool,
}

impl VideoSession {
    /// A fresh session that has sent no `Configure` yet.
    pub fn new() -> (s: VideoSession)
        ensures
            !s.configured,
    {
        VideoSession { configured: false }
    }

    /// The initial packet of the session: a `Timestamp` anchoring the
    /// session clock.
    pub fn connect_packet(&self, now_ms: u64) -> (p: Packet)
        ensures
            p@ == (PacketView::Timestamp { timestamp_ms: now_ms as i64 }),
    {
        Packet::Timestamp { timestamp_ms: #[verifier::truncate] (now_ms as i64) }
    }

    /// The periodic clock resync.
    pub fn on_tick(&self, now_ms: u64) -> (p: Packet)
        ensures
            p@ == (PacketView::Timestamp { timestamp_ms: now_ms as i64 }),
    {
        Packet::Timestamp { timestamp_ms: #[verifier::truncate] (now_ms as i64) }
    }

    /// Codec parameters became available or changed: produce a `Configure`
    /// carrying the current geometry and every parameter blob, and from
    /// here on samples may flow.
    pub fn on_codec_data(&mut self, width: u32, height: u32, params: &CodecParameters) -> (p:
        Packet)
        ensures
            final(self).configured,
            p@ == (PacketView::Configure {
                width: width as i32,
                height: height as i32,
                params: params@,
            }),
    {
        self.configured = true;
        Packet::Configure {
            width: #[verifier::truncate] (width as i32),
            height: #[verifier::truncate] (height as i32),
            params: clone_blobs(&params.params),
        }
    }

    /// A sample arrived: a `Video` packet, rebased onto the session clock —
    /// or nothing while no `Configure` has been sent yet.
    pub fn on_sample(&self, sample: &Sample, stream_start_ms: u64) -> (r: Option<Packet>)
        ensures
            r is Some <==> self.configured,
            match r {
                Some(p) => p@ == (PacketView::Video {
                    timestamp_ms: spec_session_ts(sample.timestamp_ms, stream_start_ms) as i64,
                    data: sample.data@,
                }),
                None => !self.configured,
            },
    {
        if !self.configured {
            return None;
        }
        let rebased = if sample.timestamp_ms >= stream_start_ms {
            sample.timestamp_ms - stream_start_ms
        } else {
            0
        };
        let data = sample.data.clone();
        proof {
            assert(data@ =~= sample.data@);
        }
        Some(Packet::Video { timestamp_ms: #[verifier::truncate] (rebased as i64), data })
    }
}

/// The audio channel: like video but without geometry; an
/// `AudioConfigure` precedes any `Audio` sample.
pub struct AudioSession {
    /// Whether at least one `AudioConfigure` packet has been produced.
    pub configured: bool,
}

impl AudioSession {
    /// A fresh session that has sent no `AudioConfigure` yet.
    pub fn new() -> (s: AudioSession)
        ensures
            !s.configured,
    {
        AudioSession { configured: false }
    }

    /// Codec parameters became available or changed: produce an
    /// `AudioConfigure`, and from here on samples may flow.
    pub fn on_codec_data(&mut self, channels: u8, sample_rate: u32, params: &CodecParameters)
        -> (p: Packet)
        ensures
            final(self).configured,
            p@ == (PacketView::AudioConfigure {
                channels,
                sample_rate: sample_rate as i32,
                params: params@,
            }),
    {
        self.configured = true;
        Packet::AudioConfigure {
            channels,
            sample_rate: #[verifier::truncate] (sample_rate as i32),
            params: clone_blobs(&params.params),
        }
    }

    /// A sample arrived: an `Audio` packet, rebased onto the session clock
    /// — or nothing while no `AudioConfigure` has been sent yet.
    pub fn on_sample(&self, sample: &Sample, stream_start_ms: u64) -> (r: Option<Packet>)
        ensures
            r is Some <==> self.configured,
            match r {
                Some(p) => p@ == (PacketView::Audio {
                    timestamp_ms: spec_session_ts(sample.timestamp_ms, stream_start_ms) as i64,
                    data: sample.data@,
                }),
                None => !self.configured,
            },
    {
        if !self.configured {
            return None;
        }
        let rebased = if sample.timestamp_ms >= stream_start_ms {
            sample.timestamp_ms - stream_start_ms
        } else {
            0
        };
        let data = sample.data.clone();
        proof {
            assert(data@ =~= sample.data@);
        }
        Some(Packet::Audio { timestamp_ms: #[verifier::truncate] (rebased as i64), data })
    }
}

/// The control channel: pushes cursor state. It has no periodic resync; a
/// freshly connected session pushes the current value of each cell once.
pub struct ControlSession {}

impl ControlSession {
    /// A fresh control session.
    pub fn new() -> (s: ControlSession) {
        ControlSession {}
    }

    /// The cursor moved or was hidden: a `CursorPosition` packet.
    pub fn on_position(&self, pos: &CursorPosition) -> (p: Packet)
        ensures
            p@ == (PacketView::CursorPosition { x: pos.x, y: pos.y, visible: pos.visible }),
    {
        Packet::CursorPosition { x: pos.x, y: pos.y, visible: pos.visible }
    }

    /// The cursor image changed: a `CursorImage` packet carrying the
    /// encoded form behind its checksum.
    pub fn on_image(&self, img: &CursorImage) -> (p: Packet)
        ensures
            p@ == (PacketView::CursorImage { crc32: img.crc32, data: img.encoded@ }),
    {
        let data = img.encoded.clone();
        proof {
            assert(data@ =~= img.encoded@);
        }
        Packet::CursorImage { crc32: img.crc32, data }
    }

    /// What a newly connected control channel pushes at once: the current
    /// cursor position and image, where known.
    pub fn connect_packets(&self, pos: &Option<CursorPosition>, img: &Option<CursorImage>) -> (r:
        Vec<Packet>)
        ensures
            r@.map_values(|p: Packet| p@) == {
                let head: Seq<PacketView> = match *pos {
                    Some(p) => seq![
                        PacketView::CursorPosition { x: p.x, y: p.y, visible: p.visible },
                    ],
                    None => Seq::empty(),
                };
                let tail: Seq<PacketView> = match *img {
                    Some(i) => seq![PacketView::CursorImage { crc32: i.crc32, data: i.encoded@ }],
                    None => Seq::empty(),
                };
                head + tail
            },
    {
        let mut out: Vec<Packet> = Vec::new();
        if let Some(p) = pos {
            out.push(self.on_position(p));
        }
        if let Some(i) = img {
            out.push(self.on_image(i));
        }
        proof {
            assert(out@.map_values(|p: Packet| p@) =~= {
                let head: Seq<PacketView> = match *pos {
                    Some(p) => seq![
                        PacketView::CursorPosition { x: p.x, y: p.y, visible: p.visible },
                    ],
                    None => Seq::empty(),
                };
                let tail: Seq<PacketView> = match *img {
                    Some(i) => seq![PacketView::CursorImage { crc32: i.crc32, data: i.encoded@ }],
                    None => Seq::empty(),
                };
                head + tail
            });
        }
        out
    }
}

/// One request method of the streaming-session control protocol.
#[derive(Clone, Copy, Debug, PartialEq, Eq, Structural)]
pub enum RtspMethod {
    Options,
    Describe,
    Setup,
    Teardown,
    Play,
    Pause,
    Other,
}

/// The response status the session answers with.
#[derive(Clone, Copy, Debug, PartialEq, Eq, Structural)]
pub enum RtspStatus {
    Okay,
    NotFound,
    BadRequest,
}

/// The per-connection session state of the streaming control protocol:
/// which monitor stream is set up, whether samples flow, and whether the
/// connection keeps running.
pub struct RtspSession {
    /// A stream was set up (the monitor exists).
    pub setup: bool,
    /// Samples are being consumed.
    pub playing: bool,
    /// The connection loop keeps going.
    pub running: bool,
}

impl RtspSession {
    /// A fresh connection: nothing set up, nothing playing.
    pub fn new() -> (s: RtspSession)
        ensures
            !s.setup,
            !s.playing,
            s.running,
    {
        RtspSession { setup: false, playing: false, running: true }
    }

    /// Answers one request: `Setup` binds the stream if the monitor
    /// exists, `Play` needs a prior `Setup`, `Pause` stops consuming,
    /// `Teardown` ends the session; anything else changes nothing.
    pub fn on_request(&mut self, method: RtspMethod, monitor_found: bool) -> (r: RtspStatus)
        ensures
            match method {
                RtspMethod::Setup => {
                    if monitor_found {
                        &&& r == RtspStatus::Okay
                        &&& final(self).setup
                        &&& final(self).playing == old(self).playing
                        &&& final(self).running == old(self).running
                    } else {
                        &&& r == RtspStatus::NotFound
                        &&& *final(self) == *old(self)
                    }
                },
                RtspMethod::Play => {
                    if old(self).setup {
                        &&& r == RtspStatus::Okay
                        &&& final(self).playing
                        &&& final(self).setup == old(self).setup
                        &&& final(self).running == old(self).running
                    } else {
                        &&& r == RtspStatus::BadRequest
                        &&& *final(self) == *old(self)
                    }
                },
                RtspMethod::Pause => {
                    &&& r == RtspStatus::Okay
                    &&& !final(self).playing
                    &&& final(self).setup == old(self).setup
                    &&& final(self).running == old(self).running
                },
                RtspMethod::Teardown => {
                    &&& r == RtspStatus::Okay
                    &&& !final(self).setup
                    &&& !final(self).playing
                    &&& !final(self).running
                },
                _ => {
                    &&& r == RtspStatus::Okay
                    &&& *final(self) == *old(self)
                },
            },
    {
        match method {
            RtspMethod::Setup => {
                if monitor_found {
                    self.setup = true;
                    RtspStatus::Okay
                } else {
                    RtspStatus::NotFound
                }
            },
            RtspMethod::Play => {
                if self.setup {
                    self.playing = true;
                    RtspStatus::Okay
                } else {
                    RtspStatus::BadRequest
                }
            },
            RtspMethod::Pause => {
                self.playing = false;
                RtspStatus::Okay
            },
            RtspMethod::Teardown => {
                self.setup = false;
                self.playing = false;
                self.running = false;
                RtspStatus::Okay
            },
            _ => RtspStatus::Okay,
        }
    }
}

} // verus!
