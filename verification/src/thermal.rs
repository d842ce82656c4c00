use crate::command::emissivity_command;
use crate::filter::{filter_image, spec_filter_stage};
use crate::image::{
    decode_raster, lemma_min_max_bounds, lemma_uniform_min_max, min_max, spec_max, spec_min,
    GrayImage, Rgb,
};
use crate::image_utils::{flip_image, lemma_flip_src_involution, spec_flip, Flip, Scaled};
use crate::messages::{settings_of, ConnectionStatus, Frame, ProducerMessage, UiMessage};
use crate::palette::{
    colorize_image, lemma_uniform_raster_colors, spec_color_at, spec_colorize,
};
use crate::settings::{kernel_matches, spec_default_settings, Kernel, Settings};
use vstd::prelude::*;

verus! {

/// Raster width of the sensor, in samples.
pub const THERMAL_IMAGE_WIDTH: usize = 32;

/// Raster height of the sensor, in samples.
pub const THERMAL_IMAGE_HEIGHT: usize = 32;

/// Bytes of one full raster on the wire: two per 16-bit sample.
pub const THERMAL_IMAGE_BYTES: usize = 2048;

/// The transport could not be opened: device not found, busy, or an
/// operating-system error. Never fatal; the worker retries each cycle.
pub struct OpenError {
    pub message: String,
}

/// A read or write failed on an open stream.
pub struct IoError {
    pub message: String,
}

/// A connected, blocking byte stream to the device. Implementors live
/// outside the library, one per platform transport. The library relies
/// on `read_exact_bytes` returning exactly `n` bytes whenever it
/// succeeds; nothing is assumed about the bytes themselves.
pub trait ReadWrite {
    /// Read exactly `n` bytes, blocking up to the transport's own timeout.
    /// A short read is a failure, not a partial result.
    fn read_exact_bytes(&mut self, n: usize) -> (r: Result<Vec<u8>, IoError>)
        ensures
            r matches Ok(b) ==> b@.len() == n,
    ;

    /// Write all of `data` to the device.
    fn write_all_bytes(&mut self, data: &Vec<u8>) -> (r: Result<(), IoError>);
}

/// The transport opener: produces a connected byte stream on demand, and
/// may fail. Implementors live outside the library, one per platform.
pub trait PortOpener {
    type RW: ReadWrite;

    fn open(&mut self) -> (r: Result<Self::RW, OpenError>);
}

/// The connection state after one cycle whose open attempt (made only
/// when no stream was held) succeeded iff `ok`.
pub open spec fn conn_next(open_before: bool, ok: bool) -> bool {
    open_before || ok
}

/// One transition of the connection state machine: an attempt is made
/// exactly when no stream is held, and the state becomes open exactly
/// when the attempt succeeds; an open connection is left alone.
pub open spec fn conn_step(
    open_before: bool,
    attempted: bool,
    succeeded: bool,
    open_after: bool,
) -> bool {
    &&& attempted == !open_before
    &&& succeeded ==> attempted
    &&& open_after == conn_next(open_before, attempted && succeeded)
}

/// The connection state after a run of cycles whose open attempts (made
/// while closed) succeed as `outcomes` says.
pub open spec fn conn_open_after_run(open_before: bool, outcomes: Seq<bool>) -> bool
    decreases outcomes.len(),
{
    if outcomes.len() == 0 {
        open_before
    } else {
        conn_open_after_run(
            conn_next(open_before, !open_before && outcomes[0]),
            outcomes.drop_first(),
        )
    }
}

/// How many open attempts a run of cycles makes: one per cycle that
/// starts without a stream.
pub open spec fn conn_attempts_in_run(open_before: bool, outcomes: Seq<bool>) -> int
    decreases outcomes.len(),
{
    if outcomes.len() == 0 {
        0
    } else {
        (if open_before {
            0int
        } else {
            1int
        }) + conn_attempts_in_run(
            conn_next(open_before, !open_before && outcomes[0]),
            outcomes.drop_first(),
        )
    }
}

/// How many `Connected` notices a run of cycles emits: one per cycle
/// whose open attempt succeeds.
pub open spec fn conn_connects_in_run(open_before: bool, outcomes: Seq<bool>) -> int
    decreases outcomes.len(),
{
    if outcomes.len() == 0 {
        0
    } else {
        (if !open_before && outcomes[0] {
            1int
        } else {
            0int
        }) + conn_connects_in_run(
            conn_next(open_before, !open_before && outcomes[0]),
            outcomes.drop_first(),
        )
    }
}

/// Against a transport that fails exactly `n` times and then succeeds, a
/// closed connection manager makes exactly `n + 1` open attempts, emits
/// `Connected` exactly once, over the whole run, and holds an open
/// stream after the successful attempt.
pub proof fn lemma_retry_until_success(outcomes: Seq<bool>, n: int)
    requires
        0 <= n,
        outcomes.len() == n + 1,
        forall|i: int| 0 <= i < n ==> !outcomes[i],
        outcomes[n],
    ensures
        conn_attempts_in_run(false, outcomes) == n + 1,
        conn_connects_in_run(false, outcomes) == 1,
        conn_open_after_run(false, outcomes),
    decreases n,
{
    let rest = outcomes.drop_first();
    if n == 0 {
        assert(outcomes[0]);
        assert(rest.len() == 0);
        assert(conn_attempts_in_run(true, rest) == 0);
        assert(conn_connects_in_run(true, rest) == 0);
        assert(conn_open_after_run(true, rest));
    } else {
        assert(!outcomes[0]);
        assert forall|i: int| 0 <= i < n - 1 implies !rest[i] by {
            assert(rest[i] == outcomes[i + 1]);
        }
        assert(rest[n - 1] == outcomes[n]);
        lemma_retry_until_success(rest, n - 1);
        assert(conn_next(false, !false && outcomes[0]) == false);
    }
}

/// While every attempt fails, the manager stays closed, attempts once
/// per cycle, and emits no `Connected` notice at all.
pub proof fn lemma_no_connect_while_failing(outcomes: Seq<bool>)
    requires
        forall|i: int| 0 <= i < outcomes.len() ==> !outcomes[i],
    ensures
        conn_attempts_in_run(false, outcomes) == outcomes.len(),
        conn_connects_in_run(false, outcomes) == 0,
        !conn_open_after_run(false, outcomes),
    decreases outcomes.len(),
{
    if outcomes.len() > 0 {
        let rest = outcomes.drop_first();
        assert(forall|i: int| 0 <= i < rest.len() ==> !rest[i]);
        lemma_no_connect_while_failing(rest);
    }
}

/// What the connection-management step of one cycle did.
#[derive(Clone, Copy, PartialEq, Eq, Structural, Debug)]
pub struct EnsureOutcome {
    pub attempted: bool,
    pub succeeded: bool,
}

/// What one raster read did.
pub enum ReadOutcome {
    /// No stream was held; nothing was read.
    NotConnected,
    /// A full raster was decoded from the stream.
    Raster(GrayImage),
    /// The read failed; the stream has been dropped.
    Failed,
}

/// What one cycle of the orchestration loop hands back: the messages to
/// publish, in order, and whether the loop should back off for a second
/// before the next cycle (an open attempt failed).
pub struct CycleOutput {
    pub messages: Vec<ProducerMessage>,
    pub backoff: bool,
}

/// The image of a frame rendered from filtered raster samples under the
/// given settings: the samples are colorized over their own dynamic
/// range, then mirrored as the settings ask.
pub open spec fn spec_frame_image(
    samples: Seq<u16>,
    width: int,
    height: int,
    settings: Settings,
) -> Seq<Rgb> {
    let colored = spec_colorize(
        samples,
        settings.colormap,
        settings.color_range,
        spec_min(samples),
        spec_max(samples),
    );
    let mirrored = if settings.flip_horizontally {
        spec_flip(colored, width, height, Flip::Horizontal)
    } else {
        colored
    };
    if settings.flip_vertically {
        spec_flip(mirrored, width, height, Flip::Vertical)
    } else {
        mirrored
    }
}

/// A raster whose samples are all equal renders safely to a single
/// color: the frame's minimum and maximum coincide, and every pixel is
/// the palette midpoint, whatever the color range and mirroring. The
/// normalization that would divide by the dynamic range is bypassed, so
/// a degenerate range cannot corrupt the output.
pub proof fn lemma_uniform_frame(samples: Seq<u16>, settings: Settings, v: u16)
    requires
        samples.len() == 1024,
        forall|i: int| 0 <= i < samples.len() ==> samples[i] == v,
    ensures
        spec_min(samples) == spec_max(samples),
        forall|i: int|
            0 <= i < spec_frame_image(samples, 32, 32, settings).len()
                ==> #[trigger] spec_frame_image(samples, 32, 32, settings)[i] == spec_color_at(
                settings.colormap,
                Scaled { num: 1, den: 2 },
            ),
{
    lemma_uniform_min_max(samples, v);
    lemma_uniform_raster_colors(samples, settings.colormap, settings.color_range, v);
    let mid = spec_color_at(settings.colormap, Scaled { num: 1, den: 2 });
    let colored = spec_colorize(
        samples,
        settings.colormap,
        settings.color_range,
        spec_min(samples),
        spec_max(samples),
    );
    assert(forall|i: int| 0 <= i < colored.len() ==> #[trigger] colored[i] == mid);
    let mirrored = if settings.flip_horizontally {
        spec_flip(colored, 32, 32, Flip::Horizontal)
    } else {
        colored
    };
    assert forall|i: int| 0 <= i < mirrored.len() implies #[trigger] mirrored[i] == mid by {
        if settings.flip_horizontally {
            lemma_flip_src_involution(i, 32, 32, Flip::Horizontal);
        }
    }
    let image = if settings.flip_vertically {
        spec_flip(mirrored, 32, 32, Flip::Vertical)
    } else {
        mirrored
    };
    assert forall|i: int| 0 <= i < image.len() implies #[trigger] image[i] == mid by {
        if settings.flip_vertically {
            lemma_flip_src_involution(i, 32, 32, Flip::Vertical);
        }
    }
    assert(image == spec_frame_image(samples, 32, 32, settings));
}

/// A frame as the worker publishes it: rendered by the pipeline from the
/// filtered samples of some full raster, under the given settings.
pub open spec fn frame_sound(f: Frame, settings: Settings) -> bool {
    exists|samples: Seq<u16>|
        {
            &&& (#[trigger] samples.len()) == 1024
            &&& f.image.wf()
            &&& f.image.width == 32
            &&& f.image.height == 32
            &&& f.image.data@ == spec_frame_image(samples, 32, 32, settings)
            &&& f.min == spec_min(samples)
            &&& f.max == spec_max(samples)
        }
}

/// The acquisition-and-processing worker: owns the transport, the live
/// stream if any, the settings in force, and the kernel derived from
/// them.
pub struct ImageProducer<T: PortOpener> {
    pub opener: T,
    pub rw: Option<T::RW>,
    pub settings: Settings,
    pub kernel: Option<Kernel>,
}

impl<T: PortOpener> ImageProducer<T> {
    /// The settings are in range and the cached kernel is the one the
    /// settings call for.
    pub open spec fn wf(&self) -> bool {
        &&& self.settings.valid()
        &&& kernel_matches(self.kernel, self.settings.filtering_method, self.settings.edge_strategy)
        &&& self.kernel matches Some(k) ==> k.wf()
    }

    /// Whether a live stream is held.
    pub open spec fn connected(&self) -> bool {
        self.rw is Some
    }

    /// A new worker with default settings and no connection.
    pub fn new(opener: T) -> (p: ImageProducer<T>)
        ensures
            p.wf(),
            !p.connected(),
            p.settings == spec_default_settings(),
            p.opener == opener,
    {
        let settings = Settings::default();
        let kernel = settings.get_kernel();
        ImageProducer { opener, rw: Option::None, settings, kernel }
    }

    /// Device command writer: encode the emissivity command and write it
    /// to the stream, if one is held. Fire and forget: a write failure is
    /// not escalated and the connection stays open.
    pub fn write_emissivity(&mut self)
        requires
            old(self).wf(),
        ensures
            final(self).wf(),
            final(self).settings == old(self).settings,
            final(self).kernel == old(self).kernel,
            final(self).connected() == old(self).connected(),
    {
        let cmd = emissivity_command(self.settings.emissivity);
        match self.rw.as_mut() {
            Option::Some(rw) => {
                let _ = rw.write_all_bytes(&cmd);
            },
            Option::None => {},
        }
    }

    /// Connection manager: a no-op while a stream is held. Otherwise one
    /// open attempt; on success the stream is stored and the emissivity
    /// command written to it. On failure the caller backs off and retries
    /// next cycle; the retry count is unbounded.
    pub fn ensure_port_opened(&mut self) -> (out: EnsureOutcome)
        requires
            old(self).wf(),
        ensures
            final(self).wf(),
            final(self).settings == old(self).settings,
            final(self).kernel == old(self).kernel,
            conn_step(old(self).connected(), out.attempted, out.succeeded, final(self).connected()),
            !out.attempted ==> *final(self) == *old(self),
    {
        if self.rw.is_some() {
            return EnsureOutcome { attempted: false, succeeded: false };
        }
        match self.opener.open() {
            Result::Ok(rw) => {
                self.rw = Option::Some(rw);
                self.write_emissivity();
                EnsureOutcome { attempted: true, succeeded: true }
            },
            Result::Err(_) => EnsureOutcome { attempted: true, succeeded: false },
        }
    }

    /// Frame reader: pull one full raster from the stream. A short read
    /// or I/O error drops the stream and discards the raster entirely;
    /// no partial raster is ever surfaced.
    pub fn read_image(&mut self) -> (r: ReadOutcome)
        requires
            old(self).wf(),
        ensures
            final(self).wf(),
            final(self).settings == old(self).settings,
            final(self).kernel == old(self).kernel,
            match r {
                ReadOutcome::NotConnected => !old(self).connected() && *final(self) == *old(self),
                ReadOutcome::Raster(g) => {
                    &&& old(self).connected()
                    &&& final(self).connected()
                    &&& g.wf()
                    &&& g.width == 32
                    &&& g.height == 32
                },
                ReadOutcome::Failed => old(self).connected() && !final(self).connected(),
            },
    {
        let bytes = match self.rw.as_mut() {
            Option::Some(rw) => rw.read_exact_bytes(THERMAL_IMAGE_BYTES),
            Option::None => {
                return ReadOutcome::NotConnected;
            },
        };
        match bytes {
            Result::Ok(bytes) => {
                let img = decode_raster(&bytes, THERMAL_IMAGE_WIDTH, THERMAL_IMAGE_HEIGHT);
                ReadOutcome::Raster(img)
            },
            Result::Err(_) => {
                self.rw = Option::None;
                ReadOutcome::Failed
            },
        }
    }

    /// The pipeline of one raster: filter, measure the dynamic range,
    /// colorize, mirror. Pure: the worker state is unchanged and the
    /// frame is a function of the raster and the settings in force.
    pub fn produce_thermal_frame(&self, gray_image: &GrayImage) -> (f: Frame)
        requires
            self.wf(),
            gray_image.wf(),
            gray_image.width == 32,
            gray_image.height == 32,
        ensures
            ({
                let filtered = spec_filter_stage(*gray_image, self.kernel);
                &&& f.image.wf()
                &&& f.image.width == 32
                &&& f.image.height == 32
                &&& f.image.data@ == spec_frame_image(filtered, 32, 32, self.settings)
                &&& f.min == spec_min(filtered)
                &&& f.max == spec_max(filtered)
            }),
    {
        let filtered = filter_image(gray_image, &self.kernel);
        let range = min_max(&filtered);
        proof {
            lemma_min_max_bounds(filtered.data@);
        }
        let colored = colorize_image(
            &filtered,
            self.settings.colormap,
            self.settings.color_range,
            range.0,
            range.1,
        );
        let mirrored = if self.settings.flip_horizontally {
            flip_image(&colored, Flip::Horizontal)
        } else {
            colored
        };
        let image = if self.settings.flip_vertically {
            flip_image(&mirrored, Flip::Vertical)
        } else {
            mirrored
        };
        Frame { image, min: range.0, max: range.1 }
    }
}

/// Settings coalescing: of all snapshots pending in one cycle only the
/// last takes effect; earlier ones are discarded unapplied.
pub fn coalesce_settings(pending: &Vec<UiMessage>) -> (r: Option<Settings>)
    ensures
        pending@.len() == 0 ==> r is None,
        pending@.len() > 0 ==> r == Option::Some(settings_of(pending@.last())),
{
    let n = pending.len();
    let mut r: Option<Settings> = Option::None;
    let mut i: usize = 0;
    while i < n
        invariant
            i <= n,
            n == pending@.len(),
            i == 0 ==> r is None,
            i > 0 ==> r == Option::Some(settings_of(pending@[i - 1])),
        decreases n - i,
    {
        match &pending[i] {
            UiMessage::ChangeSettings(s) => {
                r = Option::Some(*s);
            },
        }
        i = i + 1;
    }
    r
}

impl<T: PortOpener> ImageProducer<T> {
    /// One cycle of the orchestration loop: ensure a connection, apply
    /// the last pending settings snapshot (recomputing the kernel and
    /// re-sending the emissivity command), then read, filter, colorize
    /// and mirror one raster and publish it. On a failed open the caller
    /// backs off; on a failed read the stream is dropped and the display
    /// layer notified.
    pub fn cycle(&mut self, pending: &Vec<UiMessage>) -> (out: CycleOutput)
        requires
            old(self).wf(),
            forall|i: int|
                0 <= i < pending@.len() ==> settings_of(#[trigger] pending@[i]).valid(),
        ensures
            final(self).wf(),
            // last-write-wins coalescing
            final(self).settings == (if pending@.len() > 0 {
                settings_of(pending@.last())
            } else {
                old(self).settings
            }),
            // backing off means the cycle attempted an open and stayed closed
            out.backoff ==> !old(self).connected() && !final(self).connected(),
            cycle_messages_ok(
                out.messages@,
                old(self).connected(),
                final(self).connected(),
                out.backoff,
                final(self).settings,
            ),
    {
        let mut messages: Vec<ProducerMessage> = Vec::new();
        let ensure = self.ensure_port_opened();
        let backoff = ensure.attempted && !ensure.succeeded;
        let ghost opened = ensure.attempted && ensure.succeeded;
        let ghost conn_part: Seq<ProducerMessage> = if opened {
            seq![ProducerMessage::ConnectionStatusChange(ConnectionStatus::Connected)]
        } else {
            Seq::empty()
        };
        if ensure.attempted && ensure.succeeded {
            messages.push(
                ProducerMessage::ConnectionStatusChange(ConnectionStatus::Connected),
            );
        }
        proof {
            assert(messages@ =~= conn_part);
            assert(opened == conn_opened(old(self).connected(), backoff));
        }
        let new_settings = coalesce_settings(pending);
        match new_settings {
            Option::Some(s) => {
                self.settings = s;
                self.kernel = self.settings.get_kernel();
                self.write_emissivity();
            },
            Option::None => {},
        }
        let read = self.read_image();
        match read {
            ReadOutcome::Raster(g) => {
                let frame = self.produce_thermal_frame(&g);
                proof {
                    let samples = spec_filter_stage(g, self.kernel);
                    assert(samples.len() == 1024);
                    assert(frame_sound(frame, self.settings));
                }
                messages.push(ProducerMessage::Frame(frame));
                proof {
                    assert(messages@.take(conn_part.len() as int) =~= conn_part);
                    assert(messages@.last() == ProducerMessage::Frame(frame));
                }
            },
            ReadOutcome::Failed => {
                messages.push(
                    ProducerMessage::ConnectionStatusChange(ConnectionStatus::Disconnected),
                );
                proof {
                    assert(messages@ =~= conn_part + seq![
                        ProducerMessage::ConnectionStatusChange(ConnectionStatus::Disconnected),
                    ]);
                }
            },
            ReadOutcome::NotConnected => {},
        }
        CycleOutput { messages, backoff }
    }
}

/// Whether a cycle opened a previously closed connection: an attempt was
/// made and did not end in a backoff.
pub open spec fn conn_opened(open_before: bool, backoff: bool) -> bool {
    !open_before && !backoff
}

/// The messages one cycle publishes, in order: a `Connected` notice
/// exactly when a closed connection was opened; then one frame message,
/// sound for the settings now in force, if a raster was read; or a
/// `Disconnected` notice if the stream was live and the read failed; and
/// nothing else.
pub open spec fn cycle_messages_ok(
    messages: Seq<ProducerMessage>,
    open_before: bool,
    open_after: bool,
    backoff: bool,
    settings: Settings,
) -> bool {
    let opened = conn_opened(open_before, backoff);
    let was_live = open_before || opened;
    let dropped = was_live && !open_after;
    let conn_part: Seq<ProducerMessage> = if opened {
        seq![ProducerMessage::ConnectionStatusChange(ConnectionStatus::Connected)]
    } else {
        Seq::empty()
    };
    if !was_live {
        messages == conn_part
    } else if dropped {
        messages == conn_part + seq![
            ProducerMessage::ConnectionStatusChange(ConnectionStatus::Disconnected),
        ]
    } else {
        &&& messages.len() == conn_part.len() + 1
        &&& messages.take(conn_part.len() as int) == conn_part
        &&& messages.last() matches ProducerMessage::Frame(f) && frame_sound(f, settings)
    }
}

} // verus!
