//! The graphics surface lifecycle: negotiating a presentable surface
//! configuration, tracking it across resizes, and deciding how a per-frame
//! acquire/present cycle reacts to the driver's acquisition outcomes.
//!
//! The GPU driver itself is driven by the (unverified) shell around the
//! library; this module holds every decision that shell has to make, as
//! total functions over plain values.

use vstd::prelude::*;

verus! {

/// The number of frames the driver may queue ahead of presentation.
pub const MAX_FRAME_LATENCY: u32 = 2;

/// Why initialization could not produce a usable context. Each variant
/// corresponds to one step of the negotiation; a failed step is fatal and
/// no partial context is produced.
#[derive(Clone, Copy, Debug, PartialEq, Eq, Structural)]
pub enum InitError {
    /// Binding a presentable surface to the window failed.
    SurfaceCreationFailed,
    /// No adapter compatible with the surface was offered by the driver.
    AdapterUnavailable,
    /// The adapter refused to hand out a logical device and queue.
    DeviceRequestFailed,
    /// The adapter reported an empty list of supported surface formats.
    NoSupportedSurfaceFormat,
}

/// Why a presentation call failed.
#[derive(Clone, Copy, Debug, PartialEq, Eq, Structural)]
pub enum PresentError {
    /// Acquisition failed again right after a reconfigure-and-retry; the
    /// caller should give up on this frame rather than retry forever.
    FrameAcquisitionFailed,
    /// A non-recoverable failure: the device, queue and surface must be
    /// reinitialized from scratch.
    DeviceLost,
}

/// The presentation mode of the surface; only the vertical-sync-locked
/// (no tearing) mode is ever negotiated.
#[derive(Clone, Copy, Debug, PartialEq, Eq, Structural)]
pub enum PresentMode {
    VsyncLocked,
}

/// The alpha compositing mode of the surface; the driver's automatic
/// choice is always accepted.
#[derive(Clone, Copy, Debug, PartialEq, Eq, Structural)]
pub enum AlphaMode {
    Automatic,
}

/// The negotiated presentation parameters applied to the surface. After
/// initialization only `width` and `height` ever change.
///
/// `format` is a caller-chosen code for a pixel format (for instance an
/// index into the adapter's capability list); the library never interprets
/// it beyond picking and storing one.
#[derive(Clone, Copy, Debug, PartialEq, Eq, Structural)]
pub struct SurfaceConfig {
    pub format: u32,
    pub width: u32,
    pub height: u32,
    pub present_mode: PresentMode,
    pub alpha_mode: AlphaMode,
    pub frame_latency: u32,
}

/// The configuration negotiated at initialization time: the first
/// supported format, the window's current size, and the fixed
/// presentation parameters.
pub open spec fn initial_config(format: u32, width: u32, height: u32) -> SurfaceConfig {
    SurfaceConfig {
        format,
        width,
        height,
        present_mode: PresentMode::VsyncLocked,
        alpha_mode: AlphaMode::Automatic,
        frame_latency: MAX_FRAME_LATENCY,
    }
}

/// `config` with its size overwritten and every negotiated field kept.
pub open spec fn resized_config(config: SurfaceConfig, width: u32, height: u32) -> SurfaceConfig {
    SurfaceConfig { width, height, ..config }
}

/// The context that owns the negotiated surface configuration for one
/// window. The adapter-derived device, queue and surface live with the
/// unverified shell; this model carries everything the shell's decisions
/// depend on.
#[derive(Clone, Copy, Debug, PartialEq, Eq, Structural)]
pub struct Renderer {
    pub config: SurfaceConfig,
}

impl Renderer {
    /// Negotiate the surface configuration: select the first supported
    /// format reported by the adapter, or fail when the list is empty.
    /// Either a fully configured context is produced or none at all.
    ///
    /// `formats` are the adapter's supported surface formats in the order
    /// it reported them; `width` and `height` are the window's current
    /// physical size.
    pub fn new(formats: &Vec<u32>, width: u32, height: u32) -> (result: Result<Renderer, InitError>)
        ensures
            formats@.len() > 0 ==> result == Ok::<Renderer, InitError>(
                Renderer { config: initial_config(formats@[0], width, height) },
            ),
            formats@.len() == 0 ==> result == Err::<Renderer, InitError>(
                InitError::NoSupportedSurfaceFormat,
            ),
    {
        if formats.len() == 0 {
            Err(InitError::NoSupportedSurfaceFormat)
        } else {
            let format = formats[0];
            Ok(Renderer {
                config: SurfaceConfig {
                    format,
                    width,
                    height,
                    present_mode: PresentMode::VsyncLocked,
                    alpha_mode: AlphaMode::Automatic,
                    frame_latency: MAX_FRAME_LATENCY,
                },
            })
        }
    }

    /// Record a window size change. Degenerate sizes (a zero width or
    /// height) are accepted like any other: the surface merely becomes
    /// non-presentable until the next valid size, which the per-frame
    /// cycle handles as a recoverable outcome.
    pub fn resize(&mut self, width: u32, height: u32)
        ensures
            final(self).config == resized_config(old(self).config, width, height),
    {
        self.config.width = width;
        self.config.height = height;
    }
}

/// What the driver reported when the shell tried to acquire the next
/// presentable image from the surface.
#[derive(Clone, Copy, Debug, PartialEq, Eq, Structural)]
pub enum AcquireOutcome {
    /// An image was acquired and can be presented.
    Acquired,
    /// The surface no longer matches the window (a resize, a display
    /// change): recoverable by reconfiguring with the current config.
    Outdated,
    /// The surface was lost and must be reconfigured: recoverable the
    /// same way as `Outdated`.
    Lost,
    /// Any other failure, such as a true device loss.
    OtherFailure,
}

/// What the shell does next within one presentation call.
#[derive(Clone, Copy, Debug, PartialEq, Eq, Structural)]
pub enum FrameAction {
    /// Present the acquired image immediately.
    Present,
    /// Reconfigure the surface with the current config, then acquire
    /// once more and feed the outcome back into the cycle.
    ReconfigureAndRetry,
    /// Give up on this frame with the given error.
    Fail(PresentError),
}

/// The reaction to one acquisition outcome. `retried` says whether this
/// cycle already spent its one reconfigure-and-retry.
///
/// A fresh cycle recovers from an outdated or lost surface by exactly
/// one reconfigure-and-retry; an outdated or lost surface right after
/// that retry is surfaced as a failed acquisition instead of retried
/// again. Any failure kind other than outdated/lost is reported as a
/// device loss and never retried, whichever attempt reports it.
pub open spec fn step_action(retried: bool, outcome: AcquireOutcome) -> FrameAction {
    match outcome {
        AcquireOutcome::Acquired => FrameAction::Present,
        AcquireOutcome::Outdated | AcquireOutcome::Lost => if retried {
            FrameAction::Fail(PresentError::FrameAcquisitionFailed)
        } else {
            FrameAction::ReconfigureAndRetry
        },
        AcquireOutcome::OtherFailure => FrameAction::Fail(PresentError::DeviceLost),
    }
}

/// One presentation call's acquire/present cycle. The shell begins a
/// fresh cycle per redraw request, reports each acquisition outcome and
/// performs the returned action; the cycle guarantees the
/// reconfigure-and-retry happens at most once per call.
pub struct PresentCycle {
    retried: bool,
}

impl PresentCycle {
    /// Whether this cycle has already issued its one
    /// reconfigure-and-retry.
    pub closed spec fn has_retried(self) -> bool {
        self.retried
    }

    /// Start the cycle for one presentation call: no retry spent yet.
    pub fn begin() -> (cycle: PresentCycle)
        ensures
            !cycle.has_retried(),
    {
        PresentCycle { retried: false }
    }

    /// React to one acquisition outcome. Total over all outcomes: every
    /// driver report maps to a defined action, never to a fault.
    pub fn step(&mut self, outcome: AcquireOutcome) -> (action: FrameAction)
        ensures
            action == step_action(old(self).has_retried(), outcome),
            final(self).has_retried() == (old(self).has_retried() || action
                == FrameAction::ReconfigureAndRetry),
    {
        let action = match outcome {
            AcquireOutcome::Acquired => FrameAction::Present,
            AcquireOutcome::Outdated | AcquireOutcome::Lost => if self.retried {
                FrameAction::Fail(PresentError::FrameAcquisitionFailed)
            } else {
                FrameAction::ReconfigureAndRetry
            },
            AcquireOutcome::OtherFailure => FrameAction::Fail(PresentError::DeviceLost),
        };
        if matches!(action, FrameAction::ReconfigureAndRetry) {
            self.retried = true;
        }
        action
    }
}

/// A single outdated (or lost) acquisition is followed by exactly one
/// automatic reconfigure-and-retry: the fresh cycle reacts to it with
/// `ReconfigureAndRetry` and to nothing else, a cycle that already
/// retried never retries again, and a second consecutive outdated or
/// lost surface is surfaced as `FrameAcquisitionFailed`.
pub proof fn lemma_retry_exactly_once(outcome: AcquireOutcome)
    ensures
        step_action(false, AcquireOutcome::Outdated) == FrameAction::ReconfigureAndRetry,
        step_action(false, AcquireOutcome::Lost) == FrameAction::ReconfigureAndRetry,
        step_action(false, outcome) == FrameAction::ReconfigureAndRetry ==> (outcome
            == AcquireOutcome::Outdated || outcome == AcquireOutcome::Lost),
        step_action(true, outcome) != FrameAction::ReconfigureAndRetry,
        (outcome == AcquireOutcome::Outdated || outcome == AcquireOutcome::Lost) ==> step_action(
            true,
            outcome,
        ) == FrameAction::Fail(PresentError::FrameAcquisitionFailed),
        step_action(true, AcquireOutcome::OtherFailure) == FrameAction::Fail(
            PresentError::DeviceLost,
        ),
{
}

/// Every acquisition outcome of a fresh cycle gets a defined reaction:
/// success is presented, an outdated or lost surface is recovered by a
/// reconfigure-and-retry, and only a genuine device loss is surfaced as
/// fatal. In particular the presentation call after a degenerate resize
/// ends in presentation, recovery or a typed error, never in a fault.
pub proof fn lemma_first_attempt_defined(outcome: AcquireOutcome)
    ensures
        outcome == AcquireOutcome::Acquired ==> step_action(false, outcome)
            == FrameAction::Present,
        (outcome == AcquireOutcome::Outdated || outcome == AcquireOutcome::Lost) ==> step_action(
            false,
            outcome,
        ) == FrameAction::ReconfigureAndRetry,
        outcome == AcquireOutcome::OtherFailure ==> step_action(false, outcome)
            == FrameAction::Fail(PresentError::DeviceLost),
{
}

/// The stored configuration after a sequence of resizes, applied oldest
/// first.
pub open spec fn apply_resizes(config: SurfaceConfig, sizes: Seq<(u32, u32)>) -> SurfaceConfig
    decreases sizes.len(),
{
    if sizes.len() == 0 {
        config
    } else {
        resized_config(apply_resizes(config, sizes.drop_last()), sizes.last().0, sizes.last().1)
    }
}

/// After any sequence of resize calls the stored width and height equal
/// the most recently supplied size, and every negotiated field keeps
/// the value initialization chose.
pub proof fn lemma_resize_last_wins(config: SurfaceConfig, sizes: Seq<(u32, u32)>)
    requires
        sizes.len() > 0,
    ensures
        apply_resizes(config, sizes).width == sizes.last().0,
        apply_resizes(config, sizes).height == sizes.last().1,
        apply_resizes(config, sizes).format == config.format,
        apply_resizes(config, sizes).present_mode == config.present_mode,
        apply_resizes(config, sizes).alpha_mode == config.alpha_mode,
        apply_resizes(config, sizes).frame_latency == config.frame_latency,
    decreases sizes.len(),
{
    if sizes.len() == 1 {
        assert(sizes.drop_last().len() == 0);
        assert(apply_resizes(config, sizes.drop_last()) == config);
    } else {
        lemma_resize_last_wins(config, sizes.drop_last());
    }
}

} // verus!
