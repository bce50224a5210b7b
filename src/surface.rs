//! The presentation surface's configuration and its agreement with the window.
//!
//! Formats, present modes and alpha modes are named by their index in the
//! capability lists that the adapter reported for the surface.
use vstd::prelude::*;

verus! {

/// Frames the presentation engine may queue before it blocks the producer.
pub const FRAME_LATENCY: u32 = 2;

/// Consecutive failed acquisitions after which the surface is given up.
pub const MAX_SURFACE_RETRIES: u32 = 3;

/// A surface configuration; replaced as a whole, never edited in place.
#[derive(Clone, Copy, Debug, PartialEq, Eq, Structural)]
pub struct SurfaceConfig {
    /// Index of the color format among the supported formats.
    pub format: usize,
    /// Index of the present mode among the supported present modes.
    pub present_mode: usize,
    /// Index of the alpha mode among the supported alpha modes.
    pub alpha_mode: usize,
    pub width: u32,
    pub height: u32,
    pub frame_latency: u32,
}

/// The preferred format: the first sRGB-capable one, else the first one.
pub open spec fn preferred_format(srgb: Seq<bool>) -> int {
    if exists|i: int| 0 <= i < srgb.len() && srgb[i] {
        choose|i: int| 0 <= i < srgb.len() && srgb[i] && forall|j: int| 0 <= j < i ==> !srgb[j]
    } else {
        0
    }
}

proof fn lemma_preferred_format(srgb: Seq<bool>, k: int)
    requires
        0 <= k < srgb.len(),
        srgb[k],
        forall|j: int| 0 <= j < k ==> !srgb[j],
    ensures
        preferred_format(srgb) == k,
{
    let p = preferred_format(srgb);
    assert(0 <= p < srgb.len() && srgb[p] && forall|j: int| 0 <= j < p ==> !srgb[j]);
    if p < k {
        assert(!srgb[p]);
    }
    if k < p {
        assert(!srgb[k]);
    }
}

impl SurfaceConfig {
    /// The same configuration for a surface of `width` by `height` pixels.
    pub open spec fn with_size_spec(self, width: u32, height: u32) -> SurfaceConfig {
        SurfaceConfig { width, height, ..self }
    }

    pub fn with_size(&self, width: u32, height: u32) -> (r: SurfaceConfig)
        ensures
            r == self.with_size_spec(width, height),
    {
        SurfaceConfig { width, height, ..*self }
    }
}

/// The initial configuration of a surface of `width` by `height` pixels, given
/// which supported formats are sRGB-capable and how many present and alpha
/// modes are supported. `None` when any of those lists is empty: the adapter
/// cannot present to the surface.
pub fn create_surface_configuration(
    srgb_formats: &Vec<bool>,
    present_modes: usize,
    alpha_modes: usize,
    width: u32,
    height: u32,
) -> (r: Option<SurfaceConfig>)
    ensures
        (srgb_formats.len() == 0 || present_modes == 0 || alpha_modes == 0) <==> r is None,
        r matches Some(c) ==> c == (SurfaceConfig {
            format: preferred_format(srgb_formats@) as usize,
            present_mode: 0,
            alpha_mode: 0,
            width,
            height,
            frame_latency: FRAME_LATENCY,
        }),
{
    if srgb_formats.len() == 0 || present_modes == 0 || alpha_modes == 0 {
        return None;
    }
    let mut i: usize = 0;
    while i < srgb_formats.len()
        invariant
            0 <= i <= srgb_formats.len(),
            srgb_formats.len() > 0 && present_modes > 0 && alpha_modes > 0,
            forall|j: int| 0 <= j < i ==> !srgb_formats@[j],
        decreases srgb_formats.len() - i,
    {
        if srgb_formats[i] {
            proof {
                lemma_preferred_format(srgb_formats@, i as int);
            }
            return Some(initial_config(i, width, height));
        }
        i = i + 1;
    }
    Some(initial_config(0, width, height))
}

fn initial_config(format: usize, width: u32, height: u32) -> (r: SurfaceConfig)
    ensures
        r == (SurfaceConfig {
            format,
            present_mode: 0,
            alpha_mode: 0,
            width,
            height,
            frame_latency: FRAME_LATENCY,
        }),
{
    SurfaceConfig { format, present_mode: 0, alpha_mode: 0, width, height, frame_latency: FRAME_LATENCY }
}

/// How an attempt to acquire the next frame ended.
#[derive(Clone, Copy, Debug, PartialEq, Eq, Structural)]
pub enum AcquireStatus {
    Ready,
    /// The surface was lost and must be configured again.
    Lost,
    /// The surface no longer matches the window and must be configured again.
    Outdated,
    /// No image became available in time.
    Timeout,
    /// Any other failure; not recoverable.
    Failed,
}

/// What the host does after an acquisition.
#[derive(Clone, Copy, Debug, PartialEq, Eq, Structural)]
pub enum AcquireAction {
    /// Draw into the acquired frame.
    Render,
    /// Configure the surface again with the active configuration and skip this frame.
    Reconfigure,
    /// Skip this frame and retry on the next one.
    Retry,
    /// Stop: the surface cannot be recovered.
    Fatal,
}

/// Errors of the surface.
#[derive(Clone, Copy, Debug, PartialEq, Eq, Structural)]
pub enum SurfaceError {
    /// The window was resized and the surface has not been configured for its new size.
    StaleSize,
}

/// The active configuration, the window's current physical size, and how many
/// acquisitions in a row have failed.
#[derive(Clone, Copy, Debug, PartialEq, Eq, Structural)]
pub struct SurfaceState {
    pub config: SurfaceConfig,
    pub window_width: u32,
    pub window_height: u32,
    pub failures: u32,
}

impl SurfaceState {
    pub open spec fn wf(&self) -> bool {
        self.failures < MAX_SURFACE_RETRIES
    }

    pub open spec fn is_current(&self) -> bool {
        self.config.width == self.window_width && self.config.height == self.window_height
    }

    pub open spec fn resized_spec(self, width: u32, height: u32) -> SurfaceState {
        SurfaceState { window_width: width, window_height: height, ..self }
    }

    pub open spec fn reconfigured_spec(self, width: u32, height: u32) -> SurfaceState {
        SurfaceState { config: self.config.with_size_spec(width, height), ..self }
    }

    pub open spec fn new_spec(config: SurfaceConfig) -> SurfaceState {
        SurfaceState { config, window_width: config.width, window_height: config.height, failures: 0 }
    }

    /// A surface just configured with `config` for a window of the same size.
    pub fn new(config: SurfaceConfig) -> (r: SurfaceState)
        ensures
            r == Self::new_spec(config),
            r.wf(),
            r.is_current(),
            r.config == config,
            r.failures == 0,
    {
        SurfaceState { config, window_width: config.width, window_height: config.height, failures: 0 }
    }

    /// Records that the window now measures `width` by `height` physical pixels.
    pub fn window_resized(&mut self, width: u32, height: u32)
        ensures
            *final(self) == old(self).resized_spec(width, height),
    {
        self.window_width = width;
        self.window_height = height;
    }

    /// Replaces the configuration by one for `width` by `height` pixels and returns it.
    pub fn reconfigure(&mut self, width: u32, height: u32) -> (r: SurfaceConfig)
        ensures
            *final(self) == old(self).reconfigured_spec(width, height),
            r == final(self).config,
    {
        self.config = self.config.with_size(width, height);
        self.config
    }

    /// The size the surface is configured for.
    pub fn active_size(&self) -> (r: (u32, u32))
        ensures
            r == (self.config.width, self.config.height),
    {
        (self.config.width, self.config.height)
    }

    /// Whether a frame may be acquired: only while the configuration matches the window.
    pub fn check_acquire(&self) -> (r: Result<(), SurfaceError>)
        ensures
            r is Ok <==> self.is_current(),
            r matches Err(e) ==> e == SurfaceError::StaleSize,
    {
        if self.config.width == self.window_width && self.config.height == self.window_height {
            Ok(())
        } else {
            Err(SurfaceError::StaleSize)
        }
    }

    /// Decides what follows an acquisition. A success clears the failure count;
    /// a lost or outdated surface is configured again and a timeout retried,
    /// each counting as a failure, until `MAX_SURFACE_RETRIES` failures in a
    /// row make it fatal; any other failure is fatal at once.
    pub fn after_acquire(&mut self, status: AcquireStatus) -> (r: AcquireAction)
        requires
            old(self).wf(),
        ensures
            final(self).config == old(self).config,
            final(self).window_width == old(self).window_width,
            final(self).window_height == old(self).window_height,
            status == AcquireStatus::Ready ==> r == AcquireAction::Render && final(self).failures == 0,
            status == AcquireStatus::Failed ==> r == AcquireAction::Fatal,
            status != AcquireStatus::Ready && status != AcquireStatus::Failed ==> {
                if old(self).failures + 1 >= MAX_SURFACE_RETRIES {
                    r == AcquireAction::Fatal
                } else {
                    &&& final(self).failures == old(self).failures + 1
                    &&& (status == AcquireStatus::Timeout ==> r == AcquireAction::Retry)
                    &&& (status != AcquireStatus::Timeout ==> r == AcquireAction::Reconfigure)
                }
            },
            r != AcquireAction::Fatal ==> final(self).wf(),
    {
        match status {
            AcquireStatus::Ready => {
                self.failures = 0;
                AcquireAction::Render
            },
            AcquireStatus::Failed => AcquireAction::Fatal,
            _ => {
                if self.failures + 1 >= MAX_SURFACE_RETRIES {
                    AcquireAction::Fatal
                } else {
                    self.failures = self.failures + 1;
                    if status == AcquireStatus::Timeout {
                        AcquireAction::Retry
                    } else {
                        AcquireAction::Reconfigure
                    }
                }
            },
        }
    }
}

/// Resize round trip: configuring the surface for the window's new size makes
/// that size the active one, and acquiring a frame is then allowed; the
/// format, present mode, alpha mode and frame latency stay as they were.
pub proof fn lemma_resize_round_trip(s: SurfaceState, width: u32, height: u32)
    ensures
        ({
            let t = s.resized_spec(width, height).reconfigured_spec(width, height);
            &&& t.config.width == width
            &&& t.config.height == height
            &&& t.is_current()
        }),
        s.reconfigured_spec(width, height).config.width == width,
        s.reconfigured_spec(width, height).config.height == height,
        s.reconfigured_spec(width, height).config.format == s.config.format,
        s.reconfigured_spec(width, height).config.present_mode == s.config.present_mode,
        s.reconfigured_spec(width, height).config.alpha_mode == s.config.alpha_mode,
        s.reconfigured_spec(width, height).config.frame_latency == s.config.frame_latency,
{
}

} // verus!
