//! The configuration of the presentation surface, and what acquiring the
//! graphics stack at startup can yield.

use vstd::prelude::*;

verus! {

/// Pixel format of the surface's images.
#[derive(Clone, Copy, Debug, PartialEq, Eq, Structural)]
pub enum PixelFormat {
    /// Red, green, blue and alpha, 8 bits a channel, sRGB-encoded: the one
    /// format that the render pipeline is built for.
    Rgba8UnormSrgb,
    /// Any other format.
    Other,
}

/// What the frame loop reads and writes of a surface configuration.
#[derive(Clone, Copy, Debug, PartialEq, Eq, Structural)]
pub struct SurfaceConfig {
    /// Width of the surface in pixels.
    pub width: u32,
    /// Height of the surface in pixels.
    pub height: u32,
    /// Format of the surface's images.
    pub format: PixelFormat,
}

/// How far acquiring the graphics stack for a window got.
#[derive(Clone, Copy, Debug, PartialEq, Eq, Structural)]
pub enum Acquisition {
    /// The window gave no surface.
    NoSurface,
    /// No adapter can present to the surface.
    NoAdapter,
    /// The adapter granted no device and queue.
    NoDevice,
    /// The surface has no configuration for the adapter.
    NoConfiguration,
    /// Device and queue are granted, and this is the surface's default
    /// configuration for the window's size.
    Configured(SurfaceConfig),
}

/// Why startup yields no context. Each is fatal.
#[derive(Clone, Copy, Debug, PartialEq, Eq, Structural)]
pub enum InitError {
    /// The window gave no surface.
    NoSurface,
    /// No adapter can present to the surface.
    NoAdapter,
    /// The adapter granted no device and queue.
    NoDevice,
    /// The surface has no configuration for the adapter.
    NoConfiguration,
    /// The surface's default format is not `PixelFormat::Rgba8UnormSrgb`.
    WrongFormat,
}

impl SurfaceConfig {
    /// The configuration after a resize notification: with the new size where
    /// both dimensions are positive, unchanged where one is zero.
    pub open spec fn spec_resized(self, width: u32, height: u32) -> SurfaceConfig {
        if width > 0 && height > 0 {
            SurfaceConfig { width, height, format: self.format }
        } else {
            self
        }
    }

    /// Whether both dimensions are positive.
    pub open spec fn presentable(self) -> bool {
        self.width > 0 && self.height > 0
    }

    /// The configuration after a resize notification.
    #[verifier::when_used_as_spec(spec_resized)]
    pub fn resized(self, width: u32, height: u32) -> (config: SurfaceConfig)
        ensures
            config == self.spec_resized(width, height),
            width == 0 || height == 0 ==> config == self,
            width > 0 && height > 0 ==> config.width == width && config.height == height
                && config.format == self.format,
    {
        if width > 0 && height > 0 {
            SurfaceConfig { width, height, format: self.format }
        } else {
            self
        }
    }
}

impl Acquisition {
    /// The configuration that startup goes on with, or the reason why it
    /// stops.
    pub open spec fn spec_outcome(self) -> Result<SurfaceConfig, InitError> {
        match self {
            Acquisition::NoSurface => Err(InitError::NoSurface),
            Acquisition::NoAdapter => Err(InitError::NoAdapter),
            Acquisition::NoDevice => Err(InitError::NoDevice),
            Acquisition::NoConfiguration => Err(InitError::NoConfiguration),
            Acquisition::Configured(config) => if config.format == PixelFormat::Rgba8UnormSrgb {
                Ok(config)
            } else {
                Err(InitError::WrongFormat)
            },
        }
    }

    /// The configuration that startup goes on with, or the reason why it
    /// stops: only a granted device together with a default configuration in
    /// the expected format goes on.
    #[verifier::when_used_as_spec(spec_outcome)]
    pub fn outcome(self) -> (outcome: Result<SurfaceConfig, InitError>)
        ensures
            outcome == self.spec_outcome(),
            outcome is Ok <==> (self matches Acquisition::Configured(config) && config.format
                == PixelFormat::Rgba8UnormSrgb),
            outcome matches Ok(config) ==> self == Acquisition::Configured(config),
    {
        match self {
            Acquisition::NoSurface => Err(InitError::NoSurface),
            Acquisition::NoAdapter => Err(InitError::NoAdapter),
            Acquisition::NoDevice => Err(InitError::NoDevice),
            Acquisition::NoConfiguration => Err(InitError::NoConfiguration),
            Acquisition::Configured(config) => match config.format {
                PixelFormat::Rgba8UnormSrgb => Ok(config),
                PixelFormat::Other => Err(InitError::WrongFormat),
            },
        }
    }
}

/// A resize never turns a configuration with positive dimensions into one
/// with a zero dimension, and never changes the format.
pub proof fn resize_keeps_presentable(config: SurfaceConfig, width: u32, height: u32)
    ensures
        config.presentable() ==> config.spec_resized(width, height).presentable(),
        config.spec_resized(width, height).format == config.format,
{
}

/// A resize notification with a zero dimension leaves the configuration as
/// it was.
pub proof fn degenerate_resize_is_ignored(config: SurfaceConfig, width: u32, height: u32)
    requires
        width == 0 || height == 0,
    ensures
        config.spec_resized(width, height) == config,
{
}

} // verus!
