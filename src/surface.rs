use vstd::prelude::*;

verus! {

/// Pixel formats that the demo presents in.
#[derive(Clone, Copy, Debug, PartialEq, Eq, Structural)]
pub enum TextureFormat {
    Bgra8Unorm,
    Bgra8UnormSrgb,
}

/// How finished frames are queued for display.
#[derive(Clone, Copy, Debug, PartialEq, Eq, Structural)]
pub enum PresentMode {
    Immediate,
    Mailbox,
    Fifo,
}

/// Where the demo runs: a native window, or a canvas in a web page.
#[derive(Clone, Copy, Debug, PartialEq, Eq, Structural)]
pub enum Platform {
    Native,
    Web,
}

/// The format that a surface on `p` is configured with.
pub open spec fn spec_swap_chain_format(p: Platform) -> TextureFormat {
    match p {
        Platform::Native => TextureFormat::Bgra8UnormSrgb,
        Platform::Web => TextureFormat::Bgra8Unorm,
    }
}

impl Platform {
    /// Native windows present in sRGB; web canvases in plain unorm.
    pub fn swap_chain_format(self) -> (r: TextureFormat)
        ensures
            r == spec_swap_chain_format(self),
    {
        match self {
            Platform::Native => TextureFormat::Bgra8UnormSrgb,
            Platform::Web => TextureFormat::Bgra8Unorm,
        }
    }
}

/// Description of the presentation surface (the swap chain): its size,
/// pixel format and presentation mode. The surface is always used as a render
/// target.
#[derive(Clone, Copy, Debug, PartialEq, Eq, Structural)]
pub struct SurfaceConfig {
    pub format: TextureFormat,
    pub width: u32,
    pub height: u32,
    pub present_mode: PresentMode,
}

impl SurfaceConfig {
    /// A surface of the given format and size, presented in mailbox mode.
    pub fn new(format: TextureFormat, width: u32, height: u32) -> (r: SurfaceConfig)
        ensures
            r == (SurfaceConfig { format, width, height, present_mode: PresentMode::Mailbox }),
    {
        SurfaceConfig { format, width, height, present_mode: PresentMode::Mailbox }
    }

    /// Takes the new dimensions; format and presentation mode stay.
    pub fn resize(&mut self, width: u32, height: u32)
        ensures
            *final(self) == (SurfaceConfig { width, height, ..*old(self) }),
    {
        self.width = width;
        self.height = height;
    }
}

} // verus!
