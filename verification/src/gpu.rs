//! The frame renderer's bookkeeping: the size of the presentation surface,
//! and what one render pass submits.
//!
//! The device, the queue and the surface themselves live with the caller;
//! this module decides what they are asked to do.

use vstd::prelude::*;
use crate::uniform::FrameUniform;

verus! {

/// Number of vertices of the main shape.
pub const SHAPE_VERTICES: u32 = 3;

/// Number of vertices of the floor: two triangles.
pub const FLOOR_VERTICES: u32 = 6;

/// Number of vertices of the explosion particles: ten triangles.
pub const PARTICLE_VERTICES: u32 = 30;

/// Red, green and blue of the background, in millionths of full intensity.
pub const BACKGROUND_RED: u32 = 50_000;

pub const BACKGROUND_GREEN: u32 = 70_000;

pub const BACKGROUND_BLUE: u32 = 100_000;

/// Opacity of the background, in millionths.
pub const BACKGROUND_ALPHA: u32 = 1_000_000;

/// A size in physical pixels.
#[derive(Clone, Copy, Debug, PartialEq, Eq, Structural)]
pub struct PhysicalSize {
    pub width: u32,
    pub height: u32,
}

/// The part of the surface configuration that changes after setup.
#[derive(Clone, Copy, Debug, PartialEq, Eq, Structural)]
pub struct SurfaceConfig {
    pub width: u32,
    pub height: u32,
}

/// Why no surface image could be presented.
#[derive(Clone, Copy, Debug, PartialEq, Eq, Structural)]
pub enum SurfaceError {
    /// Acquiring the next image timed out.
    Timeout,
    /// The surface has changed and must be configured again.
    Outdated,
    /// The surface was lost and must be configured again.
    Lost,
    /// No memory is left for a new image.
    OutOfMemory,
    /// Any other failure.
    Other,
}

impl SurfaceError {
    /// Whether the surface only needs to be configured again.
    pub open spec fn stale(self) -> bool {
        self is Outdated || self is Lost
    }

    /// Whether the failure ends the program.
    pub open spec fn fatal(self) -> bool {
        self is OutOfMemory
    }

    /// Tells whether the surface only needs to be configured again.
    pub fn is_stale(&self) -> (r: bool)
        ensures
            r == self.stale(),
    {
        match self {
            SurfaceError::Outdated => true,
            SurfaceError::Lost => true,
            _ => false,
        }
    }

    /// Tells whether the failure ends the program.
    pub fn is_fatal(&self) -> (r: bool)
        ensures
            r == self.fatal(),
    {
        match self {
            SurfaceError::OutOfMemory => true,
            _ => false,
        }
    }
}

/// A colour with opacity, each channel in millionths of full intensity.
#[derive(Clone, Copy, Debug, PartialEq, Eq, Structural)]
pub struct Color {
    pub r: u32,
    pub g: u32,
    pub b: u32,
    pub a: u32,
}

/// A run of consecutive indices, from `start` up to but not including `end`.
#[derive(Clone, Copy, Debug, PartialEq, Eq, Structural)]
pub struct Span {
    pub start: u32,
    pub end: u32,
}

/// One draw call: a run of vertices and a run of instances.
#[derive(Clone, Copy, Debug, PartialEq, Eq, Structural)]
pub struct DrawCall {
    pub vertices: Span,
    pub instances: Span,
}

/// What one render pass submits.
#[derive(Debug)]
pub struct Frame {
    /// The uniform block, to be uploaded before any draw reads it.
    pub uniform: [u8; 16],
    /// The colour the attachment is cleared to before drawing.
    pub clear: Color,
    /// The draw calls, in the order in which they are issued.
    pub draws: Vec<DrawCall>,
}

/// The background that every frame starts from.
pub open spec fn background() -> Color {
    Color { r: BACKGROUND_RED, g: BACKGROUND_GREEN, b: BACKGROUND_BLUE, a: BACKGROUND_ALPHA }
}

/// A draw of `count` vertices from `first` on, once.
pub open spec fn draw_once(first: int, count: int) -> DrawCall {
    DrawCall {
        vertices: Span { start: first as u32, end: (first + count) as u32 },
        instances: Span { start: 0, end: 1 },
    }
}

/// The draw calls of every frame: the main shape, then the floor, then the
/// explosion particles, each over the next run of vertices and drawn once.
pub open spec fn frame_draws() -> Seq<DrawCall> {
    seq![
        draw_once(0, SHAPE_VERTICES as int),
        draw_once(SHAPE_VERTICES as int, FLOOR_VERTICES as int),
        draw_once(SHAPE_VERTICES + FLOOR_VERTICES, PARTICLE_VERTICES as int),
    ]
}

/// The renderer's record of the surface it presents to.
#[derive(Clone, Copy, Debug, PartialEq, Eq, Structural)]
pub struct GpuState {
    /// The size last reported for the window.
    pub size: PhysicalSize,
    /// The size the surface is configured with.
    pub config: SurfaceConfig,
}

impl GpuState {
    /// The surface is configured with the stored size, but with no dimension
    /// below one pixel.
    pub open spec fn well_formed(self) -> bool {
        &&& self.config.width == if self.size.width == 0 {
            1
        } else {
            self.size.width
        }
        &&& self.config.height == if self.size.height == 0 {
            1
        } else {
            self.size.height
        }
    }

    /// The record of a surface just set up for a window of the given size:
    /// a dimension of zero is configured as one pixel.
    pub open spec fn for_window(size: PhysicalSize) -> Self {
        GpuState {
            size,
            config: SurfaceConfig {
                width: if size.width == 0 {
                    1
                } else {
                    size.width
                },
                height: if size.height == 0 {
                    1
                } else {
                    size.height
                },
            },
        }
    }

    /// The record after the window took a new size: a size with a zero
    /// dimension changes nothing; any other is stored and configured.
    pub open spec fn after_resize(self, new_size: PhysicalSize) -> Self {
        if new_size.width > 0 && new_size.height > 0 {
            GpuState {
                size: new_size,
                config: SurfaceConfig { width: new_size.width, height: new_size.height },
            }
        } else {
            self
        }
    }

    /// Records a surface set up for a window of the given size.
    pub fn new(size: PhysicalSize) -> (gpu: Self)
        ensures
            gpu == Self::for_window(size),
            gpu.well_formed(),
            gpu.config.width >= 1,
            gpu.config.height >= 1,
    {
        GpuState {
            size,
            config: SurfaceConfig {
                width: if size.width == 0 {
                    1
                } else {
                    size.width
                },
                height: if size.height == 0 {
                    1
                } else {
                    size.height
                },
            },
        }
    }

    /// Takes a new window size and tells whether the surface has to be
    /// configured again, with `config`, before the next frame. A size with a
    /// zero dimension changes nothing.
    pub fn resize(&mut self, new_size: PhysicalSize) -> (reconfigure: bool)
        ensures
            *final(self) == old(self).after_resize(new_size),
            reconfigure == (new_size.width > 0 && new_size.height > 0),
            new_size.width == 0 || new_size.height == 0 ==> *final(self) == *old(self),
            reconfigure ==> final(self).config.width == new_size.width && final(self).config.height
                == new_size.height,
            old(self).well_formed() ==> final(self).well_formed(),
    {
        if new_size.width > 0 && new_size.height > 0 {
            self.size = new_size;
            self.config.width = new_size.width;
            self.config.height = new_size.height;
            true
        } else {
            false
        }
    }

    /// Lays out one frame for the three values that the shader reads, each
    /// given as the bit pattern of a 32-bit float. Only the uniform block
    /// depends on them: the background and the three draw calls are the same
    /// in every frame, whatever the explosion phase.
    pub fn render(&self, vertical_offset: u32, rotation: u32, explosion_timer: u32) -> (frame: Frame)
        ensures
            frame.uniform@ == (FrameUniform { vertical_offset, rotation, explosion_timer }).wire(),
            frame.clear == background(),
            frame.draws@ == frame_draws(),
    {
        let uniform: FrameUniform = FrameUniform { vertical_offset, rotation, explosion_timer };
        let once: Span = Span { start: 0, end: 1 };
        let floor_start: u32 = SHAPE_VERTICES;
        let particles_start: u32 = floor_start + FLOOR_VERTICES;
        let particles_end: u32 = particles_start + PARTICLE_VERTICES;
        let mut draws: Vec<DrawCall> = Vec::new();
        draws.push(DrawCall { vertices: Span { start: 0, end: floor_start }, instances: once });
        draws.push(
            DrawCall { vertices: Span { start: floor_start, end: particles_start }, instances: once },
        );
        draws.push(
            DrawCall { vertices: Span { start: particles_start, end: particles_end }, instances: once },
        );
        assert(draws@ =~= frame_draws());
        Frame {
            uniform: uniform.to_bytes(),
            clear: Color {
                r: BACKGROUND_RED,
                g: BACKGROUND_GREEN,
                b: BACKGROUND_BLUE,
                a: BACKGROUND_ALPHA,
            },
            draws,
        }
    }
}

/// Picks the surface format among those offered, given for each whether it
/// is an sRGB format: the first sRGB one, or the very first where none is.
pub fn choose_format(srgb: &Vec<bool>) -> (index: usize)
    requires
        srgb.len() > 0,
    ensures
        index < srgb.len(),
        srgb[index as int] || index == 0,
        forall|i: int| 0 <= i < index ==> !srgb[i],
        !srgb[index as int] ==> forall|i: int| 0 <= i < srgb.len() ==> !srgb[i],
{
    let mut i: usize = 0;
    while i < srgb.len()
        invariant
            i <= srgb.len(),
            forall|j: int| 0 <= j < i ==> !srgb[j],
        decreases srgb.len() - i,
    {
        if srgb[i] {
            return i;
        }
        i = i + 1;
    }
    0
}

} // verus!
