//! Pixel formats, texture parameters and the CPU/GPU resource descriptors.

use vstd::prelude::*;

verus! {

/// Pixel formats
/// NOTE: Support depends on OpenGL version and platform
#[derive(Debug, Clone, Copy, PartialEq, Eq, Hash, Structural)]
pub enum PixelFormat {
    /// 8 bit per pixel (no alpha)
    UncompressedGrayscale,
    /// 8*2 bpp (2 channels)
    UncompressedGrayAlpha,
    /// 16 bpp
    UncompressedR5G6B5,
    /// 24 bpp
    UncompressedR8G8B8,
    /// 16 bpp (1 bit alpha)
    UncompressedR5G5B5A1,
    /// 16 bpp (4 bit alpha)
    UncompressedR4G4B4A4,
    /// 32 bpp
    UncompressedR8G8B8A8,
    /// 32 bpp (1 channel - float)
    UncompressedR32,
    /// 32*3 bpp (3 channels - float)
    UncompressedR32G32A32,
    /// 32*4 bpp (4 channels - float)
    UncompressedR32G32A32A32,
    /// 16 bpp (1 channel - half float)
    UncompressedR16,
    /// 16*3 bpp (3 channels - half float)
    UncompressedR16G16B16,
    /// 16*4 bpp (4 channels - half float)
    UncompressedR16G16B16A16,
    /// 4 bpp (no alpha)
    CompressedDxt1RGB,
    /// 4 bpp (1 bit alpha)
    CompressedDxt1RGBA,
    /// 8 bpp
    CompressedDxt3RGBA,
    /// 8 bpp
    CompressedDxt5RGBA,
    /// 4 bpp
    CompressedEtc1RGB,
    /// 4 bpp
    CompressedEtc2RGB,
    /// 8 bpp
    CompressedEtc2EacRGBA,
    /// 4 bpp
    CompressedPvrtRGB,
    /// 4 bpp
    CompressedPvrtRGBA,
    /// 8 bpp
    CompressedAstc4x4RGBA,
    /// 2 bpp
    CompressedAstc8x8RGBA,
}

impl PixelFormat {
    /// The numeric id of the format, matching the engine's native numbering
    /// (the first format is 1).
    pub open spec fn code_spec(self) -> u8 {
        match self {
            PixelFormat::UncompressedGrayscale => 1,
            PixelFormat::UncompressedGrayAlpha => 2,
            PixelFormat::UncompressedR5G6B5 => 3,
            PixelFormat::UncompressedR8G8B8 => 4,
            PixelFormat::UncompressedR5G5B5A1 => 5,
            PixelFormat::UncompressedR4G4B4A4 => 6,
            PixelFormat::UncompressedR8G8B8A8 => 7,
            PixelFormat::UncompressedR32 => 8,
            PixelFormat::UncompressedR32G32A32 => 9,
            PixelFormat::UncompressedR32G32A32A32 => 10,
            PixelFormat::UncompressedR16 => 11,
            PixelFormat::UncompressedR16G16B16 => 12,
            PixelFormat::UncompressedR16G16B16A16 => 13,
            PixelFormat::CompressedDxt1RGB => 14,
            PixelFormat::CompressedDxt1RGBA => 15,
            PixelFormat::CompressedDxt3RGBA => 16,
            PixelFormat::CompressedDxt5RGBA => 17,
            PixelFormat::CompressedEtc1RGB => 18,
            PixelFormat::CompressedEtc2RGB => 19,
            PixelFormat::CompressedEtc2EacRGBA => 20,
            PixelFormat::CompressedPvrtRGB => 21,
            PixelFormat::CompressedPvrtRGBA => 22,
            PixelFormat::CompressedAstc4x4RGBA => 23,
            PixelFormat::CompressedAstc8x8RGBA => 24,
        }
    }

    /// The numeric id of the format, matching the engine's native numbering.
    pub fn code(self) -> (r: u8)
        ensures
            r == self.code_spec(),
    {
        match self {
            PixelFormat::UncompressedGrayscale => 1,
            PixelFormat::UncompressedGrayAlpha => 2,
            PixelFormat::UncompressedR5G6B5 => 3,
            PixelFormat::UncompressedR8G8B8 => 4,
            PixelFormat::UncompressedR5G5B5A1 => 5,
            PixelFormat::UncompressedR4G4B4A4 => 6,
            PixelFormat::UncompressedR8G8B8A8 => 7,
            PixelFormat::UncompressedR32 => 8,
            PixelFormat::UncompressedR32G32A32 => 9,
            PixelFormat::UncompressedR32G32A32A32 => 10,
            PixelFormat::UncompressedR16 => 11,
            PixelFormat::UncompressedR16G16B16 => 12,
            PixelFormat::UncompressedR16G16B16A16 => 13,
            PixelFormat::CompressedDxt1RGB => 14,
            PixelFormat::CompressedDxt1RGBA => 15,
            PixelFormat::CompressedDxt3RGBA => 16,
            PixelFormat::CompressedDxt5RGBA => 17,
            PixelFormat::CompressedEtc1RGB => 18,
            PixelFormat::CompressedEtc2RGB => 19,
            PixelFormat::CompressedEtc2EacRGBA => 20,
            PixelFormat::CompressedPvrtRGB => 21,
            PixelFormat::CompressedPvrtRGBA => 22,
            PixelFormat::CompressedAstc4x4RGBA => 23,
            PixelFormat::CompressedAstc8x8RGBA => 24,
        }
    }
}

/// Texture parameters: filter mode
/// NOTE 1: Filtering considers mipmaps if available in the texture
/// NOTE 2: Filter is accordingly set for minification and magnification
#[derive(Debug, Clone, Copy, PartialEq, Eq, Structural)]
pub enum TextureFilter {
    /// No filter, just pixel approximation
    Point,
    /// Linear filtering
    Bilinear,
    /// Trilinear filtering (linear with mipmaps)
    Trilinear,
    /// Anisotropic filtering 4x
    Anisotropic4x,
    /// Anisotropic filtering 8x
    Anisotropic8x,
    /// Anisotropic filtering 16x
    Anisotropic16x,
}

/// Texture parameters: wrap mode
#[derive(Debug, Clone, Copy, PartialEq, Eq, Structural)]
pub enum TextureWrap {
    /// Repeats texture in tiled mode
    Repeat,
    /// Clamps texture to edge pixel in tiled mode
    Clamp,
    /// Mirrors and repeats the texture in tiled mode
    MirrorRepeat,
    /// Mirrors and clamps to border the texture in tiled mode
    MirrorClamp,
}

/// Cubemap layouts
#[derive(Debug, Clone, Copy, PartialEq, Eq, Structural)]
pub enum CubemapLayout {
    /// Automatically detect layout type
    AutoDetect,
    /// Layout is defined by a vertical line with faces
    LineVertical,
    /// Layout is defined by a horizontal line with faces
    LineHorizontal,
    /// Layout is defined by a 3x4 cross with cubemap faces
    CrossThreeByFour,
    /// Layout is defined by a 4x3 cross with cubemap faces
    CrossFourByThree,
}

/// Image, pixel data stored in CPU memory (RAM)
#[derive(Debug, Clone, PartialEq, Eq)]
pub struct Image {
    /// Image raw data
    pub data: Vec<u8>,
    /// Image base width
    pub width: usize,
    /// Image base height
    pub height: usize,
    /// Mipmap levels, 1 by default
    pub mipmap: usize,
    /// Data format
    pub format: PixelFormat,
}

/// Texture, tex data stored in GPU memory (VRAM)
#[derive(Debug, Clone, Copy, PartialEq, Eq, Structural)]
pub struct Texture {
    /// OpenGL texture id
    pub id: u32,
    /// Texture base width
    pub width: usize,
    /// Texture base height
    pub height: usize,
    /// Mipmap levels, 1 by default
    pub mipmap: usize,
    /// Data format
    pub format: PixelFormat,
}

/// `RenderTexture`, fbo for texture rendering
#[derive(Debug, Clone, Copy, PartialEq, Eq, Structural)]
pub struct RenderTexture {
    /// OpenGL framebuffer object id
    pub id: u32,
    /// Color buffer attachment texture
    pub texture: Texture,
    /// Depth buffer attachment texture
    pub depth: Texture,
}

/// `GlyphInfo`, font characters glyphs info
#[derive(Debug, Clone, PartialEq, Eq)]
pub struct GlyphInfo {
    /// Character value (Unicode)
    pub value: char,
    /// Character offset X when drawing
    pub offset_x: i32,
    /// Character offset Y when drawing
    pub offset_y: i32,
    /// Character advance position X
    pub advance_x: i32,
    /// Character image data
    pub image: Image,
}

} // verus!
