use vstd::prelude::*;

verus! {

/// Base internal formats of a KTX texture (`glBaseInternalFormat`).
#[allow(non_camel_case_types)]
#[derive(Debug, Clone, Copy, PartialEq, Eq, Structural)]
pub enum GLBaseInternalFormat {
    GL_DEPTH_COMPONENT,
    GL_DEPTH_STENCIL,
    GL_RED,
    GL_RG,
    GL_RGB,
    GL_RGBA,
    GL_STENCIL_INDEX,
}

impl GLBaseInternalFormat {
    /// The OpenGL enumerant value of this format.
    pub open spec fn spec_code(self) -> u32 {
        match self {
            GLBaseInternalFormat::GL_DEPTH_COMPONENT => 0x1902,
            GLBaseInternalFormat::GL_DEPTH_STENCIL => 0x84F9,
            GLBaseInternalFormat::GL_RED => 0x1903,
            GLBaseInternalFormat::GL_RG => 0x8227,
            GLBaseInternalFormat::GL_RGB => 0x1907,
            GLBaseInternalFormat::GL_RGBA => 0x1908,
            GLBaseInternalFormat::GL_STENCIL_INDEX => 0x1901,
        }
    }

    /// The format whose OpenGL enumerant is `v`, if there is one.
    pub open spec fn spec_from_u32(v: u32) -> Option<Self> {
        if v == 0x1902 { Some(GLBaseInternalFormat::GL_DEPTH_COMPONENT) }
        else if v == 0x84F9 { Some(GLBaseInternalFormat::GL_DEPTH_STENCIL) }
        else if v == 0x1903 { Some(GLBaseInternalFormat::GL_RED) }
        else if v == 0x8227 { Some(GLBaseInternalFormat::GL_RG) }
        else if v == 0x1907 { Some(GLBaseInternalFormat::GL_RGB) }
        else if v == 0x1908 { Some(GLBaseInternalFormat::GL_RGBA) }
        else if v == 0x1901 { Some(GLBaseInternalFormat::GL_STENCIL_INDEX) }
        else { None }
    }

    /// The OpenGL enumerant value of this format.
    pub fn code(&self) -> (r: u32)
        ensures
            r == self.spec_code(),
    {
        match self {
            GLBaseInternalFormat::GL_DEPTH_COMPONENT => 0x1902,
            GLBaseInternalFormat::GL_DEPTH_STENCIL => 0x84F9,
            GLBaseInternalFormat::GL_RED => 0x1903,
            GLBaseInternalFormat::GL_RG => 0x8227,
            GLBaseInternalFormat::GL_RGB => 0x1907,
            GLBaseInternalFormat::GL_RGBA => 0x1908,
            GLBaseInternalFormat::GL_STENCIL_INDEX => 0x1901,
        }
    }

    /// Looks a format up by its OpenGL enumerant value.
    pub fn from_u32(v: u32) -> (r: Option<Self>)
        ensures
            r == Self::spec_from_u32(v),
    {
        if v == 0x1902 { Some(GLBaseInternalFormat::GL_DEPTH_COMPONENT) }
        else if v == 0x84F9 { Some(GLBaseInternalFormat::GL_DEPTH_STENCIL) }
        else if v == 0x1903 { Some(GLBaseInternalFormat::GL_RED) }
        else if v == 0x8227 { Some(GLBaseInternalFormat::GL_RG) }
        else if v == 0x1907 { Some(GLBaseInternalFormat::GL_RGB) }
        else if v == 0x1908 { Some(GLBaseInternalFormat::GL_RGBA) }
        else if v == 0x1901 { Some(GLBaseInternalFormat::GL_STENCIL_INDEX) }
        else { None }
    }

    /// Looking up the enumerant of a format gives that format back.
    pub proof fn lemma_from_code(f: Self)
        ensures
            Self::spec_from_u32(f.spec_code()) == Some(f),
    {
        match f {
            GLBaseInternalFormat::GL_DEPTH_COMPONENT => {},
            GLBaseInternalFormat::GL_DEPTH_STENCIL => {},
            GLBaseInternalFormat::GL_RED => {},
            GLBaseInternalFormat::GL_RG => {},
            GLBaseInternalFormat::GL_RGB => {},
            GLBaseInternalFormat::GL_RGBA => {},
            GLBaseInternalFormat::GL_STENCIL_INDEX => {},
        }
    }

    /// A format found by its enumerant has that enumerant.
    pub proof fn lemma_code_of_found(v: u32)
        ensures
            Self::spec_from_u32(v) matches Some(f) ==> f.spec_code() == v,
    {
    }
}

/// Sized internal formats of a KTX texture (`glInternalFormat`).
#[allow(non_camel_case_types)]
#[derive(Debug, Clone, Copy, PartialEq, Eq, Structural)]
pub enum GLSizedInternalFormat {
    GL_R8,
    GL_R8_SNORM,
    GL_R16,
    GL_R16_SNORM,
    GL_RG8,
    GL_RG8_SNORM,
    GL_RG16,
    GL_RG16_SNORM,
    GL_R3_G3_B2,
    GL_RGB4,
    GL_RGB5,
    GL_RGB565,
    GL_RGB8,
    GL_RGB8_SNORM,
    GL_RGB10,
    GL_RGB12,
    GL_RGB16,
    GL_RGB16_SNORM,
    GL_RGBA2,
    GL_RGBA4,
    GL_RGB5_A1,
    GL_RGBA8,
    GL_RGBA8_SNORM,
    GL_RGB10_A2,
    GL_RGB10_A2UI,
    GL_RGBA12,
    GL_RGBA16,
    GL_RGBA16_SNORM,
    GL_SRGB8,
    GL_SRGB8_ALPHA8,
    GL_R16F,
    GL_RG16F,
    GL_RGB16F,
    GL_RGBA16F,
    GL_R32F,
    GL_RG32F,
    GL_RGB32F,
    GL_RGBA32F,
    GL_R11F_G11F_B10F,
    GL_RGB9_E5,
    GL_R8I,
    GL_R8UI,
    GL_R16I,
    GL_R16UI,
    GL_R32I,
    GL_R32UI,
    GL_RG8I,
    GL_RG8UI,
    GL_RG16I,
    GL_RG16UI,
    GL_RG32I,
    GL_RG32UI,
    GL_RGB8I,
    GL_RGB8UI,
    GL_RGB16I,
    GL_RGB16UI,
    GL_RGB32I,
    GL_RGB32UI,
    GL_RGBA8I,
    GL_RGBA8UI,
    GL_RGBA16I,
    GL_RGBA16UI,
    GL_RGBA32I,
    GL_RGBA32UI,
    GL_DEPTH_COMPONENT16,
    GL_DEPTH_COMPONENT24,
    GL_DEPTH_COMPONENT32,
    GL_DEPTH_COMPONENT32F,
    GL_DEPTH24_STENCIL8,
    GL_DEPTH32F_STENCIL8,
    GL_STENCIL_INDEX1,
    GL_STENCIL_INDEX4,
    GL_STENCIL_INDEX8,
    GL_STENCIL_INDEX16,
}

impl GLSizedInternalFormat {
    /// The OpenGL enumerant value of this format.
    pub open spec fn spec_code(self) -> u32 {
        match self {
            GLSizedInternalFormat::GL_R8 => 0x8229,
            GLSizedInternalFormat::GL_R8_SNORM => 0x8F94,
            GLSizedInternalFormat::GL_R16 => 0x822A,
            GLSizedInternalFormat::GL_R16_SNORM => 0x8F98,
            GLSizedInternalFormat::GL_RG8 => 0x822B,
            GLSizedInternalFormat::GL_RG8_SNORM => 0x8F95,
            GLSizedInternalFormat::GL_RG16 => 0x822C,
            GLSizedInternalFormat::GL_RG16_SNORM => 0x8F99,
            GLSizedInternalFormat::GL_R3_G3_B2 => 0x2A10,
            GLSizedInternalFormat::GL_RGB4 => 0x804F,
            GLSizedInternalFormat::GL_RGB5 => 0x8050,
            GLSizedInternalFormat::GL_RGB565 => 0x8D62,
            GLSizedInternalFormat::GL_RGB8 => 0x8051,
            GLSizedInternalFormat::GL_RGB8_SNORM => 0x8F96,
            GLSizedInternalFormat::GL_RGB10 => 0x8052,
            GLSizedInternalFormat::GL_RGB12 => 0x8053,
            GLSizedInternalFormat::GL_RGB16 => 0x8054,
            GLSizedInternalFormat::GL_RGB16_SNORM => 0x8F9A,
            GLSizedInternalFormat::GL_RGBA2 => 0x8055,
            GLSizedInternalFormat::GL_RGBA4 => 0x8056,
            GLSizedInternalFormat::GL_RGB5_A1 => 0x8057,
            GLSizedInternalFormat::GL_RGBA8 => 0x8058,
            GLSizedInternalFormat::GL_RGBA8_SNORM => 0x8F97,
            GLSizedInternalFormat::GL_RGB10_A2 => 0x8059,
            GLSizedInternalFormat::GL_RGB10_A2UI => 0x906F,
            GLSizedInternalFormat::GL_RGBA12 => 0x805A,
            GLSizedInternalFormat::GL_RGBA16 => 0x805B,
            GLSizedInternalFormat::GL_RGBA16_SNORM => 0x8F9B,
            GLSizedInternalFormat::GL_SRGB8 => 0x8C41,
            GLSizedInternalFormat::GL_SRGB8_ALPHA8 => 0x8C43,
            GLSizedInternalFormat::GL_R16F => 0x822D,
            GLSizedInternalFormat::GL_RG16F => 0x822F,
            GLSizedInternalFormat::GL_RGB16F => 0x881B,
            GLSizedInternalFormat::GL_RGBA16F => 0x881A,
            GLSizedInternalFormat::GL_R32F => 0x822E,
            GLSizedInternalFormat::GL_RG32F => 0x8230,
            GLSizedInternalFormat::GL_RGB32F => 0x8815,
            GLSizedInternalFormat::GL_RGBA32F => 0x8814,
            GLSizedInternalFormat::GL_R11F_G11F_B10F => 0x8C3A,
            GLSizedInternalFormat::GL_RGB9_E5 => 0x8C3D,
            GLSizedInternalFormat::GL_R8I => 0x8231,
            GLSizedInternalFormat::GL_R8UI => 0x8232,
            GLSizedInternalFormat::GL_R16I => 0x8233,
            GLSizedInternalFormat::GL_R16UI => 0x8234,
            GLSizedInternalFormat::GL_R32I => 0x8235,
            GLSizedInternalFormat::GL_R32UI => 0x8236,
            GLSizedInternalFormat::GL_RG8I => 0x8237,
            GLSizedInternalFormat::GL_RG8UI => 0x8238,
            GLSizedInternalFormat::GL_RG16I => 0x8239,
            GLSizedInternalFormat::GL_RG16UI => 0x823A,
            GLSizedInternalFormat::GL_RG32I => 0x823B,
            GLSizedInternalFormat::GL_RG32UI => 0x823C,
            GLSizedInternalFormat::GL_RGB8I => 0x8D8F,
            GLSizedInternalFormat::GL_RGB8UI => 0x8D7D,
            GLSizedInternalFormat::GL_RGB16I => 0x8D89,
            GLSizedInternalFormat::GL_RGB16UI => 0x8D77,
            GLSizedInternalFormat::GL_RGB32I => 0x8D83,
            GLSizedInternalFormat::GL_RGB32UI => 0x8D71,
            GLSizedInternalFormat::GL_RGBA8I => 0x8D8E,
            GLSizedInternalFormat::GL_RGBA8UI => 0x8D7C,
            GLSizedInternalFormat::GL_RGBA16I => 0x8D88,
            GLSizedInternalFormat::GL_RGBA16UI => 0x8D76,
            GLSizedInternalFormat::GL_RGBA32I => 0x8D82,
            GLSizedInternalFormat::GL_RGBA32UI => 0x8D70,
            GLSizedInternalFormat::GL_DEPTH_COMPONENT16 => 0x81A5,
            GLSizedInternalFormat::GL_DEPTH_COMPONENT24 => 0x81A6,
            GLSizedInternalFormat::GL_DEPTH_COMPONENT32 => 0x81A7,
            GLSizedInternalFormat::GL_DEPTH_COMPONENT32F => 0x8CAC,
            GLSizedInternalFormat::GL_DEPTH24_STENCIL8 => 0x88F0,
            GLSizedInternalFormat::GL_DEPTH32F_STENCIL8 => 0x8CAD,
            GLSizedInternalFormat::GL_STENCIL_INDEX1 => 0x8D46,
            GLSizedInternalFormat::GL_STENCIL_INDEX4 => 0x8D47,
            GLSizedInternalFormat::GL_STENCIL_INDEX8 => 0x8D48,
            GLSizedInternalFormat::GL_STENCIL_INDEX16 => 0x8D49,
        }
    }

    /// The format whose OpenGL enumerant is `v`, if there is one.
    pub open spec fn spec_from_u32(v: u32) -> Option<Self> {
        if v == 0x8229 { Some(GLSizedInternalFormat::GL_R8) }
        else if v == 0x8F94 { Some(GLSizedInternalFormat::GL_R8_SNORM) }
        else if v == 0x822A { Some(GLSizedInternalFormat::GL_R16) }
        else if v == 0x8F98 { Some(GLSizedInternalFormat::GL_R16_SNORM) }
        else if v == 0x822B { Some(GLSizedInternalFormat::GL_RG8) }
        else if v == 0x8F95 { Some(GLSizedInternalFormat::GL_RG8_SNORM) }
        else if v == 0x822C { Some(GLSizedInternalFormat::GL_RG16) }
        else if v == 0x8F99 { Some(GLSizedInternalFormat::GL_RG16_SNORM) }
        else if v == 0x2A10 { Some(GLSizedInternalFormat::GL_R3_G3_B2) }
        else if v == 0x804F { Some(GLSizedInternalFormat::GL_RGB4) }
        else if v == 0x8050 { Some(GLSizedInternalFormat::GL_RGB5) }
        else if v == 0x8D62 { Some(GLSizedInternalFormat::GL_RGB565) }
        else if v == 0x8051 { Some(GLSizedInternalFormat::GL_RGB8) }
        else if v == 0x8F96 { Some(GLSizedInternalFormat::GL_RGB8_SNORM) }
        else if v == 0x8052 { Some(GLSizedInternalFormat::GL_RGB10) }
        else if v == 0x8053 { Some(GLSizedInternalFormat::GL_RGB12) }
        else if v == 0x8054 { Some(GLSizedInternalFormat::GL_RGB16) }
        else if v == 0x8F9A { Some(GLSizedInternalFormat::GL_RGB16_SNORM) }
        else if v == 0x8055 { Some(GLSizedInternalFormat::GL_RGBA2) }
        else if v == 0x8056 { Some(GLSizedInternalFormat::GL_RGBA4) }
        else if v == 0x8057 { Some(GLSizedInternalFormat::GL_RGB5_A1) }
        else if v == 0x8058 { Some(GLSizedInternalFormat::GL_RGBA8) }
        else if v == 0x8F97 { Some(GLSizedInternalFormat::GL_RGBA8_SNORM) }
        else if v == 0x8059 { Some(GLSizedInternalFormat::GL_RGB10_A2) }
        else if v == 0x906F { Some(GLSizedInternalFormat::GL_RGB10_A2UI) }
        else if v == 0x805A { Some(GLSizedInternalFormat::GL_RGBA12) }
        else if v == 0x805B { Some(GLSizedInternalFormat::GL_RGBA16) }
        else if v == 0x8F9B { Some(GLSizedInternalFormat::GL_RGBA16_SNORM) }
        else if v == 0x8C41 { Some(GLSizedInternalFormat::GL_SRGB8) }
        else if v == 0x8C43 { Some(GLSizedInternalFormat::GL_SRGB8_ALPHA8) }
        else if v == 0x822D { Some(GLSizedInternalFormat::GL_R16F) }
        else if v == 0x822F { Some(GLSizedInternalFormat::GL_RG16F) }
        else if v == 0x881B { Some(GLSizedInternalFormat::GL_RGB16F) }
        else if v == 0x881A { Some(GLSizedInternalFormat::GL_RGBA16F) }
        else if v == 0x822E { Some(GLSizedInternalFormat::GL_R32F) }
        else if v == 0x8230 { Some(GLSizedInternalFormat::GL_RG32F) }
        else if v == 0x8815 { Some(GLSizedInternalFormat::GL_RGB32F) }
        else if v == 0x8814 { Some(GLSizedInternalFormat::GL_RGBA32F) }
        else if v == 0x8C3A { Some(GLSizedInternalFormat::GL_R11F_G11F_B10F) }
        else if v == 0x8C3D { Some(GLSizedInternalFormat::GL_RGB9_E5) }
        else if v == 0x8231 { Some(GLSizedInternalFormat::GL_R8I) }
        else if v == 0x8232 { Some(GLSizedInternalFormat::GL_R8UI) }
        else if v == 0x8233 { Some(GLSizedInternalFormat::GL_R16I) }
        else if v == 0x8234 { Some(GLSizedInternalFormat::GL_R16UI) }
        else if v == 0x8235 { Some(GLSizedInternalFormat::GL_R32I) }
        else if v == 0x8236 { Some(GLSizedInternalFormat::GL_R32UI) }
        else if v == 0x8237 { Some(GLSizedInternalFormat::GL_RG8I) }
        else if v == 0x8238 { Some(GLSizedInternalFormat::GL_RG8UI) }
        else if v == 0x8239 { Some(GLSizedInternalFormat::GL_RG16I) }
        else if v == 0x823A { Some(GLSizedInternalFormat::GL_RG16UI) }
        else if v == 0x823B { Some(GLSizedInternalFormat::GL_RG32I) }
        else if v == 0x823C { Some(GLSizedInternalFormat::GL_RG32UI) }
        else if v == 0x8D8F { Some(GLSizedInternalFormat::GL_RGB8I) }
        else if v == 0x8D7D { Some(GLSizedInternalFormat::GL_RGB8UI) }
        else if v == 0x8D89 { Some(GLSizedInternalFormat::GL_RGB16I) }
        else if v == 0x8D77 { Some(GLSizedInternalFormat::GL_RGB16UI) }
        else if v == 0x8D83 { Some(GLSizedInternalFormat::GL_RGB32I) }
        else if v == 0x8D71 { Some(GLSizedInternalFormat::GL_RGB32UI) }
        else if v == 0x8D8E { Some(GLSizedInternalFormat::GL_RGBA8I) }
        else if v == 0x8D7C { Some(GLSizedInternalFormat::GL_RGBA8UI) }
        else if v == 0x8D88 { Some(GLSizedInternalFormat::GL_RGBA16I) }
        else if v == 0x8D76 { Some(GLSizedInternalFormat::GL_RGBA16UI) }
        else if v == 0x8D82 { Some(GLSizedInternalFormat::GL_RGBA32I) }
        else if v == 0x8D70 { Some(GLSizedInternalFormat::GL_RGBA32UI) }
        else if v == 0x81A5 { Some(GLSizedInternalFormat::GL_DEPTH_COMPONENT16) }
        else if v == 0x81A6 { Some(GLSizedInternalFormat::GL_DEPTH_COMPONENT24) }
        else if v == 0x81A7 { Some(GLSizedInternalFormat::GL_DEPTH_COMPONENT32) }
        else if v == 0x8CAC { Some(GLSizedInternalFormat::GL_DEPTH_COMPONENT32F) }
        else if v == 0x88F0 { Some(GLSizedInternalFormat::GL_DEPTH24_STENCIL8) }
        else if v == 0x8CAD { Some(GLSizedInternalFormat::GL_DEPTH32F_STENCIL8) }
        else if v == 0x8D46 { Some(GLSizedInternalFormat::GL_STENCIL_INDEX1) }
        else if v == 0x8D47 { Some(GLSizedInternalFormat::GL_STENCIL_INDEX4) }
        else if v == 0x8D48 { Some(GLSizedInternalFormat::GL_STENCIL_INDEX8) }
        else if v == 0x8D49 { Some(GLSizedInternalFormat::GL_STENCIL_INDEX16) }
        else { None }
    }

    /// The OpenGL enumerant value of this format.
    pub fn code(&self) -> (r: u32)
        ensures
            r == self.spec_code(),
    {
        match self {
            GLSizedInternalFormat::GL_R8 => 0x8229,
            GLSizedInternalFormat::GL_R8_SNORM => 0x8F94,
            GLSizedInternalFormat::GL_R16 => 0x822A,
            GLSizedInternalFormat::GL_R16_SNORM => 0x8F98,
            GLSizedInternalFormat::GL_RG8 => 0x822B,
            GLSizedInternalFormat::GL_RG8_SNORM => 0x8F95,
            GLSizedInternalFormat::GL_RG16 => 0x822C,
            GLSizedInternalFormat::GL_RG16_SNORM => 0x8F99,
            GLSizedInternalFormat::GL_R3_G3_B2 => 0x2A10,
            GLSizedInternalFormat::GL_RGB4 => 0x804F,
            GLSizedInternalFormat::GL_RGB5 => 0x8050,
            GLSizedInternalFormat::GL_RGB565 => 0x8D62,
            GLSizedInternalFormat::GL_RGB8 => 0x8051,
            GLSizedInternalFormat::GL_RGB8_SNORM => 0x8F96,
            GLSizedInternalFormat::GL_RGB10 => 0x8052,
            GLSizedInternalFormat::GL_RGB12 => 0x8053,
            GLSizedInternalFormat::GL_RGB16 => 0x8054,
            GLSizedInternalFormat::GL_RGB16_SNORM => 0x8F9A,
            GLSizedInternalFormat::GL_RGBA2 => 0x8055,
            GLSizedInternalFormat::GL_RGBA4 => 0x8056,
            GLSizedInternalFormat::GL_RGB5_A1 => 0x8057,
            GLSizedInternalFormat::GL_RGBA8 => 0x8058,
            GLSizedInternalFormat::GL_RGBA8_SNORM => 0x8F97,
            GLSizedInternalFormat::GL_RGB10_A2 => 0x8059,
            GLSizedInternalFormat::GL_RGB10_A2UI => 0x906F,
            GLSizedInternalFormat::GL_RGBA12 => 0x805A,
            GLSizedInternalFormat::GL_RGBA16 => 0x805B,
            GLSizedInternalFormat::GL_RGBA16_SNORM => 0x8F9B,
            GLSizedInternalFormat::GL_SRGB8 => 0x8C41,
            GLSizedInternalFormat::GL_SRGB8_ALPHA8 => 0x8C43,
            GLSizedInternalFormat::GL_R16F => 0x822D,
            GLSizedInternalFormat::GL_RG16F => 0x822F,
            GLSizedInternalFormat::GL_RGB16F => 0x881B,
            GLSizedInternalFormat::GL_RGBA16F => 0x881A,
            GLSizedInternalFormat::GL_R32F => 0x822E,
            GLSizedInternalFormat::GL_RG32F => 0x8230,
            GLSizedInternalFormat::GL_RGB32F => 0x8815,
            GLSizedInternalFormat::GL_RGBA32F => 0x8814,
            GLSizedInternalFormat::GL_R11F_G11F_B10F => 0x8C3A,
            GLSizedInternalFormat::GL_RGB9_E5 => 0x8C3D,
            GLSizedInternalFormat::GL_R8I => 0x8231,
            GLSizedInternalFormat::GL_R8UI => 0x8232,
            GLSizedInternalFormat::GL_R16I => 0x8233,
            GLSizedInternalFormat::GL_R16UI => 0x8234,
            GLSizedInternalFormat::GL_R32I => 0x8235,
            GLSizedInternalFormat::GL_R32UI => 0x8236,
            GLSizedInternalFormat::GL_RG8I => 0x8237,
            GLSizedInternalFormat::GL_RG8UI => 0x8238,
            GLSizedInternalFormat::GL_RG16I => 0x8239,
            GLSizedInternalFormat::GL_RG16UI => 0x823A,
            GLSizedInternalFormat::GL_RG32I => 0x823B,
            GLSizedInternalFormat::GL_RG32UI => 0x823C,
            GLSizedInternalFormat::GL_RGB8I => 0x8D8F,
            GLSizedInternalFormat::GL_RGB8UI => 0x8D7D,
            GLSizedInternalFormat::GL_RGB16I => 0x8D89,
            GLSizedInternalFormat::GL_RGB16UI => 0x8D77,
            GLSizedInternalFormat::GL_RGB32I => 0x8D83,
            GLSizedInternalFormat::GL_RGB32UI => 0x8D71,
            GLSizedInternalFormat::GL_RGBA8I => 0x8D8E,
            GLSizedInternalFormat::GL_RGBA8UI => 0x8D7C,
            GLSizedInternalFormat::GL_RGBA16I => 0x8D88,
            GLSizedInternalFormat::GL_RGBA16UI => 0x8D76,
            GLSizedInternalFormat::GL_RGBA32I => 0x8D82,
            GLSizedInternalFormat::GL_RGBA32UI => 0x8D70,
            GLSizedInternalFormat::GL_DEPTH_COMPONENT16 => 0x81A5,
            GLSizedInternalFormat::GL_DEPTH_COMPONENT24 => 0x81A6,
            GLSizedInternalFormat::GL_DEPTH_COMPONENT32 => 0x81A7,
            GLSizedInternalFormat::GL_DEPTH_COMPONENT32F => 0x8CAC,
            GLSizedInternalFormat::GL_DEPTH24_STENCIL8 => 0x88F0,
            GLSizedInternalFormat::GL_DEPTH32F_STENCIL8 => 0x8CAD,
            GLSizedInternalFormat::GL_STENCIL_INDEX1 => 0x8D46,
            GLSizedInternalFormat::GL_STENCIL_INDEX4 => 0x8D47,
            GLSizedInternalFormat::GL_STENCIL_INDEX8 => 0x8D48,
            GLSizedInternalFormat::GL_STENCIL_INDEX16 => 0x8D49,
        }
    }

    /// Looks a format up by its OpenGL enumerant value.
    pub fn from_u32(v: u32) -> (r: Option<Self>)
        ensures
            r == Self::spec_from_u32(v),
    {
        if v == 0x8229 { Some(GLSizedInternalFormat::GL_R8) }
        else if v == 0x8F94 { Some(GLSizedInternalFormat::GL_R8_SNORM) }
        else if v == 0x822A { Some(GLSizedInternalFormat::GL_R16) }
        else if v == 0x8F98 { Some(GLSizedInternalFormat::GL_R16_SNORM) }
        else if v == 0x822B { Some(GLSizedInternalFormat::GL_RG8) }
        else if v == 0x8F95 { Some(GLSizedInternalFormat::GL_RG8_SNORM) }
        else if v == 0x822C { Some(GLSizedInternalFormat::GL_RG16) }
        else if v == 0x8F99 { Some(GLSizedInternalFormat::GL_RG16_SNORM) }
        else if v == 0x2A10 { Some(GLSizedInternalFormat::GL_R3_G3_B2) }
        else if v == 0x804F { Some(GLSizedInternalFormat::GL_RGB4) }
        else if v == 0x8050 { Some(GLSizedInternalFormat::GL_RGB5) }
        else if v == 0x8D62 { Some(GLSizedInternalFormat::GL_RGB565) }
        else if v == 0x8051 { Some(GLSizedInternalFormat::GL_RGB8) }
        else if v == 0x8F96 { Some(GLSizedInternalFormat::GL_RGB8_SNORM) }
        else if v == 0x8052 { Some(GLSizedInternalFormat::GL_RGB10) }
        else if v == 0x8053 { Some(GLSizedInternalFormat::GL_RGB12) }
        else if v == 0x8054 { Some(GLSizedInternalFormat::GL_RGB16) }
        else if v == 0x8F9A { Some(GLSizedInternalFormat::GL_RGB16_SNORM) }
        else if v == 0x8055 { Some(GLSizedInternalFormat::GL_RGBA2) }
        else if v == 0x8056 { Some(GLSizedInternalFormat::GL_RGBA4) }
        else if v == 0x8057 { Some(GLSizedInternalFormat::GL_RGB5_A1) }
        else if v == 0x8058 { Some(GLSizedInternalFormat::GL_RGBA8) }
        else if v == 0x8F97 { Some(GLSizedInternalFormat::GL_RGBA8_SNORM) }
        else if v == 0x8059 { Some(GLSizedInternalFormat::GL_RGB10_A2) }
        else if v == 0x906F { Some(GLSizedInternalFormat::GL_RGB10_A2UI) }
        else if v == 0x805A { Some(GLSizedInternalFormat::GL_RGBA12) }
        else if v == 0x805B { Some(GLSizedInternalFormat::GL_RGBA16) }
        else if v == 0x8F9B { Some(GLSizedInternalFormat::GL_RGBA16_SNORM) }
        else if v == 0x8C41 { Some(GLSizedInternalFormat::GL_SRGB8) }
        else if v == 0x8C43 { Some(GLSizedInternalFormat::GL_SRGB8_ALPHA8) }
        else if v == 0x822D { Some(GLSizedInternalFormat::GL_R16F) }
        else if v == 0x822F { Some(GLSizedInternalFormat::GL_RG16F) }
        else if v == 0x881B { Some(GLSizedInternalFormat::GL_RGB16F) }
        else if v == 0x881A { Some(GLSizedInternalFormat::GL_RGBA16F) }
        else if v == 0x822E { Some(GLSizedInternalFormat::GL_R32F) }
        else if v == 0x8230 { Some(GLSizedInternalFormat::GL_RG32F) }
        else if v == 0x8815 { Some(GLSizedInternalFormat::GL_RGB32F) }
        else if v == 0x8814 { Some(GLSizedInternalFormat::GL_RGBA32F) }
        else if v == 0x8C3A { Some(GLSizedInternalFormat::GL_R11F_G11F_B10F) }
        else if v == 0x8C3D { Some(GLSizedInternalFormat::GL_RGB9_E5) }
        else if v == 0x8231 { Some(GLSizedInternalFormat::GL_R8I) }
        else if v == 0x8232 { Some(GLSizedInternalFormat::GL_R8UI) }
        else if v == 0x8233 { Some(GLSizedInternalFormat::GL_R16I) }
        else if v == 0x8234 { Some(GLSizedInternalFormat::GL_R16UI) }
        else if v == 0x8235 { Some(GLSizedInternalFormat::GL_R32I) }
        else if v == 0x8236 { Some(GLSizedInternalFormat::GL_R32UI) }
        else if v == 0x8237 { Some(GLSizedInternalFormat::GL_RG8I) }
        else if v == 0x8238 { Some(GLSizedInternalFormat::GL_RG8UI) }
        else if v == 0x8239 { Some(GLSizedInternalFormat::GL_RG16I) }
        else if v == 0x823A { Some(GLSizedInternalFormat::GL_RG16UI) }
        else if v == 0x823B { Some(GLSizedInternalFormat::GL_RG32I) }
        else if v == 0x823C { Some(GLSizedInternalFormat::GL_RG32UI) }
        else if v == 0x8D8F { Some(GLSizedInternalFormat::GL_RGB8I) }
        else if v == 0x8D7D { Some(GLSizedInternalFormat::GL_RGB8UI) }
        else if v == 0x8D89 { Some(GLSizedInternalFormat::GL_RGB16I) }
        else if v == 0x8D77 { Some(GLSizedInternalFormat::GL_RGB16UI) }
        else if v == 0x8D83 { Some(GLSizedInternalFormat::GL_RGB32I) }
        else if v == 0x8D71 { Some(GLSizedInternalFormat::GL_RGB32UI) }
        else if v == 0x8D8E { Some(GLSizedInternalFormat::GL_RGBA8I) }
        else if v == 0x8D7C { Some(GLSizedInternalFormat::GL_RGBA8UI) }
        else if v == 0x8D88 { Some(GLSizedInternalFormat::GL_RGBA16I) }
        else if v == 0x8D76 { Some(GLSizedInternalFormat::GL_RGBA16UI) }
        else if v == 0x8D82 { Some(GLSizedInternalFormat::GL_RGBA32I) }
        else if v == 0x8D70 { Some(GLSizedInternalFormat::GL_RGBA32UI) }
        else if v == 0x81A5 { Some(GLSizedInternalFormat::GL_DEPTH_COMPONENT16) }
        else if v == 0x81A6 { Some(GLSizedInternalFormat::GL_DEPTH_COMPONENT24) }
        else if v == 0x81A7 { Some(GLSizedInternalFormat::GL_DEPTH_COMPONENT32) }
        else if v == 0x8CAC { Some(GLSizedInternalFormat::GL_DEPTH_COMPONENT32F) }
        else if v == 0x88F0 { Some(GLSizedInternalFormat::GL_DEPTH24_STENCIL8) }
        else if v == 0x8CAD { Some(GLSizedInternalFormat::GL_DEPTH32F_STENCIL8) }
        else if v == 0x8D46 { Some(GLSizedInternalFormat::GL_STENCIL_INDEX1) }
        else if v == 0x8D47 { Some(GLSizedInternalFormat::GL_STENCIL_INDEX4) }
        else if v == 0x8D48 { Some(GLSizedInternalFormat::GL_STENCIL_INDEX8) }
        else if v == 0x8D49 { Some(GLSizedInternalFormat::GL_STENCIL_INDEX16) }
        else { None }
    }

    /// Looking up the enumerant of a format gives that format back.
    pub proof fn lemma_from_code(f: Self)
        ensures
            Self::spec_from_u32(f.spec_code()) == Some(f),
    {
        match f {
            GLSizedInternalFormat::GL_R8 => {},
            GLSizedInternalFormat::GL_R8_SNORM => {},
            GLSizedInternalFormat::GL_R16 => {},
            GLSizedInternalFormat::GL_R16_SNORM => {},
            GLSizedInternalFormat::GL_RG8 => {},
            GLSizedInternalFormat::GL_RG8_SNORM => {},
            GLSizedInternalFormat::GL_RG16 => {},
            GLSizedInternalFormat::GL_RG16_SNORM => {},
            GLSizedInternalFormat::GL_R3_G3_B2 => {},
            GLSizedInternalFormat::GL_RGB4 => {},
            GLSizedInternalFormat::GL_RGB5 => {},
            GLSizedInternalFormat::GL_RGB565 => {},
            GLSizedInternalFormat::GL_RGB8 => {},
            GLSizedInternalFormat::GL_RGB8_SNORM => {},
            GLSizedInternalFormat::GL_RGB10 => {},
            GLSizedInternalFormat::GL_RGB12 => {},
            GLSizedInternalFormat::GL_RGB16 => {},
            GLSizedInternalFormat::GL_RGB16_SNORM => {},
            GLSizedInternalFormat::GL_RGBA2 => {},
            GLSizedInternalFormat::GL_RGBA4 => {},
            GLSizedInternalFormat::GL_RGB5_A1 => {},
            GLSizedInternalFormat::GL_RGBA8 => {},
            GLSizedInternalFormat::GL_RGBA8_SNORM => {},
            GLSizedInternalFormat::GL_RGB10_A2 => {},
            GLSizedInternalFormat::GL_RGB10_A2UI => {},
            GLSizedInternalFormat::GL_RGBA12 => {},
            GLSizedInternalFormat::GL_RGBA16 => {},
            GLSizedInternalFormat::GL_RGBA16_SNORM => {},
            GLSizedInternalFormat::GL_SRGB8 => {},
            GLSizedInternalFormat::GL_SRGB8_ALPHA8 => {},
            GLSizedInternalFormat::GL_R16F => {},
            GLSizedInternalFormat::GL_RG16F => {},
            GLSizedInternalFormat::GL_RGB16F => {},
            GLSizedInternalFormat::GL_RGBA16F => {},
            GLSizedInternalFormat::GL_R32F => {},
            GLSizedInternalFormat::GL_RG32F => {},
            GLSizedInternalFormat::GL_RGB32F => {},
            GLSizedInternalFormat::GL_RGBA32F => {},
            GLSizedInternalFormat::GL_R11F_G11F_B10F => {},
            GLSizedInternalFormat::GL_RGB9_E5 => {},
            GLSizedInternalFormat::GL_R8I => {},
            GLSizedInternalFormat::GL_R8UI => {},
            GLSizedInternalFormat::GL_R16I => {},
            GLSizedInternalFormat::GL_R16UI => {},
            GLSizedInternalFormat::GL_R32I => {},
            GLSizedInternalFormat::GL_R32UI => {},
            GLSizedInternalFormat::GL_RG8I => {},
            GLSizedInternalFormat::GL_RG8UI => {},
            GLSizedInternalFormat::GL_RG16I => {},
            GLSizedInternalFormat::GL_RG16UI => {},
            GLSizedInternalFormat::GL_RG32I => {},
            GLSizedInternalFormat::GL_RG32UI => {},
            GLSizedInternalFormat::GL_RGB8I => {},
            GLSizedInternalFormat::GL_RGB8UI => {},
            GLSizedInternalFormat::GL_RGB16I => {},
            GLSizedInternalFormat::GL_RGB16UI => {},
            GLSizedInternalFormat::GL_RGB32I => {},
            GLSizedInternalFormat::GL_RGB32UI => {},
            GLSizedInternalFormat::GL_RGBA8I => {},
            GLSizedInternalFormat::GL_RGBA8UI => {},
            GLSizedInternalFormat::GL_RGBA16I => {},
            GLSizedInternalFormat::GL_RGBA16UI => {},
            GLSizedInternalFormat::GL_RGBA32I => {},
            GLSizedInternalFormat::GL_RGBA32UI => {},
            GLSizedInternalFormat::GL_DEPTH_COMPONENT16 => {},
            GLSizedInternalFormat::GL_DEPTH_COMPONENT24 => {},
            GLSizedInternalFormat::GL_DEPTH_COMPONENT32 => {},
            GLSizedInternalFormat::GL_DEPTH_COMPONENT32F => {},
            GLSizedInternalFormat::GL_DEPTH24_STENCIL8 => {},
            GLSizedInternalFormat::GL_DEPTH32F_STENCIL8 => {},
            GLSizedInternalFormat::GL_STENCIL_INDEX1 => {},
            GLSizedInternalFormat::GL_STENCIL_INDEX4 => {},
            GLSizedInternalFormat::GL_STENCIL_INDEX8 => {},
            GLSizedInternalFormat::GL_STENCIL_INDEX16 => {},
        }
    }

    /// A format found by its enumerant has that enumerant.
    pub proof fn lemma_code_of_found(v: u32)
        ensures
            Self::spec_from_u32(v) matches Some(f) ==> f.spec_code() == v,
    {
    }
}

/// Pixel data formats of an uncompressed KTX texture (`glFormat`).
#[allow(non_camel_case_types)]
#[derive(Debug, Clone, Copy, PartialEq, Eq, Structural)]
pub enum GLFormat {
    GL_STENCIL_INDEX,
    GL_DEPTH_COMPONENT,
    GL_DEPTH_STENCIL,
    GL_RED,
    GL_GREEN,
    GL_BLUE,
    GL_RG,
    GL_RGB,
    GL_RGBA,
    GL_BGR,
    GL_BGRA,
    GL_RED_INTEGER,
    GL_GREEN_INTEGER,
    GL_BLUE_INTEGER,
    GL_RG_INTEGER,
    GL_RGB_INTEGER,
    GL_RGBA_INTEGER,
    GL_BGR_INTEGER,
    GL_BGRA_INTEGER,
}

impl GLFormat {
    /// The OpenGL enumerant value of this format.
    pub open spec fn spec_code(self) -> u32 {
        match self {
            GLFormat::GL_STENCIL_INDEX => 0x1901,
            GLFormat::GL_DEPTH_COMPONENT => 0x1902,
            GLFormat::GL_DEPTH_STENCIL => 0x84F9,
            GLFormat::GL_RED => 0x1903,
            GLFormat::GL_GREEN => 0x1904,
            GLFormat::GL_BLUE => 0x1905,
            GLFormat::GL_RG => 0x8227,
            GLFormat::GL_RGB => 0x1907,
            GLFormat::GL_RGBA => 0x1908,
            GLFormat::GL_BGR => 0x80E0,
            GLFormat::GL_BGRA => 0x80E1,
            GLFormat::GL_RED_INTEGER => 0x8D94,
            GLFormat::GL_GREEN_INTEGER => 0x8D95,
            GLFormat::GL_BLUE_INTEGER => 0x8D96,
            GLFormat::GL_RG_INTEGER => 0x8228,
            GLFormat::GL_RGB_INTEGER => 0x8D98,
            GLFormat::GL_RGBA_INTEGER => 0x8D99,
            GLFormat::GL_BGR_INTEGER => 0x8D9A,
            GLFormat::GL_BGRA_INTEGER => 0x8D9B,
        }
    }

    /// The format whose OpenGL enumerant is `v`, if there is one.
    pub open spec fn spec_from_u32(v: u32) -> Option<Self> {
        if v == 0x1901 { Some(GLFormat::GL_STENCIL_INDEX) }
        else if v == 0x1902 { Some(GLFormat::GL_DEPTH_COMPONENT) }
        else if v == 0x84F9 { Some(GLFormat::GL_DEPTH_STENCIL) }
        else if v == 0x1903 { Some(GLFormat::GL_RED) }
        else if v == 0x1904 { Some(GLFormat::GL_GREEN) }
        else if v == 0x1905 { Some(GLFormat::GL_BLUE) }
        else if v == 0x8227 { Some(GLFormat::GL_RG) }
        else if v == 0x1907 { Some(GLFormat::GL_RGB) }
        else if v == 0x1908 { Some(GLFormat::GL_RGBA) }
        else if v == 0x80E0 { Some(GLFormat::GL_BGR) }
        else if v == 0x80E1 { Some(GLFormat::GL_BGRA) }
        else if v == 0x8D94 { Some(GLFormat::GL_RED_INTEGER) }
        else if v == 0x8D95 { Some(GLFormat::GL_GREEN_INTEGER) }
        else if v == 0x8D96 { Some(GLFormat::GL_BLUE_INTEGER) }
        else if v == 0x8228 { Some(GLFormat::GL_RG_INTEGER) }
        else if v == 0x8D98 { Some(GLFormat::GL_RGB_INTEGER) }
        else if v == 0x8D99 { Some(GLFormat::GL_RGBA_INTEGER) }
        else if v == 0x8D9A { Some(GLFormat::GL_BGR_INTEGER) }
        else if v == 0x8D9B { Some(GLFormat::GL_BGRA_INTEGER) }
        else { None }
    }

    /// The OpenGL enumerant value of this format.
    pub fn code(&self) -> (r: u32)
        ensures
            r == self.spec_code(),
    {
        match self {
            GLFormat::GL_STENCIL_INDEX => 0x1901,
            GLFormat::GL_DEPTH_COMPONENT => 0x1902,
            GLFormat::GL_DEPTH_STENCIL => 0x84F9,
            GLFormat::GL_RED => 0x1903,
            GLFormat::GL_GREEN => 0x1904,
            GLFormat::GL_BLUE => 0x1905,
            GLFormat::GL_RG => 0x8227,
            GLFormat::GL_RGB => 0x1907,
            GLFormat::GL_RGBA => 0x1908,
            GLFormat::GL_BGR => 0x80E0,
            GLFormat::GL_BGRA => 0x80E1,
            GLFormat::GL_RED_INTEGER => 0x8D94,
            GLFormat::GL_GREEN_INTEGER => 0x8D95,
            GLFormat::GL_BLUE_INTEGER => 0x8D96,
            GLFormat::GL_RG_INTEGER => 0x8228,
            GLFormat::GL_RGB_INTEGER => 0x8D98,
            GLFormat::GL_RGBA_INTEGER => 0x8D99,
            GLFormat::GL_BGR_INTEGER => 0x8D9A,
            GLFormat::GL_BGRA_INTEGER => 0x8D9B,
        }
    }

    /// Looks a format up by its OpenGL enumerant value.
    pub fn from_u32(v: u32) -> (r: Option<Self>)
        ensures
            r == Self::spec_from_u32(v),
    {
        if v == 0x1901 { Some(GLFormat::GL_STENCIL_INDEX) }
        else if v == 0x1902 { Some(GLFormat::GL_DEPTH_COMPONENT) }
        else if v == 0x84F9 { Some(GLFormat::GL_DEPTH_STENCIL) }
        else if v == 0x1903 { Some(GLFormat::GL_RED) }
        else if v == 0x1904 { Some(GLFormat::GL_GREEN) }
        else if v == 0x1905 { Some(GLFormat::GL_BLUE) }
        else if v == 0x8227 { Some(GLFormat::GL_RG) }
        else if v == 0x1907 { Some(GLFormat::GL_RGB) }
        else if v == 0x1908 { Some(GLFormat::GL_RGBA) }
        else if v == 0x80E0 { Some(GLFormat::GL_BGR) }
        else if v == 0x80E1 { Some(GLFormat::GL_BGRA) }
        else if v == 0x8D94 { Some(GLFormat::GL_RED_INTEGER) }
        else if v == 0x8D95 { Some(GLFormat::GL_GREEN_INTEGER) }
        else if v == 0x8D96 { Some(GLFormat::GL_BLUE_INTEGER) }
        else if v == 0x8228 { Some(GLFormat::GL_RG_INTEGER) }
        else if v == 0x8D98 { Some(GLFormat::GL_RGB_INTEGER) }
        else if v == 0x8D99 { Some(GLFormat::GL_RGBA_INTEGER) }
        else if v == 0x8D9A { Some(GLFormat::GL_BGR_INTEGER) }
        else if v == 0x8D9B { Some(GLFormat::GL_BGRA_INTEGER) }
        else { None }
    }

    /// Looking up the enumerant of a format gives that format back.
    pub proof fn lemma_from_code(f: Self)
        ensures
            Self::spec_from_u32(f.spec_code()) == Some(f),
    {
        match f {
            GLFormat::GL_STENCIL_INDEX => {},
            GLFormat::GL_DEPTH_COMPONENT => {},
            GLFormat::GL_DEPTH_STENCIL => {},
            GLFormat::GL_RED => {},
            GLFormat::GL_GREEN => {},
            GLFormat::GL_BLUE => {},
            GLFormat::GL_RG => {},
            GLFormat::GL_RGB => {},
            GLFormat::GL_RGBA => {},
            GLFormat::GL_BGR => {},
            GLFormat::GL_BGRA => {},
            GLFormat::GL_RED_INTEGER => {},
            GLFormat::GL_GREEN_INTEGER => {},
            GLFormat::GL_BLUE_INTEGER => {},
            GLFormat::GL_RG_INTEGER => {},
            GLFormat::GL_RGB_INTEGER => {},
            GLFormat::GL_RGBA_INTEGER => {},
            GLFormat::GL_BGR_INTEGER => {},
            GLFormat::GL_BGRA_INTEGER => {},
        }
    }

    /// A format found by its enumerant has that enumerant.
    pub proof fn lemma_code_of_found(v: u32)
        ensures
            Self::spec_from_u32(v) matches Some(f) ==> f.spec_code() == v,
    {
    }
}

/// Pixel data types of an uncompressed KTX texture (`glType`).
#[allow(non_camel_case_types)]
#[derive(Debug, Clone, Copy, PartialEq, Eq, Structural)]
pub enum GLType {
    GL_UNSIGNED_BYTE,
    GL_BYTE,
    GL_UNSIGNED_SHORT,
    GL_SHORT,
    GL_UNSIGNED_INT,
    GL_INT,
    GL_HALF_FLOAT,
    GL_FLOAT,
    GL_UNSIGNED_BYTE_3_3_2,
    GL_UNSIGNED_BYTE_2_3_3_REV,
    GL_UNSIGNED_SHORT_5_6_5,
    GL_UNSIGNED_SHORT_5_6_5_REV,
    GL_UNSIGNED_SHORT_4_4_4_4,
    GL_UNSIGNED_SHORT_4_4_4_4_REV,
    GL_UNSIGNED_SHORT_5_5_5_1,
    GL_UNSIGNED_SHORT_1_5_5_5_REV,
    GL_UNSIGNED_INT_8_8_8_8,
    GL_UNSIGNED_INT_8_8_8_8_REV,
    GL_UNSIGNED_INT_10_10_10_2,
    GL_UNSIGNED_INT_2_10_10_10_REV,
    GL_UNSIGNED_INT_24_8,
    GL_UNSIGNED_INT_10F_11F_11F_REV,
    GL_UNSIGNED_INT_5_9_9_9_REV,
    GL_FLOAT_32_UNSIGNED_INT_24_8_REV,
}

impl GLType {
    /// The OpenGL enumerant value of this format.
    pub open spec fn spec_code(self) -> u32 {
        match self {
            GLType::GL_UNSIGNED_BYTE => 0x1401,
            GLType::GL_BYTE => 0x1400,
            GLType::GL_UNSIGNED_SHORT => 0x1403,
            GLType::GL_SHORT => 0x1402,
            GLType::GL_UNSIGNED_INT => 0x1405,
            GLType::GL_INT => 0x1404,
            GLType::GL_HALF_FLOAT => 0x140B,
            GLType::GL_FLOAT => 0x1406,
            GLType::GL_UNSIGNED_BYTE_3_3_2 => 0x8032,
            GLType::GL_UNSIGNED_BYTE_2_3_3_REV => 0x8362,
            GLType::GL_UNSIGNED_SHORT_5_6_5 => 0x8363,
            GLType::GL_UNSIGNED_SHORT_5_6_5_REV => 0x8364,
            GLType::GL_UNSIGNED_SHORT_4_4_4_4 => 0x8033,
            GLType::GL_UNSIGNED_SHORT_4_4_4_4_REV => 0x8365,
            GLType::GL_UNSIGNED_SHORT_5_5_5_1 => 0x8034,
            GLType::GL_UNSIGNED_SHORT_1_5_5_5_REV => 0x8366,
            GLType::GL_UNSIGNED_INT_8_8_8_8 => 0x8035,
            GLType::GL_UNSIGNED_INT_8_8_8_8_REV => 0x8367,
            GLType::GL_UNSIGNED_INT_10_10_10_2 => 0x8036,
            GLType::GL_UNSIGNED_INT_2_10_10_10_REV => 0x8368,
            GLType::GL_UNSIGNED_INT_24_8 => 0x84FA,
            GLType::GL_UNSIGNED_INT_10F_11F_11F_REV => 0x8C3B,
            GLType::GL_UNSIGNED_INT_5_9_9_9_REV => 0x8C3E,
            GLType::GL_FLOAT_32_UNSIGNED_INT_24_8_REV => 0x8DAD,
        }
    }

    /// The format whose OpenGL enumerant is `v`, if there is one.
    pub open spec fn spec_from_u32(v: u32) -> Option<Self> {
        if v == 0x1401 { Some(GLType::GL_UNSIGNED_BYTE) }
        else if v == 0x1400 { Some(GLType::GL_BYTE) }
        else if v == 0x1403 { Some(GLType::GL_UNSIGNED_SHORT) }
        else if v == 0x1402 { Some(GLType::GL_SHORT) }
        else if v == 0x1405 { Some(GLType::GL_UNSIGNED_INT) }
        else if v == 0x1404 { Some(GLType::GL_INT) }
        else if v == 0x140B { Some(GLType::GL_HALF_FLOAT) }
        else if v == 0x1406 { Some(GLType::GL_FLOAT) }
        else if v == 0x8032 { Some(GLType::GL_UNSIGNED_BYTE_3_3_2) }
        else if v == 0x8362 { Some(GLType::GL_UNSIGNED_BYTE_2_3_3_REV) }
        else if v == 0x8363 { Some(GLType::GL_UNSIGNED_SHORT_5_6_5) }
        else if v == 0x8364 { Some(GLType::GL_UNSIGNED_SHORT_5_6_5_REV) }
        else if v == 0x8033 { Some(GLType::GL_UNSIGNED_SHORT_4_4_4_4) }
        else if v == 0x8365 { Some(GLType::GL_UNSIGNED_SHORT_4_4_4_4_REV) }
        else if v == 0x8034 { Some(GLType::GL_UNSIGNED_SHORT_5_5_5_1) }
        else if v == 0x8366 { Some(GLType::GL_UNSIGNED_SHORT_1_5_5_5_REV) }
        else if v == 0x8035 { Some(GLType::GL_UNSIGNED_INT_8_8_8_8) }
        else if v == 0x8367 { Some(GLType::GL_UNSIGNED_INT_8_8_8_8_REV) }
        else if v == 0x8036 { Some(GLType::GL_UNSIGNED_INT_10_10_10_2) }
        else if v == 0x8368 { Some(GLType::GL_UNSIGNED_INT_2_10_10_10_REV) }
        else if v == 0x84FA { Some(GLType::GL_UNSIGNED_INT_24_8) }
        else if v == 0x8C3B { Some(GLType::GL_UNSIGNED_INT_10F_11F_11F_REV) }
        else if v == 0x8C3E { Some(GLType::GL_UNSIGNED_INT_5_9_9_9_REV) }
        else if v == 0x8DAD { Some(GLType::GL_FLOAT_32_UNSIGNED_INT_24_8_REV) }
        else { None }
    }

    /// The OpenGL enumerant value of this format.
    pub fn code(&self) -> (r: u32)
        ensures
            r == self.spec_code(),
    {
        match self {
            GLType::GL_UNSIGNED_BYTE => 0x1401,
            GLType::GL_BYTE => 0x1400,
            GLType::GL_UNSIGNED_SHORT => 0x1403,
            GLType::GL_SHORT => 0x1402,
            GLType::GL_UNSIGNED_INT => 0x1405,
            GLType::GL_INT => 0x1404,
            GLType::GL_HALF_FLOAT => 0x140B,
            GLType::GL_FLOAT => 0x1406,
            GLType::GL_UNSIGNED_BYTE_3_3_2 => 0x8032,
            GLType::GL_UNSIGNED_BYTE_2_3_3_REV => 0x8362,
            GLType::GL_UNSIGNED_SHORT_5_6_5 => 0x8363,
            GLType::GL_UNSIGNED_SHORT_5_6_5_REV => 0x8364,
            GLType::GL_UNSIGNED_SHORT_4_4_4_4 => 0x8033,
            GLType::GL_UNSIGNED_SHORT_4_4_4_4_REV => 0x8365,
            GLType::GL_UNSIGNED_SHORT_5_5_5_1 => 0x8034,
            GLType::GL_UNSIGNED_SHORT_1_5_5_5_REV => 0x8366,
            GLType::GL_UNSIGNED_INT_8_8_8_8 => 0x8035,
            GLType::GL_UNSIGNED_INT_8_8_8_8_REV => 0x8367,
            GLType::GL_UNSIGNED_INT_10_10_10_2 => 0x8036,
            GLType::GL_UNSIGNED_INT_2_10_10_10_REV => 0x8368,
            GLType::GL_UNSIGNED_INT_24_8 => 0x84FA,
            GLType::GL_UNSIGNED_INT_10F_11F_11F_REV => 0x8C3B,
            GLType::GL_UNSIGNED_INT_5_9_9_9_REV => 0x8C3E,
            GLType::GL_FLOAT_32_UNSIGNED_INT_24_8_REV => 0x8DAD,
        }
    }

    /// Looks a format up by its OpenGL enumerant value.
    pub fn from_u32(v: u32) -> (r: Option<Self>)
        ensures
            r == Self::spec_from_u32(v),
    {
        if v == 0x1401 { Some(GLType::GL_UNSIGNED_BYTE) }
        else if v == 0x1400 { Some(GLType::GL_BYTE) }
        else if v == 0x1403 { Some(GLType::GL_UNSIGNED_SHORT) }
        else if v == 0x1402 { Some(GLType::GL_SHORT) }
        else if v == 0x1405 { Some(GLType::GL_UNSIGNED_INT) }
        else if v == 0x1404 { Some(GLType::GL_INT) }
        else if v == 0x140B { Some(GLType::GL_HALF_FLOAT) }
        else if v == 0x1406 { Some(GLType::GL_FLOAT) }
        else if v == 0x8032 { Some(GLType::GL_UNSIGNED_BYTE_3_3_2) }
        else if v == 0x8362 { Some(GLType::GL_UNSIGNED_BYTE_2_3_3_REV) }
        else if v == 0x8363 { Some(GLType::GL_UNSIGNED_SHORT_5_6_5) }
        else if v == 0x8364 { Some(GLType::GL_UNSIGNED_SHORT_5_6_5_REV) }
        else if v == 0x8033 { Some(GLType::GL_UNSIGNED_SHORT_4_4_4_4) }
        else if v == 0x8365 { Some(GLType::GL_UNSIGNED_SHORT_4_4_4_4_REV) }
        else if v == 0x8034 { Some(GLType::GL_UNSIGNED_SHORT_5_5_5_1) }
        else if v == 0x8366 { Some(GLType::GL_UNSIGNED_SHORT_1_5_5_5_REV) }
        else if v == 0x8035 { Some(GLType::GL_UNSIGNED_INT_8_8_8_8) }
        else if v == 0x8367 { Some(GLType::GL_UNSIGNED_INT_8_8_8_8_REV) }
        else if v == 0x8036 { Some(GLType::GL_UNSIGNED_INT_10_10_10_2) }
        else if v == 0x8368 { Some(GLType::GL_UNSIGNED_INT_2_10_10_10_REV) }
        else if v == 0x84FA { Some(GLType::GL_UNSIGNED_INT_24_8) }
        else if v == 0x8C3B { Some(GLType::GL_UNSIGNED_INT_10F_11F_11F_REV) }
        else if v == 0x8C3E { Some(GLType::GL_UNSIGNED_INT_5_9_9_9_REV) }
        else if v == 0x8DAD { Some(GLType::GL_FLOAT_32_UNSIGNED_INT_24_8_REV) }
        else { None }
    }

    /// Looking up the enumerant of a format gives that format back.
    pub proof fn lemma_from_code(f: Self)
        ensures
            Self::spec_from_u32(f.spec_code()) == Some(f),
    {
        match f {
            GLType::GL_UNSIGNED_BYTE => {},
            GLType::GL_BYTE => {},
            GLType::GL_UNSIGNED_SHORT => {},
            GLType::GL_SHORT => {},
            GLType::GL_UNSIGNED_INT => {},
            GLType::GL_INT => {},
            GLType::GL_HALF_FLOAT => {},
            GLType::GL_FLOAT => {},
            GLType::GL_UNSIGNED_BYTE_3_3_2 => {},
            GLType::GL_UNSIGNED_BYTE_2_3_3_REV => {},
            GLType::GL_UNSIGNED_SHORT_5_6_5 => {},
            GLType::GL_UNSIGNED_SHORT_5_6_5_REV => {},
            GLType::GL_UNSIGNED_SHORT_4_4_4_4 => {},
            GLType::GL_UNSIGNED_SHORT_4_4_4_4_REV => {},
            GLType::GL_UNSIGNED_SHORT_5_5_5_1 => {},
            GLType::GL_UNSIGNED_SHORT_1_5_5_5_REV => {},
            GLType::GL_UNSIGNED_INT_8_8_8_8 => {},
            GLType::GL_UNSIGNED_INT_8_8_8_8_REV => {},
            GLType::GL_UNSIGNED_INT_10_10_10_2 => {},
            GLType::GL_UNSIGNED_INT_2_10_10_10_REV => {},
            GLType::GL_UNSIGNED_INT_24_8 => {},
            GLType::GL_UNSIGNED_INT_10F_11F_11F_REV => {},
            GLType::GL_UNSIGNED_INT_5_9_9_9_REV => {},
            GLType::GL_FLOAT_32_UNSIGNED_INT_24_8_REV => {},
        }
    }

    /// A format found by its enumerant has that enumerant.
    pub proof fn lemma_code_of_found(v: u32)
        ensures
            Self::spec_from_u32(v) matches Some(f) ==> f.spec_code() == v,
    {
    }
}

} // verus!
