//! The KTX 1.1 texture container: header, layout arithmetic and the texture
//! model that the reader in `ktx_reader` fills.

use vstd::prelude::*;
use vstd::arithmetic::div_mod::{lemma_fundamental_div_mod, lemma_mod_multiples_basic};
use vstd::arithmetic::power2::pow2;
use vstd::bits::{low_bits_mask, lemma_usize_low_bits_mask_is_mod, lemma_usize_pow2_no_overflow};
use crate::gl_formats::GLSizedInternalFormat;

verus! {

/// The twelve identifier bytes that open every KTX 1.1 file.
pub const FILE_IDENTIFIER: [u8; 12] = [0xAB, 0x4B, 0x54, 0x58, 0x20, 0x31, 0x31, 0xBB, 0x0D, 0x0A, 0x1A, 0x0A];

/// The row alignment (`GL_UNPACK_ALIGNMENT`) that KTX image rows are padded to.
pub const KTX_GL_UNPACK_ALIGNMENT: usize = 4;

/// The Vulkan enumerant of `VK_FORMAT_B10G11R11_UFLOAT_PACK32`.
pub const VK_FORMAT_B10G11R11_UFLOAT_PACK32: u32 = 122;

/// The flag of a format whose components are packed into one value.
pub const GL_FORMAT_SIZE_PACKED_BIT: u32 = 0x1;

/// Block layout of a sized internal format.
#[derive(Debug, Clone, Copy, PartialEq, Eq, Structural)]
pub struct FormatSize {
    pub flags: u32,
    pub palette_size_in_bits: usize,
    pub block_size_in_bits: usize,
    pub block_width: usize,
    pub block_height: usize,
    pub block_depth: usize,
}

/// The formats whose block layout is known: the one-byte red formats and the
/// two packed 32-bit formats.
pub open spec fn format_size_known(f: GLSizedInternalFormat) -> bool {
    ||| f == GLSizedInternalFormat::GL_R8
    ||| f == GLSizedInternalFormat::GL_R8_SNORM
    ||| f == GLSizedInternalFormat::GL_R8UI
    ||| f == GLSizedInternalFormat::GL_R11F_G11F_B10F
    ||| f == GLSizedInternalFormat::GL_RGB9_E5
}

/// Whether a format packs its components into one 32-bit value.
pub open spec fn is_packed_format(f: GLSizedInternalFormat) -> bool {
    f == GLSizedInternalFormat::GL_R11F_G11F_B10F || f == GLSizedInternalFormat::GL_RGB9_E5
}

/// The block layout of a format whose layout is known: one texel per block,
/// 8 bits for the red formats and 32 packed bits for the packed ones.
pub open spec fn spec_format_size(f: GLSizedInternalFormat) -> FormatSize {
    FormatSize {
        flags: if is_packed_format(f) { GL_FORMAT_SIZE_PACKED_BIT } else { 0 },
        palette_size_in_bits: 0,
        block_size_in_bits: if f == GLSizedInternalFormat::GL_R11F_G11F_B10F
            || f == GLSizedInternalFormat::GL_RGB9_E5 {
            32
        } else {
            8
        },
        block_width: 1,
        block_height: 1,
        block_depth: 1,
    }
}

/// Block layout of a sized internal format (only the formats of
/// `format_size_known` have one).
pub fn get_format_size(sized_internal_format: GLSizedInternalFormat) -> (r: FormatSize)
    requires
        format_size_known(sized_internal_format),
    ensures
        r == spec_format_size(sized_internal_format),
{
    match sized_internal_format {
        GLSizedInternalFormat::GL_R8
        | GLSizedInternalFormat::GL_R8_SNORM
        | GLSizedInternalFormat::GL_R8UI => FormatSize {
            flags: 0,
            palette_size_in_bits: 0,
            block_size_in_bits: 1 * 8,
            block_width: 1,
            block_height: 1,
            block_depth: 1,
        },
        _ => FormatSize {
            flags: GL_FORMAT_SIZE_PACKED_BIT,
            palette_size_in_bits: 0,
            block_size_in_bits: 32,
            block_width: 1,
            block_height: 1,
            block_depth: 1,
        },
    }
}

/// Whether `ktx_padn_len(n, nbytes)` is defined: `n` is at least one and
/// `nbytes + n - 1` fits in a `usize`.
pub open spec fn padn_defined(n: usize, nbytes: usize) -> bool {
    n >= 1 && nbytes + (n - 1) <= usize::MAX
}

/// The padding that `ktx_padn_len` computes.
pub open spec fn spec_padn_len(n: usize, nbytes: usize) -> int {
    (n - 1) - (((nbytes + (n - 1)) as usize) & ((n - 1) as usize))
}

/// Number of bytes of padding after `nbytes` bytes to reach the alignment `n`
/// (for a power of two `n`).
pub fn ktx_padn_len(n: usize, nbytes: usize) -> (r: usize)
    requires
        padn_defined(n, nbytes),
    ensures
        r == spec_padn_len(n, nbytes),
        r < n,
        forall|k: nat| k < usize::BITS && n == pow2(k) ==> (nbytes + r) % (n as int) == 0,
{
    let m = n - 1;
    let s = nbytes + m;
    assert((s & m) <= m) by (bit_vector);
    proof {
        assert forall|k: nat| k < usize::BITS && n == pow2(k) implies (nbytes + spec_padn_len(n, nbytes)) % (
        n as int) == 0 by {
            lemma_padn_aligns(k, nbytes);
        }
    }
    m - (s & m)
}

/// Padding to a power-of-two alignment `2^k` brings `nbytes` to a multiple of it.
proof fn lemma_padn_aligns(k: nat, nbytes: usize)
    requires
        k < usize::BITS,
        padn_defined(pow2(k) as usize, nbytes),
    ensures
        (nbytes + spec_padn_len(pow2(k) as usize, nbytes)) % (pow2(k) as int) == 0,
{
    lemma_usize_pow2_no_overflow(k);
    let n = pow2(k) as usize;
    let m = (n - 1) as usize;
    let s = (nbytes + m) as usize;
    lemma_usize_low_bits_mask_is_mod(s, k);
    assert(low_bits_mask(k) == m);
    assert((s & m) == s % n);
    lemma_fundamental_div_mod(s as int, n as int);
    assert(nbytes + spec_padn_len(n, nbytes) == s - s % n);
    lemma_mod_multiples_basic(s as int / n as int, n as int);
    assert((s - s % n) == (s as int / n as int) * n);
}

/// The padding that brings `nbytes` up to a multiple of four.
pub open spec fn spec_pad_unpack_align_len(nbytes: usize) -> int {
    spec_padn_len(4, nbytes)
}

/// Number of bytes of padding after a row of `nbytes` bytes, up to the next
/// multiple of `KTX_GL_UNPACK_ALIGNMENT`.
pub fn ktx_pad_unpack_align_len(nbytes: usize) -> (r: usize)
    requires
        nbytes + 3 <= usize::MAX,
    ensures
        r == spec_pad_unpack_align_len(nbytes),
        r < 4,
        (nbytes + r) % 4 == 0,
{
    let r = ktx_padn_len(KTX_GL_UNPACK_ALIGNMENT, nbytes);
    let s: usize = nbytes + 3;
    assert((s & 3usize) == s % 4) by (bit_vector);
    r
}

/// The header of a KTX file: twelve 32-bit fields after the identifier and the
/// endianness tag.
#[derive(Debug, Clone, Copy, PartialEq, Eq, Structural)]
pub struct KtxHeader {
    pub gl_type: u32,
    pub gl_type_size: u32,
    pub gl_format: u32,
    pub gl_internal_format: u32,
    pub gl_base_internal_format: u32,
    pub pixel_width: u32,
    pub pixel_height: u32,
    pub pixel_depth: u32,
    pub number_of_array_elements: u32,
    pub number_of_faces: u32,
    pub number_of_mipmap_levels: u32,
    pub bytes_of_key_value_data: u32,
}

/// A width or height in blocks at a mipmap level: the dimension (taken as 1
/// when it is 0) shifted right by the level.
pub open spec fn spec_block_count(dim: u32, mip_level: usize) -> usize {
    (if dim == 0 { 1usize } else { dim as usize }) >> mip_level
}

impl KtxHeader {
    /// The sized internal format named by the header, if it names one.
    pub open spec fn spec_internal_format(self) -> Option<GLSizedInternalFormat> {
        GLSizedInternalFormat::spec_from_u32(self.gl_internal_format)
    }

    /// Whether the header names a sized internal format whose block layout is known.
    pub open spec fn has_known_format(self) -> bool {
        &&& self.spec_internal_format() is Some
        &&& format_size_known(self.spec_internal_format().unwrap())
    }

    /// Bytes per block of the header's format.
    pub open spec fn spec_block_bytes(self) -> int {
        (spec_format_size(self.spec_internal_format().unwrap()).block_size_in_bits / 8) as int
    }

    /// A compressed texture has `glType` 0.
    pub open spec fn spec_is_compressed(self) -> bool {
        self.gl_type == 0
    }

    /// Bytes of one row (before padding) at a mipmap level of an uncompressed texture.
    pub open spec fn spec_row_bytes(self, mip_level: usize) -> int {
        spec_block_count(self.pixel_width, mip_level) * self.spec_block_bytes()
    }

    /// Size in bytes of one face of one array element at a mipmap level.
    pub open spec fn spec_element_face_slice_size(self, mip_level: usize) -> int {
        let bx = spec_block_count(self.pixel_width, mip_level);
        let by = spec_block_count(self.pixel_height, mip_level);
        if self.spec_is_compressed() {
            bx * by * self.spec_block_bytes()
        } else {
            let row = self.spec_row_bytes(mip_level);
            (row + spec_pad_unpack_align_len(row as usize)) * by
        }
    }

    /// Whether `element_face_slice_size(mip_level)` is defined: the level exists,
    /// the format's layout is known, the level is a valid shift amount and no
    /// intermediate product overflows.
    pub open spec fn slice_size_defined(self, mip_level: usize) -> bool {
        let bx = spec_block_count(self.pixel_width, mip_level);
        let by = spec_block_count(self.pixel_height, mip_level);
        &&& mip_level < self.number_of_mipmap_levels
        &&& mip_level < usize::BITS
        &&& self.has_known_format()
        &&& if self.spec_is_compressed() {
            &&& bx * by <= usize::MAX
            &&& bx * by * self.spec_block_bytes() <= usize::MAX
        } else {
            let row = self.spec_row_bytes(mip_level);
            &&& row + 3 <= usize::MAX
            &&& (row + spec_pad_unpack_align_len(row as usize)) * by <= usize::MAX
        }
    }

    /// Number of blocks in depth at a mipmap level (at least one).
    pub open spec fn spec_block_count_z(self, mip: usize) -> int {
        let d = spec_format_size(self.spec_internal_format().unwrap()).block_depth >> mip;
        if d < 1 { 1 } else { d as int }
    }

    /// Bytes of all faces and array elements of one mipmap level.
    pub open spec fn spec_level_stride(self, mip: usize) -> int {
        self.spec_element_face_slice_size(mip) * self.number_of_faces * self.spec_block_count_z(mip)
            * self.number_of_array_elements
    }

    /// Whether the stride of a level is defined and computed without overflow.
    pub open spec fn level_stride_fits(self, mip: usize) -> bool {
        let s = self.spec_element_face_slice_size(mip);
        &&& self.slice_size_defined(mip)
        &&& s * self.number_of_faces <= usize::MAX
        &&& s * self.number_of_faces * self.spec_block_count_z(mip) <= usize::MAX
        &&& self.spec_level_stride(mip) <= usize::MAX
    }

    /// Sum of the strides of the first `n` mipmap levels.
    pub open spec fn spec_levels_sum(self, n: nat) -> int
        decreases n,
    {
        if n == 0 {
            0
        } else {
            self.spec_levels_sum((n - 1) as nat) + self.spec_level_stride((n - 1) as usize)
        }
    }

    /// Whether the strides of the first `n` levels and their running sums fit.
    pub open spec fn levels_sum_fits(self, n: nat) -> bool
        decreases n,
    {
        if n == 0 {
            true
        } else {
            &&& self.levels_sum_fits((n - 1) as nat)
            &&& n - 1 <= usize::MAX
            &&& self.level_stride_fits((n - 1) as usize)
            &&& self.spec_levels_sum(n) <= usize::MAX
        }
    }

    /// The offset that `image_offset` computes.
    pub open spec fn spec_image_offset(self, mip_level: usize, array_element: usize, face: usize) -> int {
        let s = self.spec_element_face_slice_size(mip_level);
        self.spec_levels_sum(mip_level as nat) + s * array_element + s * face
    }

    /// Whether `image_offset` is defined: the indices are in range and no step overflows.
    pub open spec fn image_offset_defined(self, mip_level: usize, array_element: usize, face: usize) -> bool {
        let s = self.spec_element_face_slice_size(mip_level);
        &&& mip_level < self.number_of_mipmap_levels
        &&& array_element < self.number_of_array_elements
        &&& face < self.number_of_faces
        &&& self.levels_sum_fits(mip_level as nat)
        &&& self.slice_size_defined(mip_level)
        &&& s * array_element <= usize::MAX
        &&& self.spec_levels_sum(mip_level as nat) + s * array_element <= usize::MAX
        &&& s * face <= usize::MAX
        &&& self.spec_image_offset(mip_level, array_element, face) <= usize::MAX
    }

    /// The size that `image_size_max` computes.
    pub open spec fn spec_image_size_max(self) -> int {
        let last = (self.number_of_mipmap_levels - 1) as usize;
        let s = self.spec_element_face_slice_size(last);
        self.spec_levels_sum(self.number_of_mipmap_levels as nat) + s * self.number_of_array_elements + s
            * self.number_of_faces
    }

    /// Whether `image_size_max` is defined: there is a level and no step overflows.
    pub open spec fn image_size_max_defined(self) -> bool {
        let last = (self.number_of_mipmap_levels - 1) as usize;
        let s = self.spec_element_face_slice_size(last);
        &&& self.number_of_mipmap_levels >= 1
        &&& self.levels_sum_fits(self.number_of_mipmap_levels as nat)
        &&& s * self.number_of_array_elements <= usize::MAX
        &&& self.spec_levels_sum(self.number_of_mipmap_levels as nat) + s * self.number_of_array_elements
            <= usize::MAX
        &&& s * self.number_of_faces <= usize::MAX
        &&& self.spec_image_size_max() <= usize::MAX
    }

    /// Whether the texture is compressed: a compressed texture has `glType` 0.
    pub fn is_compressed(&self) -> (r: bool)
        ensures
            r == (self.gl_type == 0),
    {
        self.gl_type == 0
    }

    /// Whether the texture is an array texture.
    pub fn is_array_texture(&self) -> (r: bool)
        ensures
            r == (self.number_of_array_elements != 0),
    {
        self.number_of_array_elements != 0
    }

    /// Whether the texture is one-dimensional.
    pub fn is_1d_texture(&self) -> (r: bool)
        ensures
            r == (self.pixel_height == 0 && self.pixel_depth == 0),
    {
        self.pixel_height == 0 && self.pixel_depth == 0
    }

    /// Whether the texture is two-dimensional or a cube map.
    pub fn is_2d_or_cube_texture(&self) -> (r: bool)
        ensures
            r == (self.pixel_depth == 0),
    {
        self.pixel_depth == 0
    }

    /// The header's sized internal format, whose layout is known.
    fn known_format_size(&self) -> (r: FormatSize)
        requires
            self.has_known_format(),
        ensures
            r == spec_format_size(self.spec_internal_format().unwrap()),
    {
        let f = GLSizedInternalFormat::from_u32(self.gl_internal_format);
        match f {
            Some(f) => get_format_size(f),
            None => {
                proof {
                    assert(false);
                }
                get_format_size(GLSizedInternalFormat::GL_R8)
            },
        }
    }

    /// Size in bytes of the image of one face of one array element at a mipmap
    /// level, rows padded to `KTX_GL_UNPACK_ALIGNMENT` when uncompressed.
    pub fn element_face_slice_size(&self, mip_level: usize) -> (r: usize)
        requires
            self.slice_size_defined(mip_level),
        ensures
            r == self.spec_element_face_slice_size(mip_level),
    {
        let w: usize = if self.pixel_width == 0 { 1 } else { self.pixel_width as usize };
        let h: usize = if self.pixel_height == 0 { 1 } else { self.pixel_height as usize };
        let block_count_x = w >> mip_level;
        let block_count_y = h >> mip_level;
        let block_size_in_bytes = self.known_format_size().block_size_in_bits / 8;
        if self.is_compressed() {
            block_count_x * block_count_y * block_size_in_bytes
        } else {
            let mut row_bytes = block_count_x * block_size_in_bytes;
            row_bytes = row_bytes + ktx_pad_unpack_align_len(row_bytes);
            row_bytes * block_count_y
        }
    }

    /// The stride of one mipmap level: its slice size times faces, depth in
    /// blocks and array elements.
    fn level_stride(&self, mip: usize) -> (r: usize)
        requires
            self.level_stride_fits(mip),
        ensures
            r == self.spec_level_stride(mip),
    {
        let fs = self.known_format_size();
        let d = fs.block_depth >> mip;
        let block_count_z: usize = if d < 1 { 1 } else { d };
        self.element_face_slice_size(mip) * self.number_of_faces as usize * block_count_z
            * self.number_of_array_elements as usize
    }

    /// Byte offset of the image of a face of an array element at a mipmap level,
    /// counted from the first image.
    pub fn image_offset(&self, mip_level: usize, array_element: usize, face: usize) -> (r: usize)
        requires
            self.image_offset_defined(mip_level, array_element, face),
        ensures
            r == self.spec_image_offset(mip_level, array_element, face),
    {
        let mut offset: usize = 0;
        let mut mip: usize = 0;
        while mip < mip_level
            invariant
                mip <= mip_level,
                self.levels_sum_fits(mip_level as nat),
                offset == self.spec_levels_sum(mip as nat),
            decreases mip_level - mip,
        {
            proof {
                self.lemma_levels_sum_fits_prefix(mip_level as nat, (mip + 1) as nat);
            }
            offset = offset + self.level_stride(mip);
            mip = mip + 1;
        }
        let s = self.element_face_slice_size(mip_level);
        offset = offset + s * array_element;
        offset = offset + s * face;
        offset
    }

    /// The byte size of all levels plus one slice per array element and face
    /// of the last level, as the header gives them.
    pub fn image_size_max(&self) -> (r: usize)
        requires
            self.image_size_max_defined(),
        ensures
            r == self.spec_image_size_max(),
    {
        let levels = self.number_of_mipmap_levels as usize;
        let mut offset: usize = 0;
        let mut mip: usize = 0;
        while mip < levels
            invariant
                mip <= levels,
                levels == self.number_of_mipmap_levels,
                self.levels_sum_fits(levels as nat),
                offset == self.spec_levels_sum(mip as nat),
            decreases levels - mip,
        {
            proof {
                self.lemma_levels_sum_fits_prefix(levels as nat, (mip + 1) as nat);
            }
            offset = offset + self.level_stride(mip);
            mip = mip + 1;
        }
        let s = self.element_face_slice_size(levels - 1);
        offset = offset + s * self.number_of_array_elements as usize;
        offset = offset + s * self.number_of_faces as usize;
        offset
    }

    /// The Vulkan format of the texture, where one is known: `None` for every
    /// format but `GL_R11F_G11F_B10F`.
    pub fn get_vk_format(&self) -> (r: Option<u32>)
        requires
            self.spec_internal_format() is Some,
        ensures
            r == (if self.spec_internal_format() == Some(GLSizedInternalFormat::GL_R11F_G11F_B10F) {
                Some(VK_FORMAT_B10G11R11_UFLOAT_PACK32)
            } else {
                None::<u32>
            }),
    {
        match GLSizedInternalFormat::from_u32(self.gl_internal_format) {
            Some(GLSizedInternalFormat::GL_R11F_G11F_B10F) => Some(VK_FORMAT_B10G11R11_UFLOAT_PACK32),
            _ => None,
        }
    }

    /// The fit of the first `n` levels carries over to every shorter prefix.
    pub proof fn lemma_levels_sum_fits_prefix(self, n: nat, m: nat)
        requires
            self.levels_sum_fits(n),
            m <= n,
        ensures
            self.levels_sum_fits(m),
            m >= 1 ==> self.level_stride_fits((m - 1) as usize),
            m >= 1 ==> self.spec_levels_sum(m) <= usize::MAX,
        decreases n,
    {
        if m < n {
            self.lemma_levels_sum_fits_prefix((n - 1) as nat, m);
        }
    }
}

/// Why a KTX file could not be read.
#[derive(Debug, Clone, Copy, PartialEq, Eq, Structural)]
pub enum KtxError {
    /// The first twelve bytes are not the KTX identifier.
    NotKtx,
    /// The endianness tag is neither little- nor big-endian.
    InvalidKtx,
    /// The file ends before a field, a key/value entry or an image.
    UnexpectedEof,
    /// The header breaks a rule of the format (`glType`/`glFormat`, face count,
    /// level count or an unknown format code).
    InvalidHeader,
    /// A key of the key/value data is not UTF-8.
    InvalidKey,
    /// The image size of a level cannot be computed: the format's block layout
    /// is unknown, the level is too deep or the size overflows.
    UnsupportedLayout,
}

/// The bytes of one face of one array element (the reader gathers the image
/// bytes of a level in the level's `data` and leaves this empty).
#[derive(Debug, Clone, PartialEq, Eq)]
pub struct KtxFaceData {
    pub data: Vec<u8>,
}

/// The faces of one array element of a mipmap level.
#[derive(Debug, Clone, PartialEq, Eq)]
pub struct KtxArrayElement {
    pub faces: Vec<KtxFaceData>,
}

/// One mipmap level: its declared image size, its array elements and the image
/// bytes of all its faces and array elements, in file order.
#[derive(Debug, Clone, PartialEq, Eq)]
pub struct KtxMipmapLevel {
    pub image_size: u32,
    pub array_elements: Vec<KtxArrayElement>,
    pub data: Vec<u8>,
}

/// A KTX file: header, key/value pairs (each key once) and mipmap levels.
#[derive(Debug, Clone, PartialEq, Eq)]
pub struct KtxFile {
    pub header: KtxHeader,
    pub key_value_pairs: Vec<(String, Vec<u8>)>,
    pub data: Option<Vec<KtxMipmapLevel>>,
}

/// The mathematical value of a mipmap level.
pub struct KtxMipmapLevelView {
    pub image_size: u32,
    pub array_elements: Seq<Seq<Seq<u8>>>,
    pub data: Seq<u8>,
}

/// The mathematical value of a KTX file.
pub struct KtxFileView {
    pub header: KtxHeader,
    pub key_value_pairs: Seq<(Seq<char>, Seq<u8>)>,
    pub data: Option<Seq<KtxMipmapLevelView>>,
}

impl View for KtxFaceData {
    type V = Seq<u8>;

    open spec fn view(&self) -> Seq<u8> {
        self.data@
    }
}

impl View for KtxArrayElement {
    type V = Seq<Seq<u8>>;

    open spec fn view(&self) -> Seq<Seq<u8>> {
        self.faces@.map_values(|f: KtxFaceData| f@)
    }
}

/// The views of a list of array elements.
pub open spec fn elements_view(s: Seq<KtxArrayElement>) -> Seq<Seq<Seq<u8>>> {
    s.map_values(|e: KtxArrayElement| e@)
}

impl View for KtxMipmapLevel {
    type V = KtxMipmapLevelView;

    open spec fn view(&self) -> KtxMipmapLevelView {
        KtxMipmapLevelView {
            image_size: self.image_size,
            array_elements: elements_view(self.array_elements@),
            data: self.data@,
        }
    }
}

/// The view of a list of key/value pairs.
pub open spec fn key_values_view(kv: Seq<(String, Vec<u8>)>) -> Seq<(Seq<char>, Seq<u8>)> {
    kv.map_values(|e: (String, Vec<u8>)| (e.0@, e.1@))
}

/// The views of a list of mipmap levels.
pub open spec fn levels_view(s: Seq<KtxMipmapLevel>) -> Seq<KtxMipmapLevelView> {
    s.map_values(|l: KtxMipmapLevel| l@)
}

impl View for KtxFile {
    type V = KtxFileView;

    open spec fn view(&self) -> KtxFileView {
        KtxFileView {
            header: self.header,
            key_value_pairs: key_values_view(self.key_value_pairs@),
            data: match self.data {
                Some(levels) => Some(levels_view(levels@)),
                None => None,
            },
        }
    }
}

/// The row padding is between 0 and 3.
pub(crate) proof fn lemma_pad_range(nbytes: usize)
    requires
        nbytes + 3 <= usize::MAX,
    ensures
        0 <= spec_pad_unpack_align_len(nbytes) < 4,
        (nbytes + spec_pad_unpack_align_len(nbytes)) % 4 == 0,
{
    let s: usize = (nbytes + 3) as usize;
    assert((s & 3usize) <= 3usize) by (bit_vector);
    assert((s & 3usize) == s % 4) by (bit_vector);
}

/// A defined slice size is a natural number.
pub(crate) proof fn lemma_slice_size_nonneg(h: KtxHeader, level: usize)
    requires
        h.slice_size_defined(level),
    ensures
        h.spec_element_face_slice_size(level) >= 0,
{
    let bx = spec_block_count(h.pixel_width, level) as int;
    let by = spec_block_count(h.pixel_height, level) as int;
    let bs = h.spec_block_bytes();
    assert(bs >= 0);
    if h.spec_is_compressed() {
        assert(bx * by * bs >= 0) by (nonlinear_arith)
            requires
                bx >= 0,
                by >= 0,
                bs >= 0,
        ;
    } else {
        let row = h.spec_row_bytes(level);
        assert(row >= 0) by (nonlinear_arith)
            requires
                row == bx * bs,
                bx >= 0,
                bs >= 0,
        ;
        lemma_pad_range(row as usize);
        let padded = row + spec_pad_unpack_align_len(row as usize);
        assert(padded * by >= 0) by (nonlinear_arith)
            requires
                padded >= 0,
                by >= 0,
        ;
    }
}


/// Shifting right by one more bit never gives more.
proof fn lemma_shift_shrinks(w: usize, m: usize)
    requires
        m + 1 < usize::BITS,
    ensures
        (w >> ((m + 1) as usize)) <= (w >> m),
{
    let m1: usize = (m + 1) as usize;
    assert((w >> m1) <= (w >> m)) by (bit_vector)
        requires
            m1 == m + 1,
            m1 < usize::BITS,
    ;
}

/// Rounding a row up to a multiple of four keeps the order of rows.
proof fn lemma_padded_row_monotone(r1: usize, r2: usize)
    requires
        r1 <= r2,
        r2 + 3 <= usize::MAX,
    ensures
        r1 + spec_pad_unpack_align_len(r1) <= r2 + spec_pad_unpack_align_len(r2),
{
    lemma_pad_range(r1);
    lemma_pad_range(r2);
}

/// A deeper mipmap level never needs more bytes per face than the level above it.
pub proof fn lemma_slice_size_shrinks(h: KtxHeader, m: usize)
    requires
        h.slice_size_defined(m),
        h.slice_size_defined((m + 1) as usize),
    ensures
        h.spec_element_face_slice_size((m + 1) as usize) <= h.spec_element_face_slice_size(m),
{
    let m1 = (m + 1) as usize;
    let w: usize = if h.pixel_width == 0 { 1usize } else { h.pixel_width as usize };
    let hh: usize = if h.pixel_height == 0 { 1usize } else { h.pixel_height as usize };
    lemma_shift_shrinks(w, m);
    lemma_shift_shrinks(hh, m);
    let bx = spec_block_count(h.pixel_width, m) as int;
    let by = spec_block_count(h.pixel_height, m) as int;
    let bx1 = spec_block_count(h.pixel_width, m1) as int;
    let by1 = spec_block_count(h.pixel_height, m1) as int;
    assert(bx1 <= bx && by1 <= by);
    let bs = h.spec_block_bytes();
    assert(bs >= 0);
    if h.spec_is_compressed() {
        assert(bx1 * by1 * bs <= bx * by * bs) by (nonlinear_arith)
            requires
                0 <= bx1 <= bx,
                0 <= by1 <= by,
                bs >= 0,
        ;
    } else {
        let row = h.spec_row_bytes(m);
        let row1 = h.spec_row_bytes(m1);
        assert(0 <= row1 <= row) by (nonlinear_arith)
            requires
                row == bx * bs,
                row1 == bx1 * bs,
                0 <= bx1 <= bx,
                bs >= 0,
        ;
        lemma_padded_row_monotone(row1 as usize, row as usize);
        lemma_pad_range(row1 as usize);
        let p = row + spec_pad_unpack_align_len(row as usize);
        let p1 = row1 + spec_pad_unpack_align_len(row1 as usize);
        assert(p1 * by1 <= p * by) by (nonlinear_arith)
            requires
                0 <= p1 <= p,
                0 <= by1 <= by,
        ;
    }
}

/// Every image of level `m` ends at or before the start of the level after it.
proof fn lemma_image_within_level(h: KtxHeader, m: usize, a: usize, f: usize)
    requires
        h.slice_size_defined(m),
        a < h.number_of_array_elements,
        f < h.number_of_faces,
    ensures
        h.spec_image_offset(m, a, f) + h.spec_element_face_slice_size(m) <= h.spec_levels_sum((m + 1) as nat),
{
    lemma_slice_size_nonneg(h, m);
    let s = h.spec_element_face_slice_size(m);
    let faces = h.number_of_faces as int;
    let elements = h.number_of_array_elements as int;
    let bz = h.spec_block_count_z(m);
    assert(bz >= 1);
    assert(s * a + s * f + s <= s * faces * bz * elements) by (nonlinear_arith)
        requires
            s >= 0,
            0 <= a < elements,
            0 <= f < faces,
            bz >= 1,
    {
        assert(a + f + 1 <= faces * elements) by (nonlinear_arith)
            requires
                0 <= a < elements,
                0 <= f < faces,
        ;
        assert(faces * elements <= faces * bz * elements) by (nonlinear_arith)
            requires
                faces >= 1,
                elements >= 1,
                bz >= 1,
        ;
        assert(s * (a + f + 1) <= s * (faces * bz * elements)) by (nonlinear_arith)
            requires
                s >= 0,
                a + f + 1 <= faces * bz * elements,
        ;
    }
    assert(h.spec_levels_sum((m + 1) as nat) == h.spec_levels_sum(m as nat) + h.spec_level_stride(m));
}

/// Every image of a level lies before the first image of the level after it.
pub proof fn lemma_image_before_next_level(h: KtxHeader, m: usize, a: usize, f: usize)
    requires
        h.image_offset_defined(m, a, f),
        m + 1 < h.number_of_mipmap_levels,
    ensures
        h.spec_image_offset(m, a, f) + h.spec_element_face_slice_size(m) <= h.spec_image_offset(
            (m + 1) as usize,
            0,
            0,
        ),
{
    lemma_image_within_level(h, m, a, f);
    let s1 = h.spec_element_face_slice_size((m + 1) as usize);
    assert(s1 * 0 == 0);
}

/// The sum of the strides of the first levels grows with the number of levels.
proof fn lemma_levels_sum_grows(h: KtxHeader, i: nat, n: nat)
    requires
        i <= n,
        h.levels_sum_fits(n),
    ensures
        h.spec_levels_sum(i) <= h.spec_levels_sum(n),
    decreases n,
{
    if i < n {
        h.lemma_levels_sum_fits_prefix(n, n);
        lemma_slice_size_nonneg(h, (n - 1) as usize);
        let s = h.spec_element_face_slice_size((n - 1) as usize);
        let bz = h.spec_block_count_z((n - 1) as usize);
        assert(bz >= 1);
        assert(s * h.number_of_faces * bz * h.number_of_array_elements >= 0) by (nonlinear_arith)
            requires
                s >= 0,
                bz >= 1,
                h.number_of_faces >= 0,
                h.number_of_array_elements >= 0,
        ;
        h.lemma_levels_sum_fits_prefix(n, (n - 1) as nat);
        lemma_levels_sum_grows(h, i, (n - 1) as nat);
    }
}

/// Every image that `image_offset` addresses fits within `image_size_max`.
pub proof fn lemma_image_within_size_max(h: KtxHeader, m: usize, a: usize, f: usize)
    requires
        h.image_offset_defined(m, a, f),
        h.image_size_max_defined(),
    ensures
        h.spec_image_offset(m, a, f) + h.spec_element_face_slice_size(m) <= h.spec_image_size_max(),
{
    let levels = h.number_of_mipmap_levels as nat;
    let last = (h.number_of_mipmap_levels - 1) as usize;
    lemma_image_within_level(h, m, a, f);
    lemma_levels_sum_grows(h, (m + 1) as nat, levels);
    h.lemma_levels_sum_fits_prefix(levels, levels);
    lemma_slice_size_nonneg(h, last);
    let s = h.spec_element_face_slice_size(last);
    assert(s * h.number_of_array_elements >= 0 && s * h.number_of_faces >= 0) by (nonlinear_arith)
        requires
            s >= 0,
            h.number_of_array_elements >= 0,
            h.number_of_faces >= 0,
    ;
}


/// The widths in bits of the components a format packs into one texel, in
/// order: one 8-bit red component for the `R8` formats, 11, 11 and 10 bits
/// for `R11F_G11F_B10F`, and three 9-bit mantissas and a 5-bit exponent for
/// `RGB9_E5`.
pub open spec fn component_bits(f: GLSizedInternalFormat) -> Seq<nat> {
    if f == GLSizedInternalFormat::GL_R11F_G11F_B10F {
        seq![11nat, 11nat, 10nat]
    } else if f == GLSizedInternalFormat::GL_RGB9_E5 {
        seq![9nat, 9nat, 9nat, 5nat]
    } else {
        seq![8nat]
    }
}

/// The sum of a sequence of widths.
pub open spec fn total_bits(s: Seq<nat>) -> nat
    decreases s.len(),
{
    if s.len() == 0 {
        0
    } else {
        total_bits(s.drop_last()) + s.last()
    }
}

/// The block layout of every format whose layout is known is one texel wide,
/// high and deep, as many bits as its components together, without a palette,
/// and flagged packed exactly when several components share the texel.
pub proof fn lemma_format_size_from_components(f: GLSizedInternalFormat)
    requires
        format_size_known(f),
    ensures
        spec_format_size(f).block_size_in_bits == total_bits(component_bits(f)),
        spec_format_size(f).block_width == 1,
        spec_format_size(f).block_height == 1,
        spec_format_size(f).block_depth == 1,
        spec_format_size(f).palette_size_in_bits == 0,
        (spec_format_size(f).flags == GL_FORMAT_SIZE_PACKED_BIT) == (component_bits(f).len() > 1),
        spec_format_size(f).flags == GL_FORMAT_SIZE_PACKED_BIT || spec_format_size(f).flags == 0,
{
    reveal_with_fuel(total_bits, 5);
    let e = Seq::<nat>::empty();
    assert(seq![8nat].drop_last() =~= e);
    assert(total_bits(seq![8nat]) == 8);
    assert(seq![11nat, 11nat, 10nat].drop_last() =~= seq![11nat, 11nat]);
    assert(seq![11nat, 11nat].drop_last() =~= seq![11nat]);
    assert(seq![11nat].drop_last() =~= e);
    assert(total_bits(seq![11nat, 11nat, 10nat]) == 32);
    assert(seq![9nat, 9nat, 9nat, 5nat].drop_last() =~= seq![9nat, 9nat, 9nat]);
    assert(seq![9nat, 9nat, 9nat].drop_last() =~= seq![9nat, 9nat]);
    assert(seq![9nat, 9nat].drop_last() =~= seq![9nat]);
    assert(seq![9nat].drop_last() =~= e);
    assert(total_bits(seq![9nat, 9nat, 9nat, 5nat]) == 32);
}

/// The images of a level are laid out a slice apart: the next face, or the
/// next array element, starts one slice size after the one before it, and the
/// first image of the first level is at offset 0.
pub proof fn lemma_image_offset_steps(h: KtxHeader, m: usize, a: usize, f: usize)
    requires
        a < usize::MAX,
        f < usize::MAX,
    ensures
        h.spec_image_offset(m, a, (f + 1) as usize) == h.spec_image_offset(m, a, f) + h.spec_element_face_slice_size(m),
        h.spec_image_offset(m, (a + 1) as usize, f) == h.spec_image_offset(m, a, f) + h.spec_element_face_slice_size(m),
        h.spec_image_offset(0, 0, 0) == 0,
{
    let s = h.spec_element_face_slice_size(m);
    assert(s * (f + 1) == s * f + s) by (nonlinear_arith);
    assert(s * (a + 1) == s * a + s) by (nonlinear_arith);
    let s0 = h.spec_element_face_slice_size(0);
    assert(s0 * 0 == 0);
}

} // verus!
