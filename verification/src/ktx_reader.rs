//! Reading a KTX 1.1 file from its bytes.

use vstd::prelude::*;
use vstd::utf8::{valid_utf8, decode_utf8};
use byteorder::ByteOrder;
use crate::text::str_from_utf8;
use crate::gl_formats::{GLBaseInternalFormat, GLFormat, GLSizedInternalFormat, GLType};
use crate::ktx::{lemma_slice_size_nonneg, spec_block_count, spec_pad_unpack_align_len, elements_view, levels_view, get_format_size, key_values_view, KtxArrayElement, KtxFaceData, KtxMipmapLevel, ktx_pad_unpack_align_len, FILE_IDENTIFIER, KtxError, KtxFile, KtxFileView, KtxHeader, KtxMipmapLevelView};

verus! {

/// A 32-bit unsigned integer from four bytes, least significant first.
pub open spec fn spec_u32_le(b: Seq<u8>) -> u32 {
    (b[0] + 256 * b[1] + 65536 * b[2] + 16777216 * b[3]) as u32
}

/// A 32-bit unsigned integer from four bytes, most significant first.
pub open spec fn spec_u32_be(b: Seq<u8>) -> u32 {
    (b[3] + 256 * b[2] + 65536 * b[1] + 16777216 * b[0]) as u32
}

/// A 32-bit unsigned integer from four bytes in the given byte order.
pub open spec fn spec_u32(b: Seq<u8>, little_endian: bool) -> u32 {
    if little_endian {
        spec_u32_le(b)
    } else {
        spec_u32_be(b)
    }
}

/// `byteorder::LittleEndian::read_u32`: the first four bytes of `buf` as a
/// little-endian integer (it panics on fewer than four bytes, which
/// `requires` rules out).
#[verifier::external_body]
fn read_u32_le(buf: &[u8]) -> (r: u32)
    requires
        buf@.len() >= 4,
    ensures
        r == spec_u32_le(buf@),
{
    byteorder::LittleEndian::read_u32(buf)
}

/// `byteorder::BigEndian::read_u32`: the first four bytes of `buf` as a
/// big-endian integer (it panics on fewer than four bytes, which `requires`
/// rules out).
#[verifier::external_body]
fn read_u32_be(buf: &[u8]) -> (r: u32)
    requires
        buf@.len() >= 4,
    ensures
        r == spec_u32_be(buf@),
{
    byteorder::BigEndian::read_u32(buf)
}

/// `byteorder::NativeEndian::read_u32`: the first four bytes of `buf` in the
/// byte order of the machine, which is little- or big-endian; which of the two
/// is not stated.
#[verifier::external_body]
fn read_u32_native(buf: &[u8]) -> (r: u32)
    requires
        buf@.len() >= 4,
    ensures
        r == spec_u32_le(buf@) || r == spec_u32_be(buf@),
{
    byteorder::NativeEndian::read_u32(buf)
}

/// Whether this machine reads native-endian integers least significant byte first.
pub fn native_is_little_endian() -> (r: bool) {
    let probe: [u8; 4] = [1, 0, 0, 0];
    let v = read_u32_native(probe.as_slice());
    v == 1
}

/// Reading a `u32` at `pos`: the value and the position after it, or the end
/// of the file.
pub open spec fn spec_read_u32_at(b: Seq<u8>, pos: int, little_endian: bool) -> Result<(u32, int), KtxError> {
    if 0 <= pos && pos + 4 <= b.len() {
        Ok((spec_u32(b.subrange(pos, pos + 4), little_endian), pos + 4))
    } else {
        Err(KtxError::UnexpectedEof)
    }
}

/// The header field `i` (0 to 11) read at `pos`.
pub open spec fn spec_field(b: Seq<u8>, pos: int, i: int, little_endian: bool) -> u32 {
    spec_u32(b.subrange(pos + 4 * i, pos + 4 * i + 4), little_endian)
}

/// The twelve header fields read at `pos`.
pub open spec fn spec_header_fields(b: Seq<u8>, pos: int, little_endian: bool) -> KtxHeader {
    KtxHeader {
        gl_type: spec_field(b, pos, 0, little_endian),
        gl_type_size: spec_field(b, pos, 1, little_endian),
        gl_format: spec_field(b, pos, 2, little_endian),
        gl_internal_format: spec_field(b, pos, 3, little_endian),
        gl_base_internal_format: spec_field(b, pos, 4, little_endian),
        pixel_width: spec_field(b, pos, 5, little_endian),
        pixel_height: spec_field(b, pos, 6, little_endian),
        pixel_depth: spec_field(b, pos, 7, little_endian),
        number_of_array_elements: spec_field(b, pos, 8, little_endian),
        number_of_faces: spec_field(b, pos, 9, little_endian),
        number_of_mipmap_levels: spec_field(b, pos, 10, little_endian),
        bytes_of_key_value_data: spec_field(b, pos, 11, little_endian),
    }
}

/// The rules a header must follow: `glType` and `glFormat` are both zero or
/// both not, one or six faces, at least one level, and every format code known.
pub open spec fn header_checks(h: KtxHeader) -> bool {
    &&& (h.gl_type > 0) == (h.gl_format > 0)
    &&& (h.number_of_faces == 1 || h.number_of_faces == 6)
    &&& h.number_of_mipmap_levels != 0
    &&& (h.gl_type == 0 || GLType::spec_from_u32(h.gl_type) is Some)
    &&& (h.gl_format == 0 || GLFormat::spec_from_u32(h.gl_format) is Some)
    &&& GLBaseInternalFormat::spec_from_u32(h.gl_base_internal_format) is Some
    &&& GLSizedInternalFormat::spec_from_u32(h.gl_internal_format) is Some
}

/// Reading the header at `pos`.
pub open spec fn spec_header(b: Seq<u8>, pos: int, little_endian: bool) -> Result<(KtxHeader, int), KtxError> {
    if pos < 0 || pos + 48 > b.len() {
        Err(KtxError::UnexpectedEof)
    } else if !header_checks(spec_header_fields(b, pos, little_endian)) {
        Err(KtxError::InvalidHeader)
    } else {
        Ok((spec_header_fields(b, pos, little_endian), pos + 48))
    }
}

/// Index of the first zero byte of `d` at or after `i`, or its length when
/// there is none.
pub open spec fn nul_from(d: Seq<u8>, i: int) -> int
    decreases d.len() - i,
{
    if i >= d.len() || i < 0 {
        d.len() as int
    } else if d[i] == 0 {
        i
    } else {
        nul_from(d, i + 1)
    }
}

/// Index of the first zero byte of `d`, or its length when there is none.
pub open spec fn nul_index(d: Seq<u8>) -> int {
    nul_from(d, 0)
}

/// Position of the entry with key `k` at or after `i`, or the length when none has it.
pub open spec fn key_position(s: Seq<(Seq<char>, Seq<u8>)>, k: Seq<char>, i: int) -> int
    decreases s.len() - i,
{
    if i >= s.len() || i < 0 {
        s.len() as int
    } else if s[i].0 == k {
        i
    } else {
        key_position(s, k, i + 1)
    }
}

/// Setting key `k` to `v`: the entry with that key gets the new value, or a new
/// entry is added at the end.
pub open spec fn kv_insert(s: Seq<(Seq<char>, Seq<u8>)>, k: Seq<char>, v: Seq<u8>) -> Seq<(Seq<char>, Seq<u8>)> {
    let p = key_position(s, k, 0);
    if p < s.len() {
        s.update(p, (k, v))
    } else {
        s.push((k, v))
    }
}

/// The padding after a key/value entry of `len` bytes.
pub open spec fn kv_padding(len: u32) -> int {
    3 - ((len + 3) % 4)
}

/// The padding after a key/value entry is less than four bytes and brings the
/// entry, and with its four-byte size field the whole record, to a multiple
/// of four bytes.
pub proof fn lemma_kv_padding(len: u32)
    ensures
        0 <= kv_padding(len) < 4,
        (len + kv_padding(len)) % 4 == 0,
        (4 + len + kv_padding(len)) % 4 == 0,
{
}

/// The key of a key/value entry: its bytes up to the first zero byte.
pub open spec fn kv_key_bytes(d: Seq<u8>) -> Seq<u8> {
    d.take(nul_index(d))
}

/// The value of a key/value entry: its bytes from the first zero byte on
/// (that byte included), or nothing when there is no zero byte.
pub open spec fn kv_value_bytes(d: Seq<u8>) -> Seq<u8> {
    if nul_index(d) < d.len() {
        d.skip(nul_index(d))
    } else {
        Seq::empty()
    }
}

/// The bytes of a key/value entry of `len` bytes read at `p`: the bytes there,
/// or, where they run past the end of the file, `len` zero bytes (the read
/// fails and leaves the zero-filled entry as it was).
pub open spec fn kv_entry_bytes(b: Seq<u8>, p: int, len: u32) -> Seq<u8> {
    if p + len <= b.len() {
        b.subrange(p, p + len)
    } else {
        Seq::new(len as nat, |i: int| 0u8)
    }
}

/// The position after a key/value entry of `len` bytes read at `p`, before its
/// padding: the end of the entry, or the end of the file where the entry runs
/// past it.
pub open spec fn kv_entry_end(b: Seq<u8>, p: int, len: u32) -> int {
    if p + len <= b.len() {
        p + len
    } else {
        b.len() as int
    }
}

/// Reading the key/value entries at `pos`, `offset` bytes of the `total`
/// already read into `acc`. An entry whose bytes run past the end of the file
/// is read as zero bytes, its full length still counted towards `total`.
pub open spec fn spec_key_values(
    b: Seq<u8>,
    pos: int,
    little_endian: bool,
    offset: int,
    total: int,
    acc: Seq<(Seq<char>, Seq<u8>)>,
) -> Result<(Seq<(Seq<char>, Seq<u8>)>, int), KtxError>
    decreases (if total > offset { total - offset } else { 0 }),
{
    if offset >= total {
        Ok((acc, pos))
    } else {
        match spec_read_u32_at(b, pos, little_endian) {
            Err(e) => Err(e),
            Ok((len, p)) => {
                let d = kv_entry_bytes(b, p, len);
                let pad = kv_padding(len);
                if !valid_utf8(kv_key_bytes(d)) {
                    Err(KtxError::InvalidKey)
                } else {
                    proof {
                        assert(0 <= (len + 3) % 4 < 4);
                    }
                    spec_key_values(
                        b,
                        kv_entry_end(b, p, len) + pad,
                        little_endian,
                        offset + 4 + len + pad,
                        total,
                        kv_insert(acc, decode_utf8(kv_key_bytes(d)), kv_value_bytes(d)),
                    )
                }
            },
        }
    }
}

/// Whether a face is followed by cube padding: non-array cube maps only.
pub open spec fn has_cube_padding(h: KtxHeader) -> bool {
    h.number_of_faces == 6 && h.number_of_array_elements == 0
}

/// Reading one face of `size` bytes at `pos`, appended to `data`, and the
/// cube padding after it: for a non-array cube map, the bytes that round the
/// face up to a multiple of four.
pub open spec fn spec_face(b: Seq<u8>, pos: int, h: KtxHeader, size: int, data: Seq<u8>) -> Result<(Seq<u8>, int), KtxError> {
    if size > 0 && (pos < 0 || pos + size > b.len()) {
        Err(KtxError::UnexpectedEof)
    } else {
        let read = if size > 0 { b.subrange(pos, pos + size) } else { Seq::empty() };
        let skip = if has_cube_padding(h) && size % 4 != 0 { 4 - size % 4 } else { 0 };
        Ok((data + read, pos + size + skip))
    }
}

/// The bytes from `pos` to the end of the file (none when `pos` is at or past it):
/// what a face read that meets the end has taken.
pub open spec fn bytes_to_end(b: Seq<u8>, pos: int) -> Seq<u8> {
    if 0 <= pos < b.len() {
        b.subrange(pos, b.len() as int)
    } else {
        Seq::empty()
    }
}

/// Reading `n` faces.
pub open spec fn spec_faces(b: Seq<u8>, pos: int, h: KtxHeader, size: int, data: Seq<u8>, n: nat) -> Result<(Seq<u8>, int), KtxError>
    decreases n,
{
    if n == 0 {
        Ok((data, pos))
    } else {
        match spec_face(b, pos, h, size, data) {
            Err(e) => Err(e),
            Ok((d, p)) => spec_faces(b, p, h, size, d, (n - 1) as nat),
        }
    }
}

/// Reading `n` array elements, each of all the header's faces.
pub open spec fn spec_elements(b: Seq<u8>, pos: int, h: KtxHeader, size: int, data: Seq<u8>, n: nat) -> Result<(Seq<u8>, int), KtxError>
    decreases n,
{
    if n == 0 {
        Ok((data, pos))
    } else {
        match spec_faces(b, pos, h, size, data, h.number_of_faces as nat) {
            Err(e) => Err(e),
            Ok((d, p)) => spec_elements(b, p, h, size, d, (n - 1) as nat),
        }
    }
}

/// The number of array elements a level holds: the header's count, or one
/// for a texture that is not an array.
pub open spec fn element_count(h: KtxHeader) -> nat {
    if h.number_of_array_elements == 0 { 1 } else { h.number_of_array_elements as nat }
}

/// The array elements of a level as the reader builds them: every face empty.
pub open spec fn empty_elements(h: KtxHeader) -> Seq<Seq<Seq<u8>>> {
    Seq::new(element_count(h), |i: int| Seq::new(h.number_of_faces as nat, |j: int| Seq::<u8>::empty()))
}

/// Reading one mipmap level whose faces have `size` bytes each, and the
/// padding after it that rounds the image size up to a multiple of four.
pub open spec fn spec_level(b: Seq<u8>, pos: int, h: KtxHeader, size: int, native_little_endian: bool) -> Result<(KtxMipmapLevelView, int), KtxError> {
    match spec_read_u32_at(b, pos, native_little_endian) {
        Err(e) => Err(e),
        Ok((image_size, p)) => match spec_elements(b, p, h, size, Seq::empty(), element_count(h)) {
            Err(e) => Err(e),
            Ok((d, p2)) => {
                let skip = if image_size % 4 != 0 { 4 - (image_size % 4) as int } else { 0 };
                Ok((KtxMipmapLevelView { image_size, array_elements: empty_elements(h), data: d }, p2 + skip))
            },
        },
    }
}

/// Reading the mipmap levels from `level` on, those before already in `acc`.
pub open spec fn spec_levels(
    b: Seq<u8>,
    pos: int,
    h: KtxHeader,
    native_little_endian: bool,
    level: nat,
    acc: Seq<KtxMipmapLevelView>,
) -> Result<(Seq<KtxMipmapLevelView>, int), KtxError>
    decreases h.number_of_mipmap_levels - level,
{
    if level >= h.number_of_mipmap_levels {
        Ok((acc, pos))
    } else if !h.slice_size_defined(level as usize) {
        Err(KtxError::UnsupportedLayout)
    } else {
        match spec_level(b, pos, h, h.spec_element_face_slice_size(level as usize), native_little_endian) {
            Err(e) => Err(e),
            Ok((l, p)) => spec_levels(b, p, h, native_little_endian, level + 1, acc.push(l)),
        }
    }
}

/// Reading a KTX file from its header on, at `pos`, the file being
/// little-endian or not; the images are read in the machine's byte order.
pub open spec fn spec_file_body(b: Seq<u8>, pos: int, little_endian: bool, native_little_endian: bool) -> Result<KtxFileView, KtxError> {
    match spec_header(b, pos, little_endian) {
        Err(e) => Err(e),
        Ok((h, p)) => {
            let kv_little = if h.gl_type_size > 1 { little_endian } else { native_little_endian };
            match spec_key_values(b, p, kv_little, 0, h.bytes_of_key_value_data as int, Seq::empty()) {
                Err(e) => Err(e),
                Ok((kv, p2)) => match spec_levels(b, p2, h, native_little_endian, 0, Seq::empty()) {
                    Err(e) => Err(e),
                    Ok((levels, _p3)) => Ok(KtxFileView { header: h, key_value_pairs: kv, data: Some(levels) }),
                },
            }
        },
    }
}

/// Whether twelve bytes follow `pos` and are not KTX's identifier.
pub open spec fn not_ktx(b: Seq<u8>, pos: int) -> bool {
    0 <= pos && pos + 12 <= b.len() && b.subrange(pos, pos + 12) != FILE_IDENTIFIER@
}

/// Whether KTX's identifier stands at `pos` and is followed by an endianness
/// tag that is neither little- nor big-endian.
pub open spec fn bad_endianness_tag(b: Seq<u8>, pos: int) -> bool {
    &&& 0 <= pos
    &&& pos + 16 <= b.len()
    &&& b.subrange(pos, pos + 12) == FILE_IDENTIFIER@
    &&& b[pos + 12] != 1
    &&& b[pos + 12] != 4
}

/// Reading a whole KTX file from `pos`: identifier, endianness tag, then the rest.
pub open spec fn spec_ktx_file(b: Seq<u8>, pos: int, native_little_endian: bool) -> Result<KtxFileView, KtxError> {
    if pos < 0 || pos + 12 > b.len() {
        Err(KtxError::UnexpectedEof)
    } else if b.subrange(pos, pos + 12) != FILE_IDENTIFIER@ {
        Err(KtxError::NotKtx)
    } else if pos + 16 > b.len() {
        Err(KtxError::UnexpectedEof)
    } else if b[pos + 12] == 1 {
        spec_file_body(b, pos + 16, true, native_little_endian)
    } else if b[pos + 12] == 4 {
        spec_file_body(b, pos + 16, false, native_little_endian)
    } else {
        Err(KtxError::InvalidKtx)
    }
}

/// The view of a reading result.
pub open spec fn file_result_view(r: Result<KtxFile, KtxError>) -> Result<KtxFileView, KtxError> {
    match r {
        Ok(f) => Ok(f@),
        Err(e) => Err(e),
    }
}

/// The bytes of a KTX file and the position reached in them; the position may
/// run a few bytes past the end after padding is skipped.
pub struct KtxSource<'a> {
    pub bytes: &'a [u8],
    pub position: usize,
}

impl<'a> KtxSource<'a> {
    /// The position is at most a few bytes past the end, and positions past the
    /// end fit in a `usize`.
    pub open spec fn wf(self) -> bool {
        &&& self.position <= self.bytes@.len() + 6
        &&& self.bytes@.len() + 16 <= usize::MAX
    }

    /// A source at the start of `bytes`.
    pub fn new(bytes: &'a [u8]) -> (r: Self)
        requires
            bytes@.len() + 16 <= usize::MAX,
        ensures
            r.bytes@ == bytes@,
            r.position == 0,
            r.wf(),
    {
        KtxSource { bytes, position: 0 }
    }

    /// Reads one byte.
    pub fn read_u8(&mut self) -> (r: Result<u8, KtxError>)
        requires
            old(self).wf(),
        ensures
            final(self).wf(),
            final(self).bytes@ == old(self).bytes@,
            old(self).position < old(self).bytes@.len() ==> r == Ok::<u8, KtxError>(
                old(self).bytes@[old(self).position as int],
            ) && final(self).position == old(self).position + 1,
            old(self).position >= old(self).bytes@.len() ==> r == Err::<u8, KtxError>(
                KtxError::UnexpectedEof,
            ),
    {
        if self.position < self.bytes.len() {
            let v = self.bytes[self.position];
            self.position = self.position + 1;
            Ok(v)
        } else {
            Err(KtxError::UnexpectedEof)
        }
    }

    /// Reads a 32-bit integer in the given byte order.
    pub fn read_u32(&mut self, little_endian: bool) -> (r: Result<u32, KtxError>)
        requires
            old(self).wf(),
        ensures
            final(self).wf(),
            final(self).bytes@ == old(self).bytes@,
            match spec_read_u32_at(old(self).bytes@, old(self).position as int, little_endian) {
                Ok((v, p)) => r == Ok::<u32, KtxError>(v) && final(self).position == p,
                Err(e) => r == Err::<u32, KtxError>(e),
            },
    {
        if self.position <= self.bytes.len() && self.bytes.len() - self.position >= 4 {
            let word = &self.bytes[self.position..self.position + 4];
            assert(word@ == self.bytes@.subrange(self.position as int, self.position + 4));
            let v = if little_endian {
                read_u32_le(word)
            } else {
                read_u32_be(word)
            };
            self.position = self.position + 4;
            Ok(v)
        } else {
            Err(KtxError::UnexpectedEof)
        }
    }

    /// Reads `n` bytes; where fewer are left, the read fails and the position
    /// moves to the end.
    pub fn read_exact(&mut self, n: usize) -> (r: Result<Vec<u8>, KtxError>)
        requires
            old(self).wf(),
        ensures
            final(self).wf(),
            final(self).bytes@ == old(self).bytes@,
            old(self).position + n <= old(self).bytes@.len() ==> (r matches Ok(v) && v@
                == old(self).bytes@.subrange(old(self).position as int, old(self).position + n)
                && final(self).position == old(self).position + n),
            old(self).position + n > old(self).bytes@.len() ==> r == Err::<Vec<u8>, KtxError>(
                KtxError::UnexpectedEof,
            ) && final(self).position == old(self).bytes@.len(),
    {
        if self.position <= self.bytes.len() && self.bytes.len() - self.position >= n {
            let part = &self.bytes[self.position..self.position + n];
            let v = vstd::slice::slice_to_vec(part);
            self.position = self.position + n;
            Ok(v)
        } else {
            self.position = self.bytes.len();
            Err(KtxError::UnexpectedEof)
        }
    }

    /// Moves the position `n` bytes forward, past the end if need be.
    pub fn skip(&mut self, n: usize)
        requires
            old(self).wf(),
            old(self).position + n <= old(self).bytes@.len() + 6,
        ensures
            final(self).wf(),
            final(self).bytes@ == old(self).bytes@,
            final(self).position == old(self).position + n,
    {
        self.position = self.position + n;
    }
}

/// Whether a header follows the rules of `header_checks`.
fn header_checks_hold(h: &KtxHeader) -> (r: bool)
    ensures
        r == header_checks(*h),
{
    (h.gl_type > 0) == (h.gl_format > 0)
        && (h.number_of_faces == 1 || h.number_of_faces == 6)
        && h.number_of_mipmap_levels != 0
        && (h.gl_type == 0 || GLType::from_u32(h.gl_type).is_some())
        && (h.gl_format == 0 || GLFormat::from_u32(h.gl_format).is_some())
        && GLBaseInternalFormat::from_u32(h.gl_base_internal_format).is_some()
        && GLSizedInternalFormat::from_u32(h.gl_internal_format).is_some()
}

impl KtxHeader {
    /// Reads the twelve header fields in the file's byte order and checks the
    /// rules of the format. A header that breaks one is not read on with: it is
    /// refused with `InvalidHeader`, an error the caller can act on, rather than
    /// by stopping the program.
    pub fn deserialize(source: &mut KtxSource, little_endian: bool) -> (r: Result<KtxHeader, KtxError>)
        requires
            old(source).wf(),
        ensures
            final(source).wf(),
            final(source).bytes@ == old(source).bytes@,
            match spec_header(old(source).bytes@, old(source).position as int, little_endian) {
                Ok((h, p)) => r == Ok::<KtxHeader, KtxError>(h) && final(source).position == p,
                Err(e) => r == Err::<KtxHeader, KtxError>(e),
            },
    {
        let ghost b = source.bytes@;
        let ghost p0 = source.position as int;
        let gl_type = source.read_u32(little_endian)?;
        let gl_type_size = source.read_u32(little_endian)?;
        let gl_format = source.read_u32(little_endian)?;
        let gl_internal_format = source.read_u32(little_endian)?;
        let gl_base_internal_format = source.read_u32(little_endian)?;
        let pixel_width = source.read_u32(little_endian)?;
        let pixel_height = source.read_u32(little_endian)?;
        let pixel_depth = source.read_u32(little_endian)?;
        let number_of_array_elements = source.read_u32(little_endian)?;
        let number_of_faces = source.read_u32(little_endian)?;
        let number_of_mipmap_levels = source.read_u32(little_endian)?;
        let bytes_of_key_value_data = source.read_u32(little_endian)?;
        let ret_val = KtxHeader {
            gl_type,
            gl_type_size,
            gl_format,
            gl_internal_format,
            gl_base_internal_format,
            pixel_width,
            pixel_height,
            pixel_depth,
            number_of_array_elements,
            number_of_faces,
            number_of_mipmap_levels,
            bytes_of_key_value_data,
        };
        assert(ret_val == spec_header_fields(b, p0, little_endian));
        if !header_checks_hold(&ret_val) {
            return Err(KtxError::InvalidHeader);
        }
        Ok(ret_val)
    }

    /// The slice size of a level when it is defined, `None` when it is not.
    pub fn checked_element_face_slice_size(&self, mip_level: usize) -> (r: Option<usize>)
        ensures
            r is Some <==> self.slice_size_defined(mip_level),
            r matches Some(v) ==> v == self.spec_element_face_slice_size(mip_level),
    {
        if mip_level >= self.number_of_mipmap_levels as usize || mip_level >= usize::BITS as usize {
            return None;
        }
        let known = match GLSizedInternalFormat::from_u32(self.gl_internal_format) {
            Some(f) => match f {
                GLSizedInternalFormat::GL_R8
                | GLSizedInternalFormat::GL_R8_SNORM
                | GLSizedInternalFormat::GL_R8UI
                | GLSizedInternalFormat::GL_R11F_G11F_B10F
                | GLSizedInternalFormat::GL_RGB9_E5 => true,
                _ => false,
            },
            None => false,
        };
        if !known {
            return None;
        }
        let w: usize = if self.pixel_width == 0 { 1 } else { self.pixel_width as usize };
        let h: usize = if self.pixel_height == 0 { 1 } else { self.pixel_height as usize };
        let bx = w >> mip_level;
        let by = h >> mip_level;
        let f = GLSizedInternalFormat::from_u32(self.gl_internal_format).unwrap();
        let bs = get_format_size(f).block_size_in_bits / 8;
        if self.gl_type == 0 {
            match bx.checked_mul(by) {
                None => None,
                Some(a) => match a.checked_mul(bs) {
                    None => None,
                    Some(v) => {
                        assert(self.slice_size_defined(mip_level));
                        Some(self.element_face_slice_size(mip_level))
                    },
                },
            }
        } else {
            match bx.checked_mul(bs) {
                None => None,
                Some(row) => {
                    if row > usize::MAX - 3 {
                        None
                    } else {
                        let padded = row + ktx_pad_unpack_align_len(row);
                        match padded.checked_mul(by) {
                            None => None,
                            Some(v) => {
                                assert(self.slice_size_defined(mip_level));
                                Some(self.element_face_slice_size(mip_level))
                            },
                        }
                    }
                },
            }
        }
    }
}

/// Index of the first zero byte of `d`, or its length when there is none.
fn first_nul(d: &Vec<u8>) -> (r: usize)
    ensures
        r == nul_index(d@),
        r <= d@.len(),
{
    let mut i: usize = 0;
    while i < d.len() && d[i] != 0
        invariant
            i <= d@.len(),
            nul_from(d@, 0) == nul_from(d@, i as int),
        decreases d@.len() - i,
    {
        i = i + 1;
    }
    i
}

/// Sets `key` to `value` in a list of key/value pairs: the entry with that
/// key gets the new value, or a new entry is added at the end.
pub fn insert_key_value(entries: &mut Vec<(String, Vec<u8>)>, key: String, value: Vec<u8>)
    ensures
        key_values_view(final(entries)@) == kv_insert(key_values_view(old(entries)@), key@, value@),
{
    let ghost s = key_values_view(entries@);
    let mut i: usize = 0;
    while i < entries.len() && !(entries[i].0 == key)
        invariant
            i <= entries@.len(),
            s == key_values_view(entries@),
            key_position(s, key@, 0) == key_position(s, key@, i as int),
        decreases entries@.len() - i,
    {
        i = i + 1;
    }
    let ghost k = key@;
    let ghost v = value@;
    if i < entries.len() {
        entries.set(i, (key, value));
        assert(key_values_view(entries@) =~= s.update(i as int, (k, v)));
    } else {
        entries.push((key, value));
        assert(key_values_view(entries@) =~= s.push((k, v)));
    }
}

impl KtxFile {
    /// Reads the key/value data that the header announces, the entry sizes in
    /// the given byte order; a later entry with the same key replaces an
    /// earlier one. An entry that runs past the end of the file is taken as
    /// that many zero bytes (an empty key, the zeros as its value), and reading
    /// goes on from the end of the file.
    pub fn deserialize_key_value_pairs(header: &KtxHeader, source: &mut KtxSource, little_endian: bool) -> (r:
        Result<Vec<(String, Vec<u8>)>, KtxError>)
        requires
            old(source).wf(),
        ensures
            final(source).wf(),
            final(source).bytes@ == old(source).bytes@,
            match spec_key_values(
                old(source).bytes@,
                old(source).position as int,
                little_endian,
                0,
                header.bytes_of_key_value_data as int,
                Seq::empty(),
            ) {
                Ok((kv, p)) => (r matches Ok(v) && key_values_view(v@) == kv) && final(source).position == p,
                Err(e) => r matches Err(e2) && e2 == e,
            },
    {
        let ghost b = source.bytes@;
        let ghost p0 = source.position as int;
        let total: u64 = header.bytes_of_key_value_data as u64;
        let mut current_offset: u64 = 0;
        let mut ret_val: Vec<(String, Vec<u8>)> = Vec::new();
        assert(key_values_view(ret_val@) =~= Seq::empty());
        while current_offset < total
            invariant
                source.wf(),
                source.bytes@ == b,
                b == old(source).bytes@,
                p0 == old(source).position,
                total == header.bytes_of_key_value_data,
                current_offset <= total + 0x1_0000_0008,
                spec_key_values(b, source.position as int, little_endian, current_offset as int, total as int,
                    key_values_view(ret_val@)) == spec_key_values(b, p0, little_endian, 0, total as int, Seq::empty()),
            decreases (if total > current_offset { total - current_offset } else { 0 }),
        {
            let key_and_value_byte_size = source.read_u32(little_endian)?;
            let ghost p = source.position as int;
            let n = key_and_value_byte_size as usize;
            let data = match source.read_exact(n) {
                Ok(v) => v,
                Err(_) => {
                    let zeros = vec![0u8; n];
                    assert(zeros@ =~= kv_entry_bytes(b, p, key_and_value_byte_size));
                    zeros
                },
            };
            assert(data@ == kv_entry_bytes(b, p, key_and_value_byte_size));
            assert(source.position == kv_entry_end(b, p, key_and_value_byte_size));
            let padding64: u64 = 3 - ((key_and_value_byte_size as u64 + 3) % 4);
            let padding = padding64 as usize;
            source.skip(padding);
            current_offset = current_offset + 4 + key_and_value_byte_size as u64 + padding64;
            let nul_pos = first_nul(&data);
            let key_part = &data.as_slice()[0..nul_pos];
            assert(key_part@ == kv_key_bytes(data@));
            let key_text = match str_from_utf8(key_part) {
                Ok(text) => text,
                Err(_) => {
                    return Err(KtxError::InvalidKey);
                },
            };
            let key = key_text.to_owned();
            let value = if nul_pos < data.len() {
                let tail = &data.as_slice()[nul_pos..data.len()];
                assert(tail@ =~= kv_value_bytes(data@));
                vstd::slice::slice_to_vec(tail)
            } else {
                let empty: Vec<u8> = Vec::new();
                assert(empty@ =~= kv_value_bytes(data@));
                empty
            };
            insert_key_value(&mut ret_val, key, value);
        }
        Ok(ret_val)
    }
}

impl KtxFaceData {
    /// Reads the `size_in_bytes` image bytes of one face into `data` (the
    /// level's bytes) and skips the cube padding after them; the face itself
    /// keeps no bytes.
    pub fn deserialize(header: &KtxHeader, source: &mut KtxSource, data: &mut Vec<u8>, size_in_bytes: usize) -> (r:
        Result<KtxFaceData, KtxError>)
        requires
            old(source).wf(),
            old(source).position <= old(source).bytes@.len() + 3,
        ensures
            final(source).wf(),
            final(source).bytes@ == old(source).bytes@,
            match spec_face(old(source).bytes@, old(source).position as int, *header, size_in_bytes as int, old(data)@) {
                Ok((d, p)) => (r matches Ok(f) && f@ == Seq::<u8>::empty()) && final(data)@ == d
                    && final(source).position == p && p <= old(source).bytes@.len() + 3,
                Err(e) => r matches Err(e2) && e2 == e && final(data)@ == old(data)@ + bytes_to_end(
                    old(source).bytes@,
                    old(source).position as int,
                ),
            },
    {
        let ghost b = source.bytes@;
        let ghost p0 = source.position as int;
        let ghost d0 = data@;
        let ret_val = KtxFaceData { data: Vec::new() };
        let mut i: usize = 0;
        while i < size_in_bytes
            invariant
                source.wf(),
                source.bytes@ == b,
                b == old(source).bytes@,
                p0 == old(source).position,
                d0 == old(data)@,
                i <= size_in_bytes,
                source.position == p0 + i,
                i > 0 ==> p0 + i <= b.len(),
                data@ == d0 + (if i > 0 { b.subrange(p0, p0 + i) } else { Seq::<u8>::empty() }),
            decreases size_in_bytes - i,
        {
            let byte = source.read_u8()?;
            data.push(byte);
            i = i + 1;
            assert(data@ =~= d0 + b.subrange(p0, p0 + i));
        }
        if size_in_bytes == 0 {
            assert(data@ =~= d0 + Seq::<u8>::empty());
        } else {
            assert(data@ =~= d0 + b.subrange(p0, p0 + size_in_bytes));
        }
        let has_cube_padding = header.number_of_faces == 6 && header.number_of_array_elements == 0;
        if has_cube_padding && size_in_bytes % 4 != 0 {
            source.skip(4 - size_in_bytes % 4);
        }
        assert(ret_val@ =~= Seq::<u8>::empty());
        Ok(ret_val)
    }
}

/// All `n` faces of an array element as the reader builds them: empty.
pub open spec fn empty_faces(n: nat) -> Seq<Seq<u8>> {
    Seq::new(n, |j: int| Seq::<u8>::empty())
}

impl KtxArrayElement {
    /// Reads the faces of one array element into `data`.
    pub fn deserialize(header: &KtxHeader, source: &mut KtxSource, data: &mut Vec<u8>, size_in_bytes: usize) -> (r:
        Result<KtxArrayElement, KtxError>)
        requires
            old(source).wf(),
            old(source).position <= old(source).bytes@.len() + 3,
        ensures
            final(source).wf(),
            final(source).bytes@ == old(source).bytes@,
            match spec_faces(
                old(source).bytes@,
                old(source).position as int,
                *header,
                size_in_bytes as int,
                old(data)@,
                header.number_of_faces as nat,
            ) {
                Ok((d, p)) => (r matches Ok(e) && e@ == empty_faces(header.number_of_faces as nat))
                    && final(data)@ == d && final(source).position == p && p <= old(source).bytes@.len() + 3,
                Err(e) => r matches Err(e2) && e2 == e,
            },
    {
        let ghost b = source.bytes@;
        let ghost p0 = source.position as int;
        let ghost d0 = data@;
        let mut ret_val = KtxArrayElement { faces: Vec::new() };
        let mut face: u32 = 0;
        while face < header.number_of_faces
            invariant
                source.wf(),
                source.bytes@ == b,
                b == old(source).bytes@,
                p0 == old(source).position,
                d0 == old(data)@,
                face <= header.number_of_faces,
                source.position <= b.len() + 3,
                spec_faces(b, source.position as int, *header, size_in_bytes as int, data@,
                    (header.number_of_faces - face) as nat) == spec_faces(b, p0, *header, size_in_bytes as int, d0,
                    header.number_of_faces as nat),
                ret_val@ == empty_faces(face as nat),
                ret_val.faces@.len() == face,
            decreases header.number_of_faces - face,
        {
            let res = KtxFaceData::deserialize(header, source, data, size_in_bytes);
            let f = match res {
                Ok(f) => f,
                Err(e) => {
                    return Err(e);
                },
            };
            let ghost old_view = ret_val@;
            let ghost old_faces = ret_val.faces@;
            ret_val.faces.push(f);
            face = face + 1;
            assert forall|j: int| 0 <= j < face implies #[trigger] ret_val@[j] == Seq::<u8>::empty() by {
                if j < face - 1 {
                    assert(ret_val.faces@[j] == old_faces[j]);
                    assert(old_view[j] == old_faces[j]@);
                }
            }
            assert(ret_val@ =~= empty_faces(face as nat));
        }
        Ok(ret_val)
    }
}

impl KtxMipmapLevel {
    /// Reads one mipmap level whose faces have `size_in_bytes` bytes each: the
    /// image size (in the given byte order), every array element (one when the
    /// texture is not an array) and the padding after the level.
    pub fn deserialize(header: &KtxHeader, source: &mut KtxSource, size_in_bytes: usize, little_endian: bool) -> (r:
        Result<KtxMipmapLevel, KtxError>)
        requires
            old(source).wf(),
        ensures
            final(source).wf(),
            final(source).bytes@ == old(source).bytes@,
            match spec_level(old(source).bytes@, old(source).position as int, *header, size_in_bytes as int, little_endian) {
                Ok((l, p)) => (r matches Ok(v) && v@ == l) && final(source).position == p,
                Err(e) => r matches Err(e2) && e2 == e,
            },
    {
        let ghost b = source.bytes@;
        let image_size = source.read_u32(little_endian)?;
        let ghost p1 = source.position as int;
        let mut ret_val = KtxMipmapLevel { image_size, array_elements: Vec::new(), data: Vec::new() };
        let number_of_array_elements: u32 = if header.number_of_array_elements == 0 {
            1
        } else {
            header.number_of_array_elements
        };
        let mut element: u32 = 0;
        while element < number_of_array_elements
            invariant
                source.wf(),
                source.bytes@ == b,
                b == old(source).bytes@,
                number_of_array_elements == element_count(*header),
                spec_read_u32_at(b, old(source).position as int, little_endian) == Ok::<(u32, int), KtxError>(
                    (image_size, p1),
                ),
                element <= number_of_array_elements,
                source.position <= b.len() + 3,
                ret_val.image_size == image_size,
                spec_elements(b, source.position as int, *header, size_in_bytes as int, ret_val.data@,
                    (number_of_array_elements - element) as nat) == spec_elements(b, p1, *header, size_in_bytes as int,
                    Seq::empty(), number_of_array_elements as nat),
                elements_view(ret_val.array_elements@) == Seq::new(element as nat, |i: int|
                    empty_faces(header.number_of_faces as nat)),
                ret_val.array_elements@.len() == element,
            decreases number_of_array_elements - element,
        {
            let res = KtxArrayElement::deserialize(header, source, &mut ret_val.data, size_in_bytes);
            let e = match res {
                Ok(e) => e,
                Err(err) => {
                    return Err(err);
                },
            };
            let ghost old_view = elements_view(ret_val.array_elements@);
            let ghost old_elements = ret_val.array_elements@;
            ret_val.array_elements.push(e);
            element = element + 1;
            assert forall|j: int| 0 <= j < element implies #[trigger] elements_view(ret_val.array_elements@)[j] == empty_faces(header.number_of_faces as nat) by {
                if j < element - 1 {
                    assert(ret_val.array_elements@[j] == old_elements[j]);
                    assert(old_view[j] == old_elements[j]@);
                }
            }
            assert(elements_view(ret_val.array_elements@) =~= Seq::new(element as nat, |i: int|
                empty_faces(header.number_of_faces as nat)));
        }
        if ret_val.image_size % 4 != 0 {
            source.skip(4 - (ret_val.image_size % 4) as usize);
        }
        assert(ret_val@.array_elements =~= empty_elements(*header));
        Ok(ret_val)
    }
}

impl KtxFile {
    /// Reads a KTX file from its header on, the file being little-endian or
    /// not: the header and (when `glTypeSize` is above one) the key/value sizes
    /// in the file's byte order, the rest in the machine's, given by
    /// `native_little_endian`.
    pub fn deserialize_file(source: &mut KtxSource, little_endian: bool, native_little_endian: bool) -> (r: Result<
        KtxFile,
        KtxError,
    >)
        requires
            old(source).wf(),
        ensures
            final(source).wf(),
            final(source).bytes@ == old(source).bytes@,
            file_result_view(r) == spec_file_body(
                old(source).bytes@,
                old(source).position as int,
                little_endian,
                native_little_endian,
            ),
    {
        let ghost b = source.bytes@;
        let header = KtxHeader::deserialize(source, little_endian)?;
        let ghost p1 = source.position as int;
        let kv_little = if header.gl_type_size > 1 { little_endian } else { native_little_endian };
        let res = KtxFile::deserialize_key_value_pairs(&header, source, kv_little);
        let key_value_pairs = match res {
            Ok(kv) => kv,
            Err(e) => {
                return Err(e);
            },
        };
        let ghost p2 = source.position as int;
        let mut levels: Vec<KtxMipmapLevel> = Vec::new();
        let mut mip_level: u32 = 0;
        assert(levels_view(levels@) =~= Seq::empty());
        while mip_level < header.number_of_mipmap_levels
            invariant
                source.wf(),
                source.bytes@ == b,
                b == old(source).bytes@,
                spec_header(b, old(source).position as int, little_endian) == Ok::<(KtxHeader, int), KtxError>(
                    (header, p1),
                ),
                kv_little == (if header.gl_type_size > 1 { little_endian } else { native_little_endian }),
                spec_key_values(b, p1, kv_little, 0, header.bytes_of_key_value_data as int, Seq::empty()) == Ok::<
                    (Seq<(Seq<char>, Seq<u8>)>, int),
                    KtxError,
                >((key_values_view(key_value_pairs@), p2)),
                mip_level <= header.number_of_mipmap_levels,
                spec_levels(b, source.position as int, header, native_little_endian, mip_level as nat, levels_view(
                    levels@,
                )) == spec_levels(b, p2, header, native_little_endian, 0, Seq::empty()),
            decreases header.number_of_mipmap_levels - mip_level,
        {
            let size_in_bytes = match header.checked_element_face_slice_size(mip_level as usize) {
                Some(size) => size,
                None => {
                    return Err(KtxError::UnsupportedLayout);
                },
            };
            let res = KtxMipmapLevel::deserialize(&header, source, size_in_bytes, native_little_endian);
            let level = match res {
                Ok(level) => level,
                Err(e) => {
                    return Err(e);
                },
            };
            let ghost old_levels = levels@;
            levels.push(level);
            assert(levels_view(levels@) =~= levels_view(old_levels).push(level@));
            mip_level = mip_level + 1;
        }
        Ok(KtxFile { header, key_value_pairs, data: Some(levels) })
    }

    /// Reads a KTX file from the source's position: the identifier, the
    /// endianness tag and the rest, the machine's byte order being
    /// `native_little_endian`.
    pub fn deserialize_with_native_order(source: &mut KtxSource, native_little_endian: bool) -> (r: Result<
        KtxFile,
        KtxError,
    >)
        requires
            old(source).wf(),
        ensures
            final(source).wf(),
            final(source).bytes@ == old(source).bytes@,
            file_result_view(r) == spec_ktx_file(old(source).bytes@, old(source).position as int, native_little_endian),
            not_ktx(old(source).bytes@, old(source).position as int) ==> final(source).position == old(source).position
                + 12,
            bad_endianness_tag(old(source).bytes@, old(source).position as int) ==> final(source).position
                == old(source).position + 16,
    {
        let ghost b = source.bytes@;
        let ghost p0 = source.position as int;
        let identifier = source.read_exact(12)?;
        let expected = FILE_IDENTIFIER;
        let mut same = true;
        let mut i: usize = 0;
        while i < 12
            invariant
                i <= 12,
                identifier@.len() == 12,
                same == (forall|j: int| 0 <= j < i ==> identifier@[j] == expected@[j]),
            decreases 12 - i,
        {
            if identifier[i] != expected[i] {
                same = false;
            }
            i = i + 1;
        }
        assert(identifier@ == b.subrange(p0, p0 + 12));
        assert(same ==> identifier@ =~= expected@);
        assert(!same ==> identifier@ != expected@);
        if !same {
            return Err(KtxError::NotKtx);
        }
        let endianness = source.read_exact(4)?;
        let little_endian: bool = if endianness[0] == 0x01 {
            true
        } else if endianness[0] == 0x04 {
            false
        } else {
            return Err(KtxError::InvalidKtx);
        };
        KtxFile::deserialize_file(source, little_endian, native_little_endian)
    }

    /// Reads a KTX file from the source's position, in the machine's byte order
    /// (little- or big-endian).
    pub fn deserialize(source: &mut KtxSource) -> (r: Result<KtxFile, KtxError>)
        requires
            old(source).wf(),
        ensures
            final(source).wf(),
            final(source).bytes@ == old(source).bytes@,
            file_result_view(r) == spec_ktx_file(old(source).bytes@, old(source).position as int, true)
                || file_result_view(r) == spec_ktx_file(old(source).bytes@, old(source).position as int, false),
            not_ktx(old(source).bytes@, old(source).position as int) ==> final(source).position == old(source).position
                + 12,
            bad_endianness_tag(old(source).bytes@, old(source).position as int) ==> final(source).position
                == old(source).position + 16,
    {
        let native_little_endian = native_is_little_endian();
        KtxFile::deserialize_with_native_order(source, native_little_endian)
    }
}

/// The value stored under key `k`, if any.
pub open spec fn kv_lookup(s: Seq<(Seq<char>, Seq<u8>)>, k: Seq<char>) -> Option<Seq<u8>> {
    let p = key_position(s, k, 0);
    if p < s.len() {
        Some(s[p].1)
    } else {
        None
    }
}

/// No key occurs twice.
pub open spec fn keys_distinct(s: Seq<(Seq<char>, Seq<u8>)>) -> bool {
    forall|i: int, j: int| 0 <= i < j < s.len() ==> s[i].0 != s[j].0
}

/// `key_position` finds the first entry with the key, at or after `i`.
proof fn lemma_key_position(s: Seq<(Seq<char>, Seq<u8>)>, k: Seq<char>, i: int)
    requires
        0 <= i <= s.len(),
    ensures
        i <= key_position(s, k, i) <= s.len(),
        key_position(s, k, i) < s.len() ==> s[key_position(s, k, i)].0 == k,
        forall|j: int| i <= j < key_position(s, k, i) ==> s[j].0 != k,
    decreases s.len() - i,
{
    if i < s.len() && s[i].0 != k {
        lemma_key_position(s, k, i + 1);
    }
}

/// In a list whose keys are distinct, an entry with key `k` is the one that
/// `key_position` finds.
proof fn lemma_key_position_unique(s: Seq<(Seq<char>, Seq<u8>)>, k: Seq<char>, j: int)
    requires
        keys_distinct(s),
        0 <= j < s.len(),
        s[j].0 == k,
    ensures
        key_position(s, k, 0) == j,
{
    lemma_key_position(s, k, 0);
}

/// Setting a key and then looking it up gives the value that was set, and
/// every other key keeps its value.
pub proof fn lemma_kv_insert_lookup(s: Seq<(Seq<char>, Seq<u8>)>, k: Seq<char>, v: Seq<u8>, k2: Seq<char>)
    requires
        keys_distinct(s),
    ensures
        kv_lookup(kv_insert(s, k, v), k) == Some(v),
        k2 != k ==> kv_lookup(kv_insert(s, k, v), k2) == kv_lookup(s, k2),
        keys_distinct(kv_insert(s, k, v)),
{
    lemma_key_position(s, k, 0);
    lemma_key_position(s, k2, 0);
    let t = kv_insert(s, k, v);
    let p = key_position(s, k, 0);
    assert(keys_distinct(t)) by {
        assert forall|i: int, j: int| 0 <= i < j < t.len() implies t[i].0 != t[j].0 by {
            if p < s.len() {
                if i != p && j != p {
                    assert(t[i] == s[i] && t[j] == s[j]);
                }
            } else {
                if j == s.len() {
                    assert(s[i].0 != k);
                }
            }
        }
    }
    lemma_key_position(t, k, 0);
    lemma_key_position(t, k2, 0);
    if p < s.len() {
        lemma_key_position_unique(t, k, p);
    } else {
        lemma_key_position_unique(t, k, s.len() as int);
    }
    if k2 != k {
        let q = key_position(s, k2, 0);
        if q < s.len() {
            assert(t[q] == s[q]);
            lemma_key_position_unique(t, k2, q);
        } else {
            let q2 = key_position(t, k2, 0);
            if q2 < t.len() {
                if q2 < s.len() {
                    assert(t[q2] == s[q2] || q2 == p);
                    lemma_key_position_unique(s, k2, q2);
                }
            }
        }
    }
}

/// Reading key/value entries into a list with distinct keys gives a list with
/// distinct keys.
pub proof fn lemma_key_values_distinct(
    b: Seq<u8>,
    pos: int,
    little_endian: bool,
    offset: int,
    total: int,
    acc: Seq<(Seq<char>, Seq<u8>)>,
)
    requires
        keys_distinct(acc),
    ensures
        spec_key_values(b, pos, little_endian, offset, total, acc) matches Ok((kv, _)) ==> keys_distinct(kv),
    decreases (if total > offset { total - offset } else { 0 }),
{
    if offset < total {
        if let Ok((len, p)) = spec_read_u32_at(b, pos, little_endian) {
            let d = kv_entry_bytes(b, p, len);
            let pad = kv_padding(len);
            if valid_utf8(kv_key_bytes(d)) {
                assert(0 <= (len + 3) % 4 < 4);
                let k = decode_utf8(kv_key_bytes(d));
                lemma_kv_insert_lookup(acc, k, kv_value_bytes(d), k);
                lemma_key_values_distinct(b, kv_entry_end(b, p, len) + pad, little_endian, offset + 4 + len + pad,
                    total, kv_insert(acc, k, kv_value_bytes(d)));
            }
        }
    }
}

/// Reading `n` faces of `size` bytes appends `n * size` bytes.
proof fn lemma_faces_len(b: Seq<u8>, pos: int, h: KtxHeader, size: int, data: Seq<u8>, n: nat)
    requires
        size >= 0,
    ensures
        spec_faces(b, pos, h, size, data, n) matches Ok((d, _)) ==> d.len() == data.len() + n * size,
    decreases n,
{
    if n == 0 {
        assert(n * size == 0) by (nonlinear_arith)
            requires
                n == 0,
        ;
    } else {
        if let Ok((d, p)) = spec_face(b, pos, h, size, data) {
            assert(d.len() == data.len() + size);
            let m = (n - 1) as nat;
            lemma_faces_len(b, p, h, size, d, m);
            assert(n * size == size + m * size) by (nonlinear_arith)
                requires
                    m == n - 1,
            ;
        }
    }
}

/// Reading `n` array elements appends `n * faces * size` bytes.
proof fn lemma_elements_len(b: Seq<u8>, pos: int, h: KtxHeader, size: int, data: Seq<u8>, n: nat)
    requires
        size >= 0,
    ensures
        spec_elements(b, pos, h, size, data, n) matches Ok((d, _)) ==> d.len() == data.len() + n * (
        h.number_of_faces * size),
    decreases n,
{
    let f = h.number_of_faces * size;
    if n == 0 {
        assert(n * f == 0) by (nonlinear_arith)
            requires
                n == 0,
        ;
    } else {
        lemma_faces_len(b, pos, h, size, data, h.number_of_faces as nat);
        if let Ok((d, p)) = spec_faces(b, pos, h, size, data, h.number_of_faces as nat) {
            let m = (n - 1) as nat;
            lemma_elements_len(b, p, h, size, d, m);
            assert(n * f == f + m * f) by (nonlinear_arith)
                requires
                    m == n - 1,
            ;
        }
    }
}

/// The shape of a read mipmap level: one image size, `element_count` array
/// elements of `numberOfFaces` empty faces, and `size` bytes per face and
/// element.
pub open spec fn level_shape_ok(h: KtxHeader, level: usize, l: KtxMipmapLevelView) -> bool {
    &&& l.array_elements == empty_elements(h)
    &&& l.data.len() == element_count(h) * (h.number_of_faces * h.spec_element_face_slice_size(level))
}

/// Every level read from `level` on has the shape the header gives it.
proof fn lemma_levels_shape(b: Seq<u8>, pos: int, h: KtxHeader, native: bool, level: nat, acc: Seq<KtxMipmapLevelView>)
    requires
        level <= h.number_of_mipmap_levels,
        acc.len() == level,
        forall|i: int| 0 <= i < level ==> #[trigger] level_shape_ok(h, i as usize, acc[i]),
    ensures
        spec_levels(b, pos, h, native, level, acc) matches Ok((ls, _)) ==> {
            &&& ls.len() == h.number_of_mipmap_levels
            &&& forall|i: int| 0 <= i < ls.len() ==> #[trigger] level_shape_ok(h, i as usize, ls[i])
        },
    decreases h.number_of_mipmap_levels - level,
{
    if level < h.number_of_mipmap_levels && h.slice_size_defined(level as usize) {
        let size = h.spec_element_face_slice_size(level as usize);
        lemma_slice_size_nonneg(h, level as usize);
        if let Ok((l, p)) = spec_level(b, pos, h, size, native) {
            if let Ok((img, p1)) = spec_read_u32_at(b, pos, native) {
                lemma_elements_len(b, p1, h, size, Seq::empty(), element_count(h));
            }
            let acc2 = acc.push(l);
            assert forall|i: int| 0 <= i < level + 1 implies #[trigger] level_shape_ok(h, i as usize, acc2[i]) by {
                if i < level {
                    assert(acc2[i] == acc[i]);
                }
            }
            lemma_levels_shape(b, p, h, native, level + 1, acc2);
        }
    }
}


/// A file that reads without error has a header that follows the rules, keys
/// that occur once each, and exactly `numberOfMipmapLevels` levels, each with
/// `element_count` array elements of `numberOfFaces` faces and the level's
/// slice size in bytes for each face and element.
pub proof fn lemma_read_file_shape(b: Seq<u8>, pos: int, native_little_endian: bool)
    ensures
        spec_ktx_file(b, pos, native_little_endian) matches Ok(f) ==> {
            &&& header_checks(f.header)
            &&& keys_distinct(f.key_value_pairs)
            &&& f.data matches Some(levels) && levels.len() == f.header.number_of_mipmap_levels
                && forall|i: int| 0 <= i < levels.len() ==> #[trigger] level_shape_ok(f.header, i as usize, levels[i])
        },
{
    if 0 <= pos && pos + 16 <= b.len() && (b[pos + 12] == 1 || b[pos + 12] == 4) {
        let little = b[pos + 12] == 1;
        if let Ok((h, p)) = spec_header(b, pos + 16, little) {
            let kv_little = if h.gl_type_size > 1 { little } else { native_little_endian };
            lemma_key_values_distinct(b, p, kv_little, 0, h.bytes_of_key_value_data as int, Seq::empty());
            if let Ok((kv, p2)) = spec_key_values(b, p, kv_little, 0, h.bytes_of_key_value_data as int, Seq::empty()) {
                lemma_levels_shape(b, p2, h, native_little_endian, 0, Seq::empty());
            }
        }
    }
}

} // verus!
