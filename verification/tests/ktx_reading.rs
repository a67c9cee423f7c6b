use vkrust::gl_formats::{GLBaseInternalFormat, GLFormat, GLSizedInternalFormat, GLType};
use vkrust::ktx::{
    get_format_size, ktx_pad_unpack_align_len, GL_FORMAT_SIZE_PACKED_BIT, ktx_padn_len, FormatSize, KtxArrayElement, KtxError,
    KtxFaceData, KtxFile, KtxHeader, KtxMipmapLevel, FILE_IDENTIFIER, KTX_GL_UNPACK_ALIGNMENT,
    VK_FORMAT_B10G11R11_UFLOAT_PACK32,
};
use vkrust::ktx_reader::{insert_key_value, native_is_little_endian, KtxSource};

fn header(
    gl_type: u32,
    gl_type_size: u32,
    gl_format: u32,
    gl_internal_format: u32,
    gl_base_internal_format: u32,
    size: (u32, u32, u32),
    number_of_array_elements: u32,
    number_of_faces: u32,
    number_of_mipmap_levels: u32,
    bytes_of_key_value_data: u32,
) -> KtxHeader {
    KtxHeader {
        gl_type,
        gl_type_size,
        gl_format,
        gl_internal_format,
        gl_base_internal_format,
        pixel_width: size.0,
        pixel_height: size.1,
        pixel_depth: size.2,
        number_of_array_elements,
        number_of_faces,
        number_of_mipmap_levels,
        bytes_of_key_value_data,
    }
}

fn header_fields(h: &KtxHeader) -> Vec<u32> {
    vec![
        h.gl_type,
        h.gl_type_size,
        h.gl_format,
        h.gl_internal_format,
        h.gl_base_internal_format,
        h.pixel_width,
        h.pixel_height,
        h.pixel_depth,
        h.number_of_array_elements,
        h.number_of_faces,
        h.number_of_mipmap_levels,
        h.bytes_of_key_value_data,
    ]
}

/// Identifier, endianness tag and header, the fields in the given byte order.
fn file_start(h: &KtxHeader, little_endian: bool) -> Vec<u8> {
    let mut b = FILE_IDENTIFIER.to_vec();
    if little_endian {
        b.extend_from_slice(&[1, 2, 3, 4]);
    } else {
        b.extend_from_slice(&[4, 3, 2, 1]);
    }
    for f in header_fields(h) {
        if little_endian {
            b.extend_from_slice(&f.to_le_bytes());
        } else {
            b.extend_from_slice(&f.to_be_bytes());
        }
    }
    b
}

/// A 2x2 uncompressed `GL_R8` texture with one key/value entry and one level
/// of two rows, each padded from two bytes to four.
fn r8_file() -> (KtxHeader, Vec<u8>) {
    let h = header(0x1401, 1, 0x1903, 0x8229, 0x1903, (2, 2, 0), 0, 1, 1, 12);
    let mut b = file_start(&h, true);
    b.extend_from_slice(&5u32.to_ne_bytes());
    b.extend_from_slice(&[b'a', b'b', 0, b'x', b'y', 0, 0, 0]);
    b.extend_from_slice(&8u32.to_ne_bytes());
    b.extend_from_slice(&[1, 2, 0, 0, 3, 4, 0, 0]);
    (h, b)
}

fn read(bytes: &[u8]) -> Result<KtxFile, KtxError> {
    let mut source = KtxSource::new(bytes);
    KtxFile::deserialize(&mut source)
}

#[test]
fn reads_little_endian_r8_file() {
    let (h, b) = r8_file();
    let f = read(&b).unwrap();
    assert_eq!(f.header, h);
    assert_eq!(f.key_value_pairs, vec![("ab".to_string(), vec![0, b'x', b'y'])]);
    let expected_level = KtxMipmapLevel {
        image_size: 8,
        array_elements: vec![KtxArrayElement { faces: vec![KtxFaceData { data: vec![] }] }],
        data: vec![1, 2, 0, 0, 3, 4, 0, 0],
    };
    assert_eq!(f.data, Some(vec![expected_level]));
}

#[test]
fn reads_big_endian_packed_float_file() {
    let h = header(0x8C3B, 4, 0x1907, 0x8C3A, 0x1907, (1, 1, 0), 0, 1, 1, 0);
    let mut b = file_start(&h, false);
    b.extend_from_slice(&4u32.to_ne_bytes());
    b.extend_from_slice(&[9, 8, 7, 6]);
    let f = read(&b).unwrap();
    assert_eq!(f.header, h);
    assert!(f.key_value_pairs.is_empty());
    let levels = f.data.unwrap();
    assert_eq!(levels.len(), 1);
    assert_eq!(levels[0].data, vec![9, 8, 7, 6]);
    assert_eq!(h.get_vk_format(), Some(VK_FORMAT_B10G11R11_UFLOAT_PACK32));
}

#[test]
fn reads_uncompressed_rows_with_padding() {
    // Uncompressed: rows of three one-byte texels are padded to four bytes.
    let h = header(0x1401, 1, 0x1903, 0x8229, 0x1903, (3, 2, 0), 0, 1, 1, 0);
    assert_eq!(h.element_face_slice_size(0), 8);
    let mut b = file_start(&h, true);
    b.extend_from_slice(&8u32.to_ne_bytes());
    b.extend_from_slice(&[1, 2, 3, 0, 4, 5, 6, 0]);
    let f = read(&b).unwrap();
    assert_eq!(f.data.unwrap()[0].data, vec![1, 2, 3, 0, 4, 5, 6, 0]);
}

#[test]
fn reads_compressed_blocks_without_row_padding() {
    // glType 0 marks a compressed texture: its blocks are not padded per row.
    let h = header(0, 1, 0, 0x8229, 0x1903, (3, 2, 0), 0, 1, 1, 0);
    assert_eq!(h.element_face_slice_size(0), 6);
    let mut b = file_start(&h, true);
    b.extend_from_slice(&6u32.to_ne_bytes());
    b.extend_from_slice(&[1, 2, 3, 4, 5, 6, 0, 0]);
    let f = read(&b).unwrap();
    assert_eq!(f.data.unwrap()[0].data, vec![1, 2, 3, 4, 5, 6]);
}

#[test]
fn mip_padding_rounds_levels_up_to_four_bytes() {
    // Level 0 has three bytes and one byte of padding; level 1 is empty.
    let h = header(0, 1, 0, 0x8229, 0x1903, (3, 1, 0), 0, 1, 2, 0);
    let mut b = file_start(&h, true);
    b.extend_from_slice(&3u32.to_ne_bytes());
    b.extend_from_slice(&[7, 8, 9, 0]);
    b.extend_from_slice(&0u32.to_ne_bytes());
    let levels = read(&b).unwrap().data.unwrap();
    assert_eq!(levels.len(), 2);
    assert_eq!((levels[0].image_size, levels[0].data.clone()), (3, vec![7, 8, 9]));
    assert_eq!((levels[1].image_size, levels[1].data.len()), (0, 0));
}

#[test]
fn cube_faces_start_at_multiples_of_four() {
    // A non-array cube map whose faces hold one byte each: three bytes of
    // padding follow every face.
    let h = header(0, 1, 0, 0x8229, 0x1903, (1, 1, 0), 0, 6, 1, 0);
    let mut b = file_start(&h, true);
    b.extend_from_slice(&6u32.to_ne_bytes());
    for face in 1..=6u8 {
        b.extend_from_slice(&[face, 0, 0, 0]);
    }
    let f = read(&b).unwrap();
    assert_eq!(f.data.unwrap()[0].data, vec![1, 2, 3, 4, 5, 6]);
}

#[test]
fn short_face_keeps_the_bytes_it_read() {
    let h = header(0, 1, 0, 0x8229, 0x1903, (2, 2, 0), 0, 1, 1, 0);
    let bytes = [1u8, 2];
    let mut s = KtxSource::new(&bytes);
    let mut data = vec![9u8];
    assert_eq!(KtxFaceData::deserialize(&h, &mut s, &mut data, 4), Err(KtxError::UnexpectedEof));
    assert_eq!(data, vec![9, 1, 2]);
}

#[test]
fn later_key_replaces_earlier() {
    let h = header(0x1401, 1, 0x1903, 0x8229, 0x1903, (1, 1, 0), 0, 1, 1, 24);
    let mut b = file_start(&h, true);
    for value in [b'1', b'2'] {
        b.extend_from_slice(&5u32.to_ne_bytes());
        b.extend_from_slice(&[b'k', b'e', b'y', 0, value, 0, 0, 0]);
    }
    b.extend_from_slice(&4u32.to_ne_bytes());
    b.extend_from_slice(&[7, 0, 0, 0]);
    let f = read(&b).unwrap();
    assert_eq!(f.key_value_pairs, vec![("key".to_string(), vec![0, b'2'])]);
}

#[test]
fn key_without_terminator_has_empty_value() {
    let h = header(0x1401, 1, 0x1903, 0x8229, 0x1903, (1, 1, 0), 0, 1, 1, 8);
    let mut b = file_start(&h, true);
    b.extend_from_slice(&3u32.to_ne_bytes());
    b.extend_from_slice(&[b'a', b'b', b'c', 0]);
    b.extend_from_slice(&4u32.to_ne_bytes());
    b.extend_from_slice(&[7, 0, 0, 0]);
    let f = read(&b).unwrap();
    assert_eq!(f.key_value_pairs, vec![("abc".to_string(), vec![])]);
}

#[test]
fn cube_map_faces_are_gathered_in_order() {
    let h = header(0x1401, 1, 0x1903, 0x8229, 0x1903, (2, 2, 0), 0, 6, 1, 0);
    let mut b = file_start(&h, true);
    b.extend_from_slice(&48u32.to_ne_bytes());
    let faces: Vec<u8> = (0..48).collect();
    b.extend_from_slice(&faces);
    let f = read(&b).unwrap();
    let level = &f.data.unwrap()[0];
    assert_eq!(level.data, faces);
    assert_eq!(level.array_elements.len(), 1);
    assert_eq!(level.array_elements[0].faces.len(), 6);
}

#[test]
fn not_a_ktx_file() {
    let mut b = r8_file().1;
    b[1] = 0;
    assert_eq!(read(&b), Err(KtxError::NotKtx));
    let zeros = [0u8; 64];
    let mut s = KtxSource::new(&zeros);
    assert_eq!(KtxFile::deserialize(&mut s), Err(KtxError::NotKtx));
    assert_eq!(s.position, 12);
}

#[test]
fn invalid_endianness_tag() {
    let mut b = r8_file().1;
    b[12] = 2;
    assert_eq!(read(&b), Err(KtxError::InvalidKtx));
    let mut s = KtxSource::new(&b[0..16]);
    assert_eq!(KtxFile::deserialize(&mut s), Err(KtxError::InvalidKtx));
    assert_eq!(s.position, 16);
}

#[test]
fn truncated_files_end_early() {
    let b = r8_file().1;
    assert_eq!(read(&b[0..8]), Err(KtxError::UnexpectedEof));
    assert_eq!(read(&b[0..30]), Err(KtxError::UnexpectedEof));
    assert_eq!(read(&b[0..b.len() - 1]), Err(KtxError::UnexpectedEof));
}

#[test]
fn bad_face_count_is_an_invalid_header() {
    let h = header(0x1401, 1, 0x1903, 0x8229, 0x1903, (2, 2, 0), 0, 2, 1, 0);
    let b = file_start(&h, true);
    assert_eq!(read(&b), Err(KtxError::InvalidHeader));
}

#[test]
fn type_without_format_is_an_invalid_header() {
    let h = header(0x1401, 1, 0, 0x8229, 0x1903, (2, 2, 0), 0, 1, 1, 0);
    let b = file_start(&h, true);
    assert_eq!(read(&b), Err(KtxError::InvalidHeader));
}

#[test]
fn non_utf8_key_is_refused() {
    let h = header(0x1401, 1, 0x1903, 0x8229, 0x1903, (1, 1, 0), 0, 1, 1, 8);
    let mut b = file_start(&h, true);
    b.extend_from_slice(&2u32.to_ne_bytes());
    b.extend_from_slice(&[0xFF, 0, 0, 0]);
    assert_eq!(read(&b), Err(KtxError::InvalidKey));
}

#[test]
fn format_without_known_layout_is_unsupported() {
    // GL_RGBA8 is a valid format code whose block layout is not known.
    let h = header(0x1401, 1, 0x1908, 0x8058, 0x1908, (1, 1, 0), 0, 1, 1, 0);
    let mut b = file_start(&h, true);
    b.extend_from_slice(&4u32.to_ne_bytes());
    b.extend_from_slice(&[1, 2, 3, 4]);
    assert_eq!(read(&b), Err(KtxError::UnsupportedLayout));
}

#[test]
fn machine_byte_order_decides_key_value_sizes() {
    let (_, b) = r8_file();
    let native_little = native_is_little_endian();
    assert_eq!(native_little, u32::from_ne_bytes([1, 0, 0, 0]) == 1);
    let mut source = KtxSource::new(&b);
    assert!(KtxFile::deserialize_with_native_order(&mut source, native_little).is_ok());
    let mut source = KtxSource::new(&b);
    assert_eq!(
        KtxFile::deserialize_with_native_order(&mut source, !native_little),
        Err(KtxError::UnexpectedEof)
    );
}

#[test]
fn source_reads_in_both_byte_orders() {
    let bytes = [1u8, 2, 3, 4, 5];
    let mut s = KtxSource::new(&bytes);
    assert_eq!(s.read_u32(true), Ok(0x04030201));
    assert_eq!(s.read_u8(), Ok(5));
    assert_eq!(s.read_u8(), Err(KtxError::UnexpectedEof));
    let mut s = KtxSource::new(&bytes);
    assert_eq!(s.read_u32(false), Ok(0x01020304));
    assert_eq!(s.position, 4);
    assert_eq!(s.read_u32(false), Err(KtxError::UnexpectedEof));
    let mut s = KtxSource::new(&bytes);
    assert_eq!(s.read_exact(3), Ok(vec![1, 2, 3]));
    s.skip(2);
    assert_eq!(s.position, 5);
    assert_eq!(s.read_exact(1), Err(KtxError::UnexpectedEof));
}

#[test]
fn header_deserialize_reads_twelve_fields() {
    let h = header(0x1401, 1, 0x1903, 0x8229, 0x1903, (5, 6, 0), 0, 1, 3, 0);
    let b = file_start(&h, false);
    let mut s = KtxSource::new(&b[16..]);
    assert_eq!(KtxHeader::deserialize(&mut s, false), Ok(h));
    assert_eq!(s.position, 48);
}

#[test]
fn insert_key_value_sets_or_appends() {
    let mut entries = Vec::new();
    insert_key_value(&mut entries, "a".to_string(), vec![1]);
    insert_key_value(&mut entries, "b".to_string(), vec![2]);
    insert_key_value(&mut entries, "a".to_string(), vec![3]);
    assert_eq!(entries, vec![("a".to_string(), vec![3]), ("b".to_string(), vec![2])]);
}

#[test]
fn padding_lengths() {
    assert_eq!(KTX_GL_UNPACK_ALIGNMENT, 4);
    assert_eq!(ktx_padn_len(4, 5), 3);
    assert_eq!(ktx_padn_len(4, 8), 0);
    assert_eq!(ktx_padn_len(8, 13), 3);
    assert_eq!(ktx_padn_len(1, 13), 0);
    assert_eq!(ktx_pad_unpack_align_len(6), 2);
    assert_eq!(ktx_pad_unpack_align_len(0), 0);
    for n in 0..40usize {
        assert_eq!((n + ktx_pad_unpack_align_len(n)) % 4, 0);
        for align in [1usize, 2, 4, 8, 16, 64] {
            let pad = ktx_padn_len(align, n);
            assert!(pad < align);
            assert_eq!((n + pad) % align, 0);
        }
    }
}

#[test]
fn format_sizes() {
    let one_byte = FormatSize {
        flags: 0,
        palette_size_in_bits: 0,
        block_size_in_bits: 8,
        block_width: 1,
        block_height: 1,
        block_depth: 1,
    };
    assert_eq!(get_format_size(GLSizedInternalFormat::GL_R8), one_byte);
    assert_eq!(get_format_size(GLSizedInternalFormat::GL_R8UI), one_byte);
    let packed = FormatSize { flags: GL_FORMAT_SIZE_PACKED_BIT, block_size_in_bits: 32, ..one_byte };
    assert_eq!(GL_FORMAT_SIZE_PACKED_BIT, 1);
    assert_eq!(get_format_size(GLSizedInternalFormat::GL_RGB9_E5), packed);
    assert_eq!(get_format_size(GLSizedInternalFormat::GL_R11F_G11F_B10F), packed);
}

#[test]
fn gl_codes_round_trip() {
    assert_eq!(GLSizedInternalFormat::from_u32(0x8229), Some(GLSizedInternalFormat::GL_R8));
    assert_eq!(GLSizedInternalFormat::GL_R8.code(), 0x8229);
    assert_eq!(GLSizedInternalFormat::from_u32(0), None);
    assert_eq!(GLBaseInternalFormat::from_u32(0x1903), Some(GLBaseInternalFormat::GL_RED));
    assert_eq!(GLBaseInternalFormat::GL_STENCIL_INDEX.code(), 0x1901);
    assert_eq!(GLFormat::from_u32(0x80E1), Some(GLFormat::GL_BGRA));
    assert_eq!(GLFormat::from_u32(0x1234), None);
    assert_eq!(GLType::from_u32(0x1401), Some(GLType::GL_UNSIGNED_BYTE));
    assert_eq!(GLType::GL_UNSIGNED_INT_10F_11F_11F_REV.code(), 0x8C3B);
}

#[test]
fn header_predicates() {
    let h = header(0, 1, 0, 0x8229, 0x1903, (4, 0, 0), 2, 1, 1, 0);
    assert!(h.is_compressed());
    assert!(h.is_array_texture());
    assert!(h.is_1d_texture());
    assert!(h.is_2d_or_cube_texture());
    let h = header(0x1401, 1, 0x1903, 0x8229, 0x1903, (4, 4, 4), 0, 6, 1, 0);
    assert!(!h.is_compressed());
    assert!(!h.is_array_texture());
    assert!(!h.is_1d_texture());
    assert!(!h.is_2d_or_cube_texture());
}

#[test]
fn compressed_image_offsets_and_size() {
    let h = header(0, 1, 0, 0x8229, 0x1903, (4, 4, 0), 2, 1, 2, 0);
    assert_eq!(h.element_face_slice_size(0), 16);
    assert_eq!(h.element_face_slice_size(1), 4);
    assert_eq!(h.image_offset(0, 1, 0), 16);
    assert_eq!(h.image_offset(1, 1, 0), 36);
    assert_eq!(h.image_size_max(), 52);
    assert_eq!(h.checked_element_face_slice_size(1), Some(4));
}

#[test]
fn image_offsets_and_size() {
    let h = header(0x1401, 1, 0x1903, 0x8229, 0x1903, (4, 4, 0), 2, 1, 2, 0);
    assert_eq!(h.element_face_slice_size(0), 16);
    assert_eq!(h.element_face_slice_size(1), 8);
    assert_eq!(h.image_offset(0, 0, 0), 0);
    assert_eq!(h.image_offset(0, 1, 0), 16);
    assert_eq!(h.image_offset(1, 1, 0), 40);
    assert_eq!(h.image_size_max(), 72);
    assert_eq!(h.checked_element_face_slice_size(1), Some(8));
    assert_eq!(h.checked_element_face_slice_size(2), None);
    assert_eq!(h.get_vk_format(), None);
    // Deeper levels are no larger, and every image lies before the next level
    // and within the maximum size.
    assert!(h.element_face_slice_size(1) <= h.element_face_slice_size(0));
    for a in 0..2 {
        assert!(h.image_offset(0, a, 0) + h.element_face_slice_size(0) <= h.image_offset(1, 0, 0));
        assert!(h.image_offset(1, a, 0) + h.element_face_slice_size(1) <= h.image_size_max());
    }
}

#[test]
fn key_value_entry_past_the_end_is_zero_filled() {
    let h = header(0x1401, 1, 0x1903, 0x8229, 0x1903, (1, 1, 0), 0, 1, 1, 12);
    let bytes = [5u8, 0, 0, 0, b'a', b'b'];
    let mut s = KtxSource::new(&bytes);
    let kv = KtxFile::deserialize_key_value_pairs(&h, &mut s, true).unwrap();
    assert_eq!(kv, vec![(String::new(), vec![0u8; 5])]);
    assert_eq!(s.position, 9);
}

#[test]
fn reads_a_file_from_the_source_position() {
    let (h, file) = r8_file();
    let mut b = vec![0xEE, 0xEE, 0xEE];
    b.extend_from_slice(&file);
    let mut s = KtxSource::new(&b);
    s.position = 3;
    let f = KtxFile::deserialize(&mut s).unwrap();
    assert_eq!(f.header, h);
    let mut s = KtxSource::new(&b);
    s.position = 1;
    assert_eq!(KtxFile::deserialize(&mut s), Err(KtxError::NotKtx));
    assert_eq!(s.position, 13);
}
