use souls_format::dummy::DummyArray;
use souls_format::endian::Endian;
use souls_format::error::FormatError;
use souls_format::flver::{detect_endianness, Flver, FlverData, FlverHeader, FlverHeaderData};

fn put32(buf: &mut [u8], off: usize, v: u32, big: bool) {
    let b = if big { v.to_be_bytes() } else { v.to_le_bytes() };
    buf[off..off + 4].copy_from_slice(&b);
}

fn put16(buf: &mut [u8], off: usize, v: u16, big: bool) {
    let b = if big { v.to_be_bytes() } else { v.to_le_bytes() };
    buf[off..off + 2].copy_from_slice(&b);
}

fn model(big: bool, dummies: u32, extra: usize) -> Vec<u8> {
    let mut buf = vec![0u8; 128 + 64 * dummies as usize + extra];
    buf[..6].copy_from_slice(b"FLVER\0");
    buf[6] = if big { b'B' } else { b'L' };
    put32(&mut buf, 8, 0x0002_0014, big);
    put32(&mut buf, 12, 0x1000, big);
    put32(&mut buf, 16, 0x2345, big);
    put32(&mut buf, 20, dummies, big);
    put32(&mut buf, 24, 7, big);
    put32(&mut buf, 28, 11, big);
    put32(&mut buf, 32, 3, big);
    put32(&mut buf, 36, 4, big);
    put32(&mut buf, 40, 1.5f32.to_bits(), big);
    put32(&mut buf, 52, (-2.0f32).to_bits(), big);
    put32(&mut buf, 64, 600, big);
    put32(&mut buf, 68, 900, big);
    buf[72] = 16;
    buf[73] = 1;
    put32(&mut buf, 80, 5, big);
    put32(&mut buf, 84, 6, big);
    put32(&mut buf, 88, 9, big);
    put32(&mut buf, 104, 0xDEAD_BEEF, big);
    for i in 0..dummies as usize {
        let base = 128 + 64 * i;
        put32(&mut buf, base, (i as f32).to_bits(), big);
        buf[base + 12..base + 16].copy_from_slice(&[1, 2, 3, 4]);
        put16(&mut buf, base + 28, (-(i as i16) - 1) as u16, big);
        put16(&mut buf, base + 30, 40 + i as u16, big);
        put16(&mut buf, base + 44, 0xFFFF, big);
        buf[base + 46] = 1;
        buf[base + 47] = 0;
    }
    buf
}

#[test]
fn detects_both_markers() {
    assert_eq!(detect_endianness(&model(false, 0, 0)), Ok(Endian::Little));
    assert_eq!(detect_endianness(&model(true, 0, 0)), Ok(Endian::Big));
}

#[test]
fn unknown_marker_is_rejected() {
    let mut buf = model(false, 0, 0);
    buf[6] = b'X';
    assert_eq!(detect_endianness(&buf), Err(FormatError::UnknownEndianness));
    assert!(matches!(Flver::from(&buf), Err(FormatError::UnknownEndianness)));
}

#[test]
fn bad_magic_is_malformed() {
    let mut buf = model(false, 0, 0);
    buf[0] = b'G';
    assert!(matches!(Flver::from(&buf), Err(FormatError::MalformedHeader)));
    assert!(matches!(Flver::from(&buf[..5]), Err(FormatError::MalformedHeader)));
}

#[test]
fn both_byte_orders_decode_the_same_values() {
    let le = model(false, 2, 0);
    let be = model(true, 2, 0);
    let fl = Flver::from(&le).unwrap();
    let fb = Flver::from(&be).unwrap();
    assert!(matches!(fl, Flver::LittleEndian(_)));
    assert!(matches!(fb, Flver::BigEndian(_)));
    for f in [&fl, &fb] {
        assert_eq!(f.version(), 0x0002_0014);
        assert_eq!(f.dummy_count(), 2);
        let h = f.header();
        assert_eq!(h.data_offset(), 0x1000);
        assert_eq!(h.data_length(), 0x2345);
        assert_eq!(h.material_count(), 7);
        assert_eq!(h.bone_count(), 11);
        assert_eq!(h.mesh_count(), 3);
        assert_eq!(h.vertex_buffer_count(), 4);
        assert_eq!(f32::from_bits(h.bounding_box_min_bits(0)), 1.5);
        assert_eq!(f32::from_bits(h.bounding_box_max_bits(0)), -2.0);
        assert_eq!(h.face_count(), 600);
        assert_eq!(h.total_face_count(), 900);
        assert_eq!(h.vertex_index_size(), 16);
        assert_eq!(h.unicode(), 1);
        assert_eq!(h.face_set_count(), 5);
        assert_eq!(h.buffer_layout_count(), 6);
        assert_eq!(h.texture_count(), 9);
        assert_eq!(h.unk68(), 0xDEAD_BEEF);
        let d = f.dummy(1).unwrap();
        assert_eq!(f32::from_bits(d.position_bits(0)), 1.0);
        assert_eq!(d.color(2), 3);
        assert_eq!(d.reference_id(), -2);
        assert_eq!(d.parent_bone_index(), 41);
        assert_eq!(d.attach_bone_index(), -1);
        assert_eq!(d.flag1(), 1);
        assert_eq!(d.use_upward_vector(), 0);
        assert_eq!(f.dummy(2).err(), Some(FormatError::IndexOutOfRange));
    }
}

#[test]
fn header_view_reads_in_its_own_tag() {
    let le = model(false, 0, 0);
    let (h, rest) = FlverHeaderData::from_prefix(&le, Endian::Big).unwrap();
    assert_eq!(rest.len(), 0);
    assert_eq!(h.endian(), Endian::Big);
    assert_eq!(h.version(), 0x1400_0200);
}

#[test]
fn short_buffers_are_truncated_for_the_header() {
    let buf = model(false, 0, 0);
    for n in 0..128 {
        assert!(matches!(
            FlverHeaderData::from_prefix(&buf[..n], Endian::Little),
            Err(FormatError::TruncatedBuffer)
        ));
    }
    let (_, rest) = FlverHeaderData::from_prefix(&buf, Endian::Little).unwrap();
    assert!(rest.is_empty());
}

#[test]
fn record_array_bounds() {
    let buf = vec![0u8; 64 * 3 + 10];
    assert!(matches!(DummyArray::from_prefix(&buf, 4, Endian::Little), Err(FormatError::TruncatedBuffer)));
    assert!(matches!(
        DummyArray::from_prefix(&buf, usize::MAX, Endian::Little),
        Err(FormatError::TruncatedBuffer)
    ));
    let (arr, rest) = DummyArray::from_prefix(&buf, 3, Endian::Little).unwrap();
    assert_eq!(arr.len(), 3);
    assert_eq!(rest.len(), 10);
    assert!(arr.get(2).is_ok());
    assert_eq!(arr.get(3).err(), Some(FormatError::IndexOutOfRange));
    let exact = vec![0u8; 128];
    let (arr, rest) = DummyArray::from_prefix(&exact, 2, Endian::Big).unwrap();
    assert_eq!(arr.len(), 2);
    assert!(rest.is_empty());
}

#[test]
fn dummy_count_past_buffer_is_truncated() {
    let mut buf = model(true, 2, 0);
    buf.pop();
    assert!(matches!(Flver::from(&buf), Err(FormatError::TruncatedBuffer)));
    assert!(matches!(Flver::from(&buf[..100]), Err(FormatError::TruncatedBuffer)));
}

#[test]
fn inner_view_serves_dummies() {
    let buf = model(false, 1, 5);
    match Flver::from(&buf).unwrap() {
        Flver::LittleEndian(inner) => {
            assert_eq!(inner.header().dummy_count(), 1);
            assert_eq!(inner.dummy(0).unwrap().reference_id(), -1);
            assert!(inner.dummy(1).is_err());
        }
        Flver::BigEndian(_) => panic!("expected little-endian"),
    }
}
