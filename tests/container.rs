use souls_format::archive::{ArchiveDirectory, ArchiveEntry};
use souls_format::dcx::{decompress, Dcx, ALGORITHM_NONE};
use souls_format::endian::{get_u16, get_u32, Endian};
use souls_format::error::FormatError;

fn container(tag: &[u8; 4], hint: u32, payload: &[u8]) -> Vec<u8> {
    let mut v = b"DCX\0".to_vec();
    v.extend_from_slice(tag);
    v.extend_from_slice(&hint.to_be_bytes());
    v.extend_from_slice(&(payload.len() as u32).to_be_bytes());
    v.extend_from_slice(&20u32.to_be_bytes());
    v.extend_from_slice(payload);
    v
}

struct Entry<'a> {
    flags: u32,
    path: &'a [u8],
    data: &'a [u8],
}

fn archive(entries: &[Entry]) -> Vec<u8> {
    let table_end = 12 + 24 * entries.len();
    let paths_len: usize = entries.iter().map(|e| e.path.len()).sum();
    let mut path_off = table_end;
    let mut data_off = table_end + paths_len;
    let mut v = b"BND4".to_vec();
    v.extend_from_slice(&0u32.to_le_bytes());
    v.extend_from_slice(&(entries.len() as u32).to_le_bytes());
    for e in entries {
        v.extend_from_slice(&e.flags.to_le_bytes());
        v.extend_from_slice(&(e.data.len() as u32).to_le_bytes());
        v.extend_from_slice(&(e.data.len() as u32).to_le_bytes());
        v.extend_from_slice(&(data_off as u32).to_le_bytes());
        v.extend_from_slice(&(path_off as u32).to_le_bytes());
        v.extend_from_slice(&(e.path.len() as u32).to_le_bytes());
        path_off += e.path.len();
        data_off += e.data.len();
    }
    for e in entries {
        v.extend_from_slice(e.path);
    }
    for e in entries {
        v.extend_from_slice(e.data);
    }
    v
}

#[test]
fn reads_integers_in_both_byte_orders() {
    let b = [0x01u8, 0x02, 0x03, 0x04, 0x05];
    assert_eq!(get_u32(&b, 0, Endian::Little), 0x0403_0201);
    assert_eq!(get_u32(&b, 0, Endian::Big), 0x0102_0304);
    assert_eq!(get_u32(&b, 1, Endian::Big), 0x0203_0405);
    assert_eq!(get_u16(&b, 3, Endian::Little), 0x0504);
    assert_eq!(get_u16(&b, 3, Endian::Big), 0x0405);
}

#[test]
fn parses_container_header_fields() {
    let data = container(b"NONE", 99, &[1, 2, 3]);
    let dcx = Dcx::parse(&data).unwrap();
    assert_eq!(dcx.algorithm, ALGORITHM_NONE);
    assert_eq!(dcx.decompressed_size, 99);
    assert_eq!(dcx.compressed_size, 3);
    assert_eq!(dcx.payload_offset, 20);
}

#[test]
fn container_with_bad_magic_or_short_header_is_malformed() {
    let mut data = container(b"NONE", 3, &[1, 2, 3]);
    assert!(matches!(Dcx::parse(&data[..19]), Err(FormatError::MalformedHeader)));
    data[0] = b'd';
    assert!(matches!(Dcx::parse(&data), Err(FormatError::MalformedHeader)));
    assert_eq!(decompress(&data), Err(FormatError::MalformedHeader));
}

#[test]
fn unsupported_algorithm_is_rejected_before_decoding() {
    let data = container(b"ABCD", 3, &[1, 2, 3]);
    let dcx = Dcx::parse(&data).unwrap();
    assert!(matches!(dcx.create_decoder(), Err(FormatError::UnsupportedAlgorithm)));
    assert_eq!(decompress(&data), Err(FormatError::UnsupportedAlgorithm));
}

#[test]
fn raw_decoder_yields_payload_and_hint() {
    let data = container(b"NONE", 7, &[9, 8, 7]);
    let dcx = Dcx::parse(&data).unwrap();
    let mut decoder = dcx.create_decoder().unwrap();
    assert_eq!(decoder.hint_size(), 7);
    let mut out = vec![0xAAu8];
    assert_eq!(decoder.read_to_end(&mut out), Ok(3));
    assert_eq!(out, vec![0xAA, 9, 8, 7]);
    assert_eq!(decoder.read_to_end(&mut out), Ok(0));
    assert_eq!(out, vec![0xAA, 9, 8, 7]);
}

#[test]
fn truncated_payload_is_a_corrupt_stream() {
    let mut data = container(b"NONE", 3, &[1, 2, 3]);
    data.pop();
    let dcx = Dcx::parse(&data).unwrap();
    let mut decoder = dcx.create_decoder().unwrap();
    let mut out = Vec::new();
    assert_eq!(decoder.read_to_end(&mut out), Err(FormatError::CorruptStream));
    assert!(out.is_empty());
    assert_eq!(decompress(&data), Err(FormatError::CorruptStream));
}

#[test]
fn end_to_end_single_entry_archive() {
    let payload: Vec<u8> = (100u8..120).collect();
    let arc = archive(&[Entry { flags: 0, path: b"N:\\x.dat", data: &payload }]);
    assert_eq!(arc.len(), 64);
    let data = container(b"NONE", 64, &arc);
    let dcx = Dcx::parse(&data).unwrap();
    let mut decoder = dcx.create_decoder().unwrap();
    assert_eq!(decoder.hint_size(), 64);
    let mut decompressed = Vec::with_capacity(decoder.hint_size());
    assert_eq!(decoder.read_to_end(&mut decompressed), Ok(64));
    assert_eq!(decompressed, arc);
    let dir = ArchiveDirectory::from_bytes(&decompressed).unwrap();
    assert_eq!(dir.entries.len(), 1);
    let entry = &dir.entries[0];
    assert_eq!(entry.path, b"N:\\x.dat".to_vec());
    assert_eq!(entry.offset, 44);
    assert_eq!(entry.compressed_size, 20);
    assert_eq!(entry.bytes(&decompressed).unwrap(), payload);
    assert_eq!(entry.bytes(&decompressed).unwrap(), decompressed[44..64].to_vec());
}

#[test]
fn extraction_is_repeatable_for_every_entry() {
    let a: Vec<u8> = vec![1, 2, 3, 4];
    let b: Vec<u8> = vec![];
    let c: Vec<u8> = (0u8..33).collect();
    let arc = archive(&[
        Entry { flags: 0, path: b"N:\\a.dat", data: &a },
        Entry { flags: 0, path: b"N:\\b\\b.dat", data: &b },
        Entry { flags: 0, path: b"N:\\c\\d\\c.dat", data: &c },
    ]);
    let dir = ArchiveDirectory::from_bytes(&arc).unwrap();
    assert_eq!(dir.entries.len(), 3);
    let expected = [&a, &b, &c];
    for (i, entry) in dir.entries.iter().enumerate() {
        let first = entry.bytes(&arc).unwrap();
        let second = entry.bytes(&arc).unwrap();
        assert_eq!(first, second);
        assert_eq!(&first, expected[i]);
    }
    assert_eq!(dir.entries[2].path, b"N:\\c\\d\\c.dat".to_vec());
}

#[test]
fn compressed_entry_is_decoded() {
    let inner = container(b"NONE", 5, &[5, 4, 3, 2, 1]);
    let arc = archive(&[Entry { flags: 1, path: b"N:\\z.bin", data: &inner }]);
    let dir = ArchiveDirectory::from_bytes(&arc).unwrap();
    assert_eq!(dir.entries[0].bytes(&arc).unwrap(), vec![5, 4, 3, 2, 1]);
}

#[test]
fn entry_count_past_buffer_is_truncated_table() {
    let mut buf = vec![0u8; 50];
    buf[..4].copy_from_slice(b"BND4");
    buf[8..12].copy_from_slice(&1000u32.to_le_bytes());
    assert!(matches!(ArchiveDirectory::from_bytes(&buf), Err(FormatError::TruncatedEntryTable)));
}

#[test]
fn archive_with_bad_magic_is_malformed() {
    let arc = archive(&[]);
    assert!(ArchiveDirectory::from_bytes(&arc).is_ok());
    assert!(matches!(ArchiveDirectory::from_bytes(&arc[..11]), Err(FormatError::MalformedHeader)));
    let mut bad = arc.clone();
    bad[3] = b'5';
    assert!(matches!(ArchiveDirectory::from_bytes(&bad), Err(FormatError::MalformedHeader)));
}

#[test]
fn entry_range_past_buffer_is_invalid() {
    let data: Vec<u8> = vec![1, 2, 3];
    let mut arc = archive(&[Entry { flags: 0, path: b"N:\\a", data: &data }]);
    arc.pop();
    assert!(matches!(ArchiveDirectory::from_bytes(&arc), Err(FormatError::InvalidEntryRange)));
}

#[test]
fn extracting_from_a_short_buffer_is_invalid() {
    let entry = ArchiveEntry {
        path: b"N:\\a".to_vec(),
        flags: 0,
        compressed_size: 4,
        uncompressed_size: 4,
        offset: 2,
    };
    assert_eq!(entry.bytes(&[0u8; 5]), Err(FormatError::InvalidEntryRange));
    assert_eq!(entry.bytes(&[0u8, 1, 2, 3, 4, 5]), Ok(vec![2, 3, 4, 5]));
}
