//! The values at the boundary with the engine: replies and how they are read,
//! encoded text, option sets, directory entries.

use stormlib::path::{
    contains_nul, contains_zero, to_c_string, to_narrow_path, to_wide_c_string, to_wide_path,
};
use stormlib::{
    Callback, CompressionFlags, CreateArchiveFlags, CreateFileFlags, DirectoryEntry, ErrorCode,
    Handle, HostPath, OpenArchiveFlags, Reply, StormError, ERROR_FILE_NOT_FOUND,
    SFILE_INVALID_SIZE,
};

fn failure(code: u32) -> StormError {
    StormError::EngineError(ErrorCode(code))
}

#[test]
fn a_reply_starts_empty() {
    let reply = Reply::default();
    assert!(!reply.success);
    assert_eq!(reply.last_error, 0);
    assert!(reply.handle.is_null());
    assert_eq!((reply.low, reply.high, reply.count), (0, 0, 0));
    assert!(reply.data.is_empty());
    assert_eq!(reply.entry, DirectoryEntry::default());
    assert!(reply.entry.file_name.is_empty());
}

#[test]
fn status_of_a_reply() {
    assert_eq!(Reply { success: true, last_error: 7, ..Reply::default() }.status(), Ok(()));
    assert_eq!(Reply { success: false, last_error: 7, ..Reply::default() }.status(), Err(failure(7)));
    assert_eq!(Reply::default().status(), Err(failure(0)));
}

#[test]
fn probe_of_a_reply() {
    assert_eq!(Reply { success: true, ..Reply::default() }.probe(), Ok(true));
    assert_eq!(
        Reply { success: true, last_error: ERROR_FILE_NOT_FOUND, ..Reply::default() }.probe(),
        Ok(true)
    );
    assert_eq!(Reply { last_error: ERROR_FILE_NOT_FOUND, ..Reply::default() }.probe(), Ok(false));
    assert_eq!(Reply { last_error: 2, ..Reply::default() }.probe(), Ok(false));
    assert_eq!(Reply { last_error: 3, ..Reply::default() }.probe(), Err(failure(3)));
    assert_eq!(Reply { last_error: 0, ..Reply::default() }.probe(), Err(failure(0)));
}

#[test]
fn handle_of_a_reply() {
    let handle = Handle { addr: 0x7F00 };
    assert_eq!(Reply { success: true, handle, ..Reply::default() }.opened(), Ok(handle));
    assert_eq!(
        Reply { success: false, handle, last_error: 2, ..Reply::default() }.opened(),
        Err(failure(2))
    );
    // the engine's word counts, not the handle
    assert_eq!(Reply { success: true, ..Reply::default() }.opened(), Ok(Handle::null()));
}

#[test]
fn size_of_a_reply() {
    assert_eq!(Reply { low: 14115, ..Reply::default() }.size(), Ok(14115));
    assert_eq!(Reply { low: 2, high: 1, ..Reply::default() }.size(), Ok(4_294_967_298));
    assert_eq!(Reply { low: 0, high: 0, ..Reply::default() }.size(), Ok(0));
    assert_eq!(
        Reply { low: 0xFFFF_FFFE, high: 0xFFFF_FFFF, ..Reply::default() }.size(),
        Ok(u64::MAX - 1)
    );
    assert_eq!(
        Reply { low: SFILE_INVALID_SIZE, high: 0, last_error: 6, ..Reply::default() }.size(),
        Err(failure(6))
    );
    // success is not what a size query goes by
    assert_eq!(Reply { success: false, low: 9, ..Reply::default() }.size(), Ok(9));
    assert_eq!(
        Reply { success: true, low: 0xFFFF_FFFF, high: 1, last_error: 1, ..Reply::default() }.size(),
        Err(failure(1))
    );
}

#[test]
fn position_of_a_reply() {
    assert_eq!(Reply { low: 0, ..Reply::default() }.moved(), Ok(()));
    assert_eq!(
        Reply { low: SFILE_INVALID_SIZE, last_error: 131, ..Reply::default() }.moved(),
        Err(failure(131))
    );
}

#[test]
fn bytes_of_a_reply() {
    let full = Reply { success: true, data: vec![1, 2, 3, 4], count: 4, ..Reply::default() };
    assert_eq!(full.clone().bytes(4), Ok(vec![1, 2, 3, 4]));
    // fewer bytes read than the size: cut to what was read
    let short = Reply { success: true, data: vec![1, 2, 0, 0], count: 2, ..Reply::default() };
    assert_eq!(short.clone().bytes(4), Ok(vec![1, 2]));
    assert_eq!(short.clone().bytes(3), Ok(vec![1, 2]));
    // as many as the size, or more: the buffer as it is
    assert_eq!(short.clone().bytes(2), Ok(vec![1, 2, 0, 0]));
    assert_eq!(short.bytes(1), Ok(vec![1, 2, 0, 0]));
    // a count beyond the buffer cuts nothing
    let beyond = Reply { success: true, data: vec![5, 6], count: 9, ..Reply::default() };
    assert_eq!(beyond.bytes(100), Ok(vec![5, 6]));
    let none = Reply { success: true, data: vec![5, 6], count: 0, ..Reply::default() };
    assert_eq!(none.bytes(2), Ok(vec![]));
    let failed = Reply { success: false, data: vec![1], count: 1, last_error: 38, ..Reply::default() };
    assert_eq!(failed.bytes(1), Err(failure(38)));
}

#[test]
fn entries_of_a_reply() {
    let entry = DirectoryEntry { file_name: b"a.txt\0\0".to_vec(), file_size: 3, ..DirectoryEntry::default() };
    let handle = Handle { addr: 8 };
    let found = Reply { handle, entry: entry.clone(), ..Reply::default() };
    assert_eq!(found.clone().first(), Some((handle, entry.clone())));
    // an enumeration step goes by the engine's word, its start by the handle
    assert_eq!(found.next(), None);
    let stepped = Reply { success: true, entry: entry.clone(), ..Reply::default() };
    assert_eq!(stepped.clone().next(), Some(entry));
    assert_eq!(stepped.first(), None);
}

#[test]
fn narrow_text() {
    assert_eq!(to_c_string("abc"), Ok(vec![0x61, 0x62, 0x63, 0]));
    assert_eq!(to_c_string(""), Ok(vec![0]));
    assert_eq!(to_c_string("é"), Ok(vec![0xC3, 0xA9, 0]));
    assert_eq!(to_c_string("中文"), Ok(vec![0xE4, 0xB8, 0xAD, 0xE6, 0x96, 0x87, 0]));
    assert_eq!(to_c_string("\u{1F600}"), Ok(vec![0xF0, 0x9F, 0x98, 0x80, 0]));
    assert_eq!(to_c_string("war3map.j").unwrap().len(), 10);
    assert_eq!(to_c_string("a\0b"), Err(StormError::InvalidPath));
    assert_eq!(to_c_string("\0"), Err(StormError::InvalidPath));
    assert_eq!(to_c_string("ab\0"), Err(StormError::InvalidPath));
}

fn units(text: &str) -> Vec<u16> {
    text.encode_utf16().collect()
}

#[test]
fn wide_text() {
    assert_eq!(to_wide_c_string(&units("abc")), Ok(vec![0x61, 0x62, 0x63, 0]));
    assert_eq!(to_wide_c_string(&[]), Ok(vec![0]));
    assert_eq!(to_wide_c_string(&units("中文")), Ok(vec![0x4E2D, 0x6587, 0]));
    assert_eq!(to_wide_c_string(&units("\u{1F600}")), Ok(vec![0xD83D, 0xDE00, 0]));
    // units that are no text are handed on as they are
    assert_eq!(to_wide_c_string(&[0xD800, 0x41, 0xFFFF]), Ok(vec![0xD800, 0x41, 0xFFFF, 0]));
    assert_eq!(to_wide_c_string(&[0x61, 0, 0x62]), Err(StormError::InvalidPath));
    assert_eq!(to_wide_c_string(&[0]), Err(StormError::InvalidPath));
    assert_eq!(to_wide_c_string(&[0, 0x61]), Err(StormError::InvalidPath));
    // a zero at the end is refused like one inside
    assert_eq!(to_wide_c_string(&[0x61, 0x62, 0]), Err(StormError::InvalidPath));
}

#[test]
fn units_with_a_zero() {
    assert!(!contains_zero(&[]));
    assert!(!contains_zero(&[1, 0xFFFF, 0x100]));
    assert!(contains_zero(&[0]));
    assert!(contains_zero(&[5, 0]));
    assert!(contains_zero(&[0, 5]));
    assert!(contains_zero(&[5, 0, 5]));
}

#[test]
fn paths_of_the_host() {
    assert_eq!(to_narrow_path("a.mpq"), Ok(HostPath::Narrow(b"a.mpq\0".to_vec())));
    assert_eq!(to_narrow_path("a\0"), Err(StormError::InvalidPath));
    assert_eq!(to_wide_path(&units("a.mpq")), Ok(HostPath::Wide(vec![0x61, 0x2E, 0x6D, 0x70, 0x71, 0])));
    assert_eq!(to_wide_path(&[0x61, 0]), Err(StormError::InvalidPath));
}

#[test]
fn text_with_a_zero() {
    assert!(!contains_nul(""));
    assert!(!contains_nul("plain \u{1F600} text"));
    assert!(contains_nul("\0"));
    assert!(contains_nul("start\0"));
    assert!(contains_nul("\0end"));
    // a byte of a longer character is never a zero
    assert!(!contains_nul("\u{80}\u{800}\u{10000}\u{100}"));
}

#[test]
fn names_of_option_bits() {
    assert_eq!(OpenArchiveFlags::STREAM_PROVIDER_FLAT, 0);
    assert_eq!(OpenArchiveFlags::STREAM_PROVIDER_PARTIAL, 0x10);
    assert_eq!(OpenArchiveFlags::STREAM_PROVIDER_MPQE, 0x20);
    assert_eq!(OpenArchiveFlags::STREAM_PROVIDER_BLOCK4, 0x30);
    assert_eq!(OpenArchiveFlags::BASE_PROVIDER_FILE, 0);
    assert_eq!(OpenArchiveFlags::BASE_PROVIDER_MAP, 1);
    assert_eq!(OpenArchiveFlags::BASE_PROVIDER_HTTP, 2);
    assert_eq!(OpenArchiveFlags::STREAM_FLAG_READ_ONLY, 0x100);
    assert_eq!(OpenArchiveFlags::STREAM_FLAG_WRITE_SHARE, 0x200);
    assert_eq!(OpenArchiveFlags::STREAM_FLAG_USE_BITMAP, 0x400);
    assert_eq!(OpenArchiveFlags::MPQ_OPEN_NO_LISTFILE, 0x10000);
    assert_eq!(OpenArchiveFlags::MPQ_OPEN_NO_ATTRIBUTES, 0x20000);
    assert_eq!(OpenArchiveFlags::MPQ_OPEN_NO_HEADER_SEARCH, 0x40000);
    assert_eq!(OpenArchiveFlags::MPQ_OPEN_FORCE_MPQ_V1, 0x80000);
    assert_eq!(OpenArchiveFlags::MPQ_OPEN_CHECK_SECTOR_CRC, 0x100000);

    assert_eq!(CreateArchiveFlags::MPQ_CREATE_LISTFILE, 0x0010_0000);
    assert_eq!(CreateArchiveFlags::MPQ_CREATE_ATTRIBUTES, 0x0020_0000);
    assert_eq!(CreateArchiveFlags::MPQ_CREATE_SIGNATURE, 0x0040_0000);
    assert_eq!(CreateArchiveFlags::MPQ_CREATE_ARCHIVE_V1, 0);
    assert_eq!(CreateArchiveFlags::MPQ_CREATE_ARCHIVE_V2, 0x0100_0000);
    assert_eq!(CreateArchiveFlags::MPQ_CREATE_ARCHIVE_V3, 0x0200_0000);
    assert_eq!(CreateArchiveFlags::MPQ_CREATE_ARCHIVE_V4, 0x0300_0000);

    assert_eq!(CreateFileFlags::MPQ_FILE_IMPLODE, 0x100);
    assert_eq!(CreateFileFlags::MPQ_FILE_COMPRESS, 0x200);
    assert_eq!(CreateFileFlags::MPQ_FILE_ENCRYPTED, 0x10000);
    assert_eq!(CreateFileFlags::MPQ_FILE_FIX_KEY, 0x20000);
    assert_eq!(CreateFileFlags::MPQ_FILE_DELETE_MARKER, 0x0200_0000);
    assert_eq!(CreateFileFlags::MPQ_FILE_SECTOR_CRC, 0x0400_0000);
    assert_eq!(CreateFileFlags::MPQ_FILE_SINGLE_UNIT, 0x0100_0000);
    assert_eq!(CreateFileFlags::MPQ_FILE_REPLACEEXISTING, 0x8000_0000);

    assert_eq!(CompressionFlags::MPQ_COMPRESSION_HUFFMANN, 0x01);
    assert_eq!(CompressionFlags::MPQ_COMPRESSION_ZLIB, 0x02);
    assert_eq!(CompressionFlags::MPQ_COMPRESSION_PKWARE, 0x08);
    assert_eq!(CompressionFlags::MPQ_COMPRESSION_BZIP2, 0x10);
    assert_eq!(CompressionFlags::MPQ_COMPRESSION_SPARSE, 0x20);
    assert_eq!(CompressionFlags::MPQ_COMPRESSION_ADPCM_MONO, 0x40);
    assert_eq!(CompressionFlags::MPQ_COMPRESSION_ADPCM_STEREO, 0x80);
    assert_eq!(CompressionFlags::MPQ_COMPRESSION_LZMA, 0x12);
}

#[test]
fn every_named_bit_is_a_set_of_its_own_type() {
    let open: [(OpenArchiveFlags, u32); 15] = [
        (OpenArchiveFlags::stream_provider_flat(), OpenArchiveFlags::STREAM_PROVIDER_FLAT),
        (OpenArchiveFlags::stream_provider_partial(), OpenArchiveFlags::STREAM_PROVIDER_PARTIAL),
        (OpenArchiveFlags::stream_provider_mpqe(), OpenArchiveFlags::STREAM_PROVIDER_MPQE),
        (OpenArchiveFlags::stream_provider_block4(), OpenArchiveFlags::STREAM_PROVIDER_BLOCK4),
        (OpenArchiveFlags::base_provider_file(), OpenArchiveFlags::BASE_PROVIDER_FILE),
        (OpenArchiveFlags::base_provider_map(), OpenArchiveFlags::BASE_PROVIDER_MAP),
        (OpenArchiveFlags::base_provider_http(), OpenArchiveFlags::BASE_PROVIDER_HTTP),
        (OpenArchiveFlags::stream_flag_read_only(), OpenArchiveFlags::STREAM_FLAG_READ_ONLY),
        (OpenArchiveFlags::stream_flag_write_share(), OpenArchiveFlags::STREAM_FLAG_WRITE_SHARE),
        (OpenArchiveFlags::stream_flag_use_bitmap(), OpenArchiveFlags::STREAM_FLAG_USE_BITMAP),
        (OpenArchiveFlags::mpq_open_no_listfile(), OpenArchiveFlags::MPQ_OPEN_NO_LISTFILE),
        (OpenArchiveFlags::mpq_open_no_attributes(), OpenArchiveFlags::MPQ_OPEN_NO_ATTRIBUTES),
        (OpenArchiveFlags::mpq_open_no_header_search(), OpenArchiveFlags::MPQ_OPEN_NO_HEADER_SEARCH),
        (OpenArchiveFlags::mpq_open_force_mpq_v1(), OpenArchiveFlags::MPQ_OPEN_FORCE_MPQ_V1),
        (OpenArchiveFlags::mpq_open_check_sector_crc(), OpenArchiveFlags::MPQ_OPEN_CHECK_SECTOR_CRC),
    ];
    for (flags, bits) in open {
        assert_eq!(flags.bits(), bits);
    }
    let create: [(CreateArchiveFlags, u32); 7] = [
        (CreateArchiveFlags::mpq_create_listfile(), CreateArchiveFlags::MPQ_CREATE_LISTFILE),
        (CreateArchiveFlags::mpq_create_attributes(), CreateArchiveFlags::MPQ_CREATE_ATTRIBUTES),
        (CreateArchiveFlags::mpq_create_signature(), CreateArchiveFlags::MPQ_CREATE_SIGNATURE),
        (CreateArchiveFlags::mpq_create_archive_v1(), CreateArchiveFlags::MPQ_CREATE_ARCHIVE_V1),
        (CreateArchiveFlags::mpq_create_archive_v2(), CreateArchiveFlags::MPQ_CREATE_ARCHIVE_V2),
        (CreateArchiveFlags::mpq_create_archive_v3(), CreateArchiveFlags::MPQ_CREATE_ARCHIVE_V3),
        (CreateArchiveFlags::mpq_create_archive_v4(), CreateArchiveFlags::MPQ_CREATE_ARCHIVE_V4),
    ];
    for (flags, bits) in create {
        assert_eq!(flags.bits(), bits);
    }
    let file: [(CreateFileFlags, u32); 8] = [
        (CreateFileFlags::mpq_file_implode(), CreateFileFlags::MPQ_FILE_IMPLODE),
        (CreateFileFlags::mpq_file_compress(), CreateFileFlags::MPQ_FILE_COMPRESS),
        (CreateFileFlags::mpq_file_encrypted(), CreateFileFlags::MPQ_FILE_ENCRYPTED),
        (CreateFileFlags::mpq_file_fix_key(), CreateFileFlags::MPQ_FILE_FIX_KEY),
        (CreateFileFlags::mpq_file_delete_marker(), CreateFileFlags::MPQ_FILE_DELETE_MARKER),
        (CreateFileFlags::mpq_file_sector_crc(), CreateFileFlags::MPQ_FILE_SECTOR_CRC),
        (CreateFileFlags::mpq_file_single_unit(), CreateFileFlags::MPQ_FILE_SINGLE_UNIT),
        (CreateFileFlags::mpq_file_replaceexisting(), CreateFileFlags::MPQ_FILE_REPLACEEXISTING),
    ];
    for (flags, bits) in file {
        assert_eq!(flags.bits(), bits);
    }
    let compression: [(CompressionFlags, u32); 8] = [
        (CompressionFlags::mpq_compression_huffmann(), CompressionFlags::MPQ_COMPRESSION_HUFFMANN),
        (CompressionFlags::mpq_compression_zlib(), CompressionFlags::MPQ_COMPRESSION_ZLIB),
        (CompressionFlags::mpq_compression_pkware(), CompressionFlags::MPQ_COMPRESSION_PKWARE),
        (CompressionFlags::mpq_compression_bzip2(), CompressionFlags::MPQ_COMPRESSION_BZIP2),
        (CompressionFlags::mpq_compression_sparse(), CompressionFlags::MPQ_COMPRESSION_SPARSE),
        (CompressionFlags::mpq_compression_adpcm_mono(), CompressionFlags::MPQ_COMPRESSION_ADPCM_MONO),
        (
            CompressionFlags::mpq_compression_adpcm_stereo(),
            CompressionFlags::MPQ_COMPRESSION_ADPCM_STEREO,
        ),
        (CompressionFlags::mpq_compression_lzma(), CompressionFlags::MPQ_COMPRESSION_LZMA),
    ];
    for (flags, bits) in compression {
        assert_eq!(flags.bits(), bits);
    }
    assert_eq!(
        (OpenArchiveFlags::mpq_open_no_listfile() | OpenArchiveFlags::mpq_open_no_attributes()).bits(),
        0x0003_0000
    );
    assert_eq!(
        (CreateFileFlags::mpq_file_compress() | CreateFileFlags::mpq_file_encrypted()).bits(),
        0x0001_0200
    );
}

#[test]
fn option_sets_are_put_together_bit_by_bit() {
    let no_listfile = OpenArchiveFlags::from_bits_retain(OpenArchiveFlags::MPQ_OPEN_NO_LISTFILE);
    let no_attributes = OpenArchiveFlags::from_bits_retain(OpenArchiveFlags::MPQ_OPEN_NO_ATTRIBUTES);
    let read_only = OpenArchiveFlags::from_bits_retain(OpenArchiveFlags::STREAM_FLAG_READ_ONLY);
    let both = no_listfile | no_attributes;
    assert_eq!(both.bits(), 0x0003_0000);
    assert_eq!(both, no_listfile.union(no_attributes));
    assert_eq!(both, no_attributes | no_listfile);
    assert_eq!((no_listfile | no_attributes) | read_only, no_listfile | (no_attributes | read_only));
    assert_eq!(((no_listfile | no_attributes) | read_only).bits(), 0x0003_0100);
    assert_eq!(both | both, both);
    assert_eq!(both | OpenArchiveFlags::empty(), both);
    assert!(both.contains(no_listfile));
    assert!(both.contains(no_attributes));
    assert!(both.contains(both));
    assert!(both.contains(OpenArchiveFlags::empty()));
    assert!(!both.contains(read_only));
    assert!(!no_listfile.contains(both));
    assert_eq!(OpenArchiveFlags::empty().bits(), 0);
}

#[test]
fn no_combination_of_bits_is_refused() {
    // conflicting and unknown bits are for the engine to judge
    let conflicting = CreateFileFlags::from_bits_retain(CreateFileFlags::MPQ_FILE_IMPLODE)
        | CreateFileFlags::from_bits_retain(CreateFileFlags::MPQ_FILE_COMPRESS);
    assert_eq!(conflicting.bits(), 0x300);
    assert_eq!(CompressionFlags::from_bits_retain(0xFFFF_FFFF).bits(), 0xFFFF_FFFF);
    let lzma = CompressionFlags::from_bits_retain(CompressionFlags::MPQ_COMPRESSION_LZMA);
    let zlib = CompressionFlags::from_bits_retain(CompressionFlags::MPQ_COMPRESSION_ZLIB);
    assert!(lzma.contains(zlib));
    assert_eq!(lzma.union(zlib), lzma);
    let v3 = CreateArchiveFlags::from_bits_retain(CreateArchiveFlags::MPQ_CREATE_ARCHIVE_V3);
    let listfile = CreateArchiveFlags::from_bits_retain(CreateArchiveFlags::MPQ_CREATE_LISTFILE);
    assert_eq!((v3 | listfile).bits(), 0x0210_0000);
    assert_eq!(v3.union(listfile).union(CreateArchiveFlags::empty()), listfile | v3);
    assert!(CreateArchiveFlags::empty().contains(CreateArchiveFlags::empty()));
    assert_eq!(CreateArchiveFlags::empty().bits(), 0);
    assert_eq!(CreateFileFlags::empty().bits(), 0);
    assert_eq!(CompressionFlags::empty().bits(), 0);
    assert_eq!(
        (CompressionFlags::from_bits_retain(0x40) | CompressionFlags::from_bits_retain(0x01)).bits(),
        0x41
    );
}

#[test]
fn name_of_an_entry() {
    let mut buffer = b"war3map.j".to_vec();
    buffer.resize(260, 0);
    let entry = DirectoryEntry { file_name: buffer, ..DirectoryEntry::default() };
    assert_eq!(entry.name(), b"war3map.j".to_vec());

    let unterminated = DirectoryEntry { file_name: b"abc".to_vec(), ..DirectoryEntry::default() };
    assert_eq!(unterminated.name(), b"abc".to_vec());

    let cut = DirectoryEntry { file_name: b"ab\0cd\0".to_vec(), ..DirectoryEntry::default() };
    assert_eq!(cut.name(), b"ab".to_vec());

    let nameless = DirectoryEntry { file_name: b"\0abc".to_vec(), ..DirectoryEntry::default() };
    assert_eq!(nameless.name(), Vec::<u8>::new());
    assert_eq!(DirectoryEntry::default().name(), Vec::<u8>::new());
}

#[test]
fn null_values() {
    assert!(Handle::null().is_null());
    assert_eq!(Handle::null(), Handle { addr: 0 });
    assert!(!Handle { addr: 1 }.is_null());
    assert_eq!(Callback::none(), Callback { addr: 0 });
}

#[test]
fn error_codes() {
    assert_eq!(ERROR_FILE_NOT_FOUND, 2);
    assert_eq!(SFILE_INVALID_SIZE, 0xFFFF_FFFF);
    assert_eq!(ErrorCode(5).0, 5);
    assert!(ErrorCode(2).is_not_found());
    assert!(!ErrorCode(5).is_not_found());
    assert_eq!(StormError::from(ErrorCode(5)), StormError::EngineError(ErrorCode(5)));
    assert_ne!(StormError::InvalidPath, StormError::EngineError(ErrorCode(0)));
    assert_ne!(StormError::TooLarge, StormError::InvalidPath);
    assert_ne!(StormError::TooLarge, StormError::EngineError(ErrorCode(0)));
    assert_ne!(StormError::EngineError(ErrorCode(1)), StormError::EngineError(ErrorCode(2)));
}
