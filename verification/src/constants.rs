//! The option sets of the engine: how an archive is opened, how one is
//! created, how a file is stored and how it is compressed. Each is a set of
//! named bits, and the four do not mix: every named bit has a function that
//! gives it as a set of its own type, and sets are put together with `|`.
//! Which combinations are legal is for the engine to say: none is refused
//! here.

use vstd::prelude::*;
use vstd::std_specs::ops::BitOrSpecImpl;

verus! {

/// How an archive is opened: where its bytes come from, how the stream is
/// read, and what is loaded of it.
#[derive(Clone, Copy, PartialEq, Eq, Structural, Debug)]
pub struct OpenArchiveFlags {
    pub bits: u32,
}

impl OpenArchiveFlags {
    /// The archive is a plain linear file. This is the default.
    pub const STREAM_PROVIDER_FLAT: u32 = 0x0000_0000;

    /// The archive is stored in a partial file.
    pub const STREAM_PROVIDER_PARTIAL: u32 = 0x0000_0010;

    /// The archive is encrypted.
    pub const STREAM_PROVIDER_MPQE: u32 = 0x0000_0020;

    /// The archive is divided into blocks and files, each block followed by
    /// its MD5 hash.
    pub const STREAM_PROVIDER_BLOCK4: u32 = 0x0000_0030;

    /// The archive is in a local file. This is the default.
    pub const BASE_PROVIDER_FILE: u32 = 0x0000_0000;

    /// The archive is in a local file that is mapped into memory.
    pub const BASE_PROVIDER_MAP: u32 = 0x0000_0001;

    /// The archive is on a web server.
    pub const BASE_PROVIDER_HTTP: u32 = 0x0000_0002;

    /// The archive is opened for reading only.
    pub const STREAM_FLAG_READ_ONLY: u32 = 0x0000_0100;

    /// The archive is opened for writing and others may write to it too. Two
    /// writers at once corrupt the archive.
    pub const STREAM_FLAG_WRITE_SHARE: u32 = 0x0000_0200;

    /// The file bitmap of the archive is respected.
    pub const STREAM_FLAG_USE_BITMAP: u32 = 0x0000_0400;

    /// The internal listfile is not read.
    pub const MPQ_OPEN_NO_LISTFILE: u32 = 0x0001_0000;

    /// The attributes file is not opened.
    pub const MPQ_OPEN_NO_ATTRIBUTES: u32 = 0x0002_0000;

    /// The header is not searched for past the start of the file.
    pub const MPQ_OPEN_NO_HEADER_SEARCH: u32 = 0x0004_0000;

    /// The archive is opened as format 1.0, whatever its header says.
    pub const MPQ_OPEN_FORCE_MPQ_V1: u32 = 0x0008_0000;

    /// The checksum of each sector is checked on reading.
    pub const MPQ_OPEN_CHECK_SECTOR_CRC: u32 = 0x0010_0000;

    /// The set of the one option `STREAM_PROVIDER_FLAT`.
    pub fn stream_provider_flat() -> (flags: Self)
        ensures
            flags.bits == OpenArchiveFlags::STREAM_PROVIDER_FLAT,
    {
        OpenArchiveFlags { bits: OpenArchiveFlags::STREAM_PROVIDER_FLAT }
    }

    /// The set of the one option `STREAM_PROVIDER_PARTIAL`.
    pub fn stream_provider_partial() -> (flags: Self)
        ensures
            flags.bits == OpenArchiveFlags::STREAM_PROVIDER_PARTIAL,
    {
        OpenArchiveFlags { bits: OpenArchiveFlags::STREAM_PROVIDER_PARTIAL }
    }

    /// The set of the one option `STREAM_PROVIDER_MPQE`.
    pub fn stream_provider_mpqe() -> (flags: Self)
        ensures
            flags.bits == OpenArchiveFlags::STREAM_PROVIDER_MPQE,
    {
        OpenArchiveFlags { bits: OpenArchiveFlags::STREAM_PROVIDER_MPQE }
    }

    /// The set of the one option `STREAM_PROVIDER_BLOCK4`.
    pub fn stream_provider_block4() -> (flags: Self)
        ensures
            flags.bits == OpenArchiveFlags::STREAM_PROVIDER_BLOCK4,
    {
        OpenArchiveFlags { bits: OpenArchiveFlags::STREAM_PROVIDER_BLOCK4 }
    }

    /// The set of the one option `BASE_PROVIDER_FILE`.
    pub fn base_provider_file() -> (flags: Self)
        ensures
            flags.bits == OpenArchiveFlags::BASE_PROVIDER_FILE,
    {
        OpenArchiveFlags { bits: OpenArchiveFlags::BASE_PROVIDER_FILE }
    }

    /// The set of the one option `BASE_PROVIDER_MAP`.
    pub fn base_provider_map() -> (flags: Self)
        ensures
            flags.bits == OpenArchiveFlags::BASE_PROVIDER_MAP,
    {
        OpenArchiveFlags { bits: OpenArchiveFlags::BASE_PROVIDER_MAP }
    }

    /// The set of the one option `BASE_PROVIDER_HTTP`.
    pub fn base_provider_http() -> (flags: Self)
        ensures
            flags.bits == OpenArchiveFlags::BASE_PROVIDER_HTTP,
    {
        OpenArchiveFlags { bits: OpenArchiveFlags::BASE_PROVIDER_HTTP }
    }

    /// The set of the one option `STREAM_FLAG_READ_ONLY`.
    pub fn stream_flag_read_only() -> (flags: Self)
        ensures
            flags.bits == OpenArchiveFlags::STREAM_FLAG_READ_ONLY,
    {
        OpenArchiveFlags { bits: OpenArchiveFlags::STREAM_FLAG_READ_ONLY }
    }

    /// The set of the one option `STREAM_FLAG_WRITE_SHARE`.
    pub fn stream_flag_write_share() -> (flags: Self)
        ensures
            flags.bits == OpenArchiveFlags::STREAM_FLAG_WRITE_SHARE,
    {
        OpenArchiveFlags { bits: OpenArchiveFlags::STREAM_FLAG_WRITE_SHARE }
    }

    /// The set of the one option `STREAM_FLAG_USE_BITMAP`.
    pub fn stream_flag_use_bitmap() -> (flags: Self)
        ensures
            flags.bits == OpenArchiveFlags::STREAM_FLAG_USE_BITMAP,
    {
        OpenArchiveFlags { bits: OpenArchiveFlags::STREAM_FLAG_USE_BITMAP }
    }

    /// The set of the one option `MPQ_OPEN_NO_LISTFILE`.
    pub fn mpq_open_no_listfile() -> (flags: Self)
        ensures
            flags.bits == OpenArchiveFlags::MPQ_OPEN_NO_LISTFILE,
    {
        OpenArchiveFlags { bits: OpenArchiveFlags::MPQ_OPEN_NO_LISTFILE }
    }

    /// The set of the one option `MPQ_OPEN_NO_ATTRIBUTES`.
    pub fn mpq_open_no_attributes() -> (flags: Self)
        ensures
            flags.bits == OpenArchiveFlags::MPQ_OPEN_NO_ATTRIBUTES,
    {
        OpenArchiveFlags { bits: OpenArchiveFlags::MPQ_OPEN_NO_ATTRIBUTES }
    }

    /// The set of the one option `MPQ_OPEN_NO_HEADER_SEARCH`.
    pub fn mpq_open_no_header_search() -> (flags: Self)
        ensures
            flags.bits == OpenArchiveFlags::MPQ_OPEN_NO_HEADER_SEARCH,
    {
        OpenArchiveFlags { bits: OpenArchiveFlags::MPQ_OPEN_NO_HEADER_SEARCH }
    }

    /// The set of the one option `MPQ_OPEN_FORCE_MPQ_V1`.
    pub fn mpq_open_force_mpq_v1() -> (flags: Self)
        ensures
            flags.bits == OpenArchiveFlags::MPQ_OPEN_FORCE_MPQ_V1,
    {
        OpenArchiveFlags { bits: OpenArchiveFlags::MPQ_OPEN_FORCE_MPQ_V1 }
    }

    /// The set of the one option `MPQ_OPEN_CHECK_SECTOR_CRC`.
    pub fn mpq_open_check_sector_crc() -> (flags: Self)
        ensures
            flags.bits == OpenArchiveFlags::MPQ_OPEN_CHECK_SECTOR_CRC,
    {
        OpenArchiveFlags { bits: OpenArchiveFlags::MPQ_OPEN_CHECK_SECTOR_CRC }
    }

    /// The set with no bit.
    pub fn empty() -> (flags: Self)
        ensures
            flags.bits == 0,
    {
        OpenArchiveFlags { bits: 0 }
    }

    /// The set with exactly these bits. No bit is refused.
    pub fn from_bits_retain(bits: u32) -> (flags: Self)
        ensures
            flags.bits == bits,
    {
        OpenArchiveFlags { bits }
    }

    /// The bits of the set.
    pub fn bits(&self) -> (bits: u32)
        ensures
            bits == self.bits,
    {
        self.bits
    }

    /// The set with the bits of both.
    pub open spec fn spec_union(self, other: Self) -> Self {
        OpenArchiveFlags { bits: self.bits | other.bits }
    }

    /// The set with the bits of both.
    #[verifier::when_used_as_spec(spec_union)]
    pub fn union(self, other: Self) -> (flags: Self)
        ensures
            flags == self.spec_union(other),
    {
        OpenArchiveFlags { bits: self.bits | other.bits }
    }

    /// Whether every bit of `other` is in the set.
    pub open spec fn spec_contains(&self, other: Self) -> bool {
        self.bits & other.bits == other.bits
    }

    /// Whether every bit of `other` is in the set.
    #[verifier::when_used_as_spec(spec_contains)]
    pub fn contains(&self, other: Self) -> (b: bool)
        ensures
            b == self.spec_contains(other),
    {
        self.bits & other.bits == other.bits
    }

    /// Putting sets together does not depend on their order.
    pub proof fn union_commutes(a: Self, b: Self)
        ensures
            a.union(b) == b.union(a),
    {
        let x = a.bits;
        let y = b.bits;
        assert(x | y == y | x) by (bit_vector);
    }

    /// Putting sets together does not depend on how they are grouped.
    pub proof fn union_associates(a: Self, b: Self, c: Self)
        ensures
            a.union(b).union(c) == a.union(b.union(c)),
    {
        let x = a.bits;
        let y = b.bits;
        let z = c.bits;
        assert((x | y) | z == x | (y | z)) by (bit_vector);
    }

    /// A set put together from two holds both.
    pub proof fn union_contains(a: Self, b: Self)
        ensures
            a.union(b).contains(a),
            a.union(b).contains(b),
    {
        let x = a.bits;
        let y = b.bits;
        assert((x | y) & x == x) by (bit_vector);
        assert((x | y) & y == y) by (bit_vector);
    }
}

impl core::ops::BitOr for OpenArchiveFlags {
    type Output = OpenArchiveFlags;

    fn bitor(self, other: OpenArchiveFlags) -> (flags: OpenArchiveFlags) {
        OpenArchiveFlags { bits: self.bits | other.bits }
    }
}

impl BitOrSpecImpl for OpenArchiveFlags {
    open spec fn obeys_bitor_spec() -> bool {
        true
    }

    open spec fn bitor_req(self, other: OpenArchiveFlags) -> bool {
        true
    }

    open spec fn bitor_spec(self, other: OpenArchiveFlags) -> OpenArchiveFlags {
        self.spec_union(other)
    }
}

/// How an archive is created: which internal files it gets and which
/// format it has.
#[derive(Clone, Copy, PartialEq, Eq, Structural, Debug)]
pub struct CreateArchiveFlags {
    pub bits: u32,
}

impl CreateArchiveFlags {
    /// The new archive has a listfile.
    pub const MPQ_CREATE_LISTFILE: u32 = 0x0010_0000;

    /// The new archive has an attributes file.
    pub const MPQ_CREATE_ATTRIBUTES: u32 = 0x0020_0000;

    /// The new archive is signed with a weak digital signature.
    pub const MPQ_CREATE_SIGNATURE: u32 = 0x0040_0000;

    /// The archive has format 1.0 (up to 4 GB). This is the default.
    pub const MPQ_CREATE_ARCHIVE_V1: u32 = 0x0000_0000;

    /// The archive has format 2.0.
    pub const MPQ_CREATE_ARCHIVE_V2: u32 = 0x0100_0000;

    /// The archive has format 3.0.
    pub const MPQ_CREATE_ARCHIVE_V3: u32 = 0x0200_0000;

    /// The archive has format 4.0.
    pub const MPQ_CREATE_ARCHIVE_V4: u32 = 0x0300_0000;

    /// The set of the one option `MPQ_CREATE_LISTFILE`.
    pub fn mpq_create_listfile() -> (flags: Self)
        ensures
            flags.bits == CreateArchiveFlags::MPQ_CREATE_LISTFILE,
    {
        CreateArchiveFlags { bits: CreateArchiveFlags::MPQ_CREATE_LISTFILE }
    }

    /// The set of the one option `MPQ_CREATE_ATTRIBUTES`.
    pub fn mpq_create_attributes() -> (flags: Self)
        ensures
            flags.bits == CreateArchiveFlags::MPQ_CREATE_ATTRIBUTES,
    {
        CreateArchiveFlags { bits: CreateArchiveFlags::MPQ_CREATE_ATTRIBUTES }
    }

    /// The set of the one option `MPQ_CREATE_SIGNATURE`.
    pub fn mpq_create_signature() -> (flags: Self)
        ensures
            flags.bits == CreateArchiveFlags::MPQ_CREATE_SIGNATURE,
    {
        CreateArchiveFlags { bits: CreateArchiveFlags::MPQ_CREATE_SIGNATURE }
    }

    /// The set of the one option `MPQ_CREATE_ARCHIVE_V1`.
    pub fn mpq_create_archive_v1() -> (flags: Self)
        ensures
            flags.bits == CreateArchiveFlags::MPQ_CREATE_ARCHIVE_V1,
    {
        CreateArchiveFlags { bits: CreateArchiveFlags::MPQ_CREATE_ARCHIVE_V1 }
    }

    /// The set of the one option `MPQ_CREATE_ARCHIVE_V2`.
    pub fn mpq_create_archive_v2() -> (flags: Self)
        ensures
            flags.bits == CreateArchiveFlags::MPQ_CREATE_ARCHIVE_V2,
    {
        CreateArchiveFlags { bits: CreateArchiveFlags::MPQ_CREATE_ARCHIVE_V2 }
    }

    /// The set of the one option `MPQ_CREATE_ARCHIVE_V3`.
    pub fn mpq_create_archive_v3() -> (flags: Self)
        ensures
            flags.bits == CreateArchiveFlags::MPQ_CREATE_ARCHIVE_V3,
    {
        CreateArchiveFlags { bits: CreateArchiveFlags::MPQ_CREATE_ARCHIVE_V3 }
    }

    /// The set of the one option `MPQ_CREATE_ARCHIVE_V4`.
    pub fn mpq_create_archive_v4() -> (flags: Self)
        ensures
            flags.bits == CreateArchiveFlags::MPQ_CREATE_ARCHIVE_V4,
    {
        CreateArchiveFlags { bits: CreateArchiveFlags::MPQ_CREATE_ARCHIVE_V4 }
    }

    /// The set with no bit.
    pub fn empty() -> (flags: Self)
        ensures
            flags.bits == 0,
    {
        CreateArchiveFlags { bits: 0 }
    }

    /// The set with exactly these bits. No bit is refused.
    pub fn from_bits_retain(bits: u32) -> (flags: Self)
        ensures
            flags.bits == bits,
    {
        CreateArchiveFlags { bits }
    }

    /// The bits of the set.
    pub fn bits(&self) -> (bits: u32)
        ensures
            bits == self.bits,
    {
        self.bits
    }

    /// The set with the bits of both.
    pub open spec fn spec_union(self, other: Self) -> Self {
        CreateArchiveFlags { bits: self.bits | other.bits }
    }

    /// The set with the bits of both.
    #[verifier::when_used_as_spec(spec_union)]
    pub fn union(self, other: Self) -> (flags: Self)
        ensures
            flags == self.spec_union(other),
    {
        CreateArchiveFlags { bits: self.bits | other.bits }
    }

    /// Whether every bit of `other` is in the set.
    pub open spec fn spec_contains(&self, other: Self) -> bool {
        self.bits & other.bits == other.bits
    }

    /// Whether every bit of `other` is in the set.
    #[verifier::when_used_as_spec(spec_contains)]
    pub fn contains(&self, other: Self) -> (b: bool)
        ensures
            b == self.spec_contains(other),
    {
        self.bits & other.bits == other.bits
    }

    /// Putting sets together does not depend on their order.
    pub proof fn union_commutes(a: Self, b: Self)
        ensures
            a.union(b) == b.union(a),
    {
        let x = a.bits;
        let y = b.bits;
        assert(x | y == y | x) by (bit_vector);
    }

    /// Putting sets together does not depend on how they are grouped.
    pub proof fn union_associates(a: Self, b: Self, c: Self)
        ensures
            a.union(b).union(c) == a.union(b.union(c)),
    {
        let x = a.bits;
        let y = b.bits;
        let z = c.bits;
        assert((x | y) | z == x | (y | z)) by (bit_vector);
    }

    /// A set put together from two holds both.
    pub proof fn union_contains(a: Self, b: Self)
        ensures
            a.union(b).contains(a),
            a.union(b).contains(b),
    {
        let x = a.bits;
        let y = b.bits;
        assert((x | y) & x == x) by (bit_vector);
        assert((x | y) & y == y) by (bit_vector);
    }
}

impl core::ops::BitOr for CreateArchiveFlags {
    type Output = CreateArchiveFlags;

    fn bitor(self, other: CreateArchiveFlags) -> (flags: CreateArchiveFlags) {
        CreateArchiveFlags { bits: self.bits | other.bits }
    }
}

impl BitOrSpecImpl for CreateArchiveFlags {
    open spec fn obeys_bitor_spec() -> bool {
        true
    }

    open spec fn bitor_req(self, other: CreateArchiveFlags) -> bool {
        true
    }

    open spec fn bitor_spec(self, other: CreateArchiveFlags) -> CreateArchiveFlags {
        self.spec_union(other)
    }
}

/// How a file is stored in an archive.
#[derive(Clone, Copy, PartialEq, Eq, Structural, Debug)]
pub struct CreateFileFlags {
    pub bits: u32,
}

impl CreateFileFlags {
    /// The file is compressed with the implode method.
    pub const MPQ_FILE_IMPLODE: u32 = 0x0000_0100;

    /// The file is compressed.
    pub const MPQ_FILE_COMPRESS: u32 = 0x0000_0200;

    /// The file is stored encrypted.
    pub const MPQ_FILE_ENCRYPTED: u32 = 0x0001_0000;

    /// The encryption key of the file is adjusted to its place in the archive.
    pub const MPQ_FILE_FIX_KEY: u32 = 0x0002_0000;

    /// The file is a deletion marker.
    pub const MPQ_FILE_DELETE_MARKER: u32 = 0x0200_0000;

    /// The file has a checksum for each sector.
    pub const MPQ_FILE_SECTOR_CRC: u32 = 0x0400_0000;

    /// The file is stored as a single unit.
    pub const MPQ_FILE_SINGLE_UNIT: u32 = 0x0100_0000;

    /// A file of the same name that is already in the archive is replaced.
    pub const MPQ_FILE_REPLACEEXISTING: u32 = 0x8000_0000;

    /// The set of the one option `MPQ_FILE_IMPLODE`.
    pub fn mpq_file_implode() -> (flags: Self)
        ensures
            flags.bits == CreateFileFlags::MPQ_FILE_IMPLODE,
    {
        CreateFileFlags { bits: CreateFileFlags::MPQ_FILE_IMPLODE }
    }

    /// The set of the one option `MPQ_FILE_COMPRESS`.
    pub fn mpq_file_compress() -> (flags: Self)
        ensures
            flags.bits == CreateFileFlags::MPQ_FILE_COMPRESS,
    {
        CreateFileFlags { bits: CreateFileFlags::MPQ_FILE_COMPRESS }
    }

    /// The set of the one option `MPQ_FILE_ENCRYPTED`.
    pub fn mpq_file_encrypted() -> (flags: Self)
        ensures
            flags.bits == CreateFileFlags::MPQ_FILE_ENCRYPTED,
    {
        CreateFileFlags { bits: CreateFileFlags::MPQ_FILE_ENCRYPTED }
    }

    /// The set of the one option `MPQ_FILE_FIX_KEY`.
    pub fn mpq_file_fix_key() -> (flags: Self)
        ensures
            flags.bits == CreateFileFlags::MPQ_FILE_FIX_KEY,
    {
        CreateFileFlags { bits: CreateFileFlags::MPQ_FILE_FIX_KEY }
    }

    /// The set of the one option `MPQ_FILE_DELETE_MARKER`.
    pub fn mpq_file_delete_marker() -> (flags: Self)
        ensures
            flags.bits == CreateFileFlags::MPQ_FILE_DELETE_MARKER,
    {
        CreateFileFlags { bits: CreateFileFlags::MPQ_FILE_DELETE_MARKER }
    }

    /// The set of the one option `MPQ_FILE_SECTOR_CRC`.
    pub fn mpq_file_sector_crc() -> (flags: Self)
        ensures
            flags.bits == CreateFileFlags::MPQ_FILE_SECTOR_CRC,
    {
        CreateFileFlags { bits: CreateFileFlags::MPQ_FILE_SECTOR_CRC }
    }

    /// The set of the one option `MPQ_FILE_SINGLE_UNIT`.
    pub fn mpq_file_single_unit() -> (flags: Self)
        ensures
            flags.bits == CreateFileFlags::MPQ_FILE_SINGLE_UNIT,
    {
        CreateFileFlags { bits: CreateFileFlags::MPQ_FILE_SINGLE_UNIT }
    }

    /// The set of the one option `MPQ_FILE_REPLACEEXISTING`.
    pub fn mpq_file_replaceexisting() -> (flags: Self)
        ensures
            flags.bits == CreateFileFlags::MPQ_FILE_REPLACEEXISTING,
    {
        CreateFileFlags { bits: CreateFileFlags::MPQ_FILE_REPLACEEXISTING }
    }

    /// The set with no bit.
    pub fn empty() -> (flags: Self)
        ensures
            flags.bits == 0,
    {
        CreateFileFlags { bits: 0 }
    }

    /// The set with exactly these bits. No bit is refused.
    pub fn from_bits_retain(bits: u32) -> (flags: Self)
        ensures
            flags.bits == bits,
    {
        CreateFileFlags { bits }
    }

    /// The bits of the set.
    pub fn bits(&self) -> (bits: u32)
        ensures
            bits == self.bits,
    {
        self.bits
    }

    /// The set with the bits of both.
    pub open spec fn spec_union(self, other: Self) -> Self {
        CreateFileFlags { bits: self.bits | other.bits }
    }

    /// The set with the bits of both.
    #[verifier::when_used_as_spec(spec_union)]
    pub fn union(self, other: Self) -> (flags: Self)
        ensures
            flags == self.spec_union(other),
    {
        CreateFileFlags { bits: self.bits | other.bits }
    }

    /// Whether every bit of `other` is in the set.
    pub open spec fn spec_contains(&self, other: Self) -> bool {
        self.bits & other.bits == other.bits
    }

    /// Whether every bit of `other` is in the set.
    #[verifier::when_used_as_spec(spec_contains)]
    pub fn contains(&self, other: Self) -> (b: bool)
        ensures
            b == self.spec_contains(other),
    {
        self.bits & other.bits == other.bits
    }

    /// Putting sets together does not depend on their order.
    pub proof fn union_commutes(a: Self, b: Self)
        ensures
            a.union(b) == b.union(a),
    {
        let x = a.bits;
        let y = b.bits;
        assert(x | y == y | x) by (bit_vector);
    }

    /// Putting sets together does not depend on how they are grouped.
    pub proof fn union_associates(a: Self, b: Self, c: Self)
        ensures
            a.union(b).union(c) == a.union(b.union(c)),
    {
        let x = a.bits;
        let y = b.bits;
        let z = c.bits;
        assert((x | y) | z == x | (y | z)) by (bit_vector);
    }

    /// A set put together from two holds both.
    pub proof fn union_contains(a: Self, b: Self)
        ensures
            a.union(b).contains(a),
            a.union(b).contains(b),
    {
        let x = a.bits;
        let y = b.bits;
        assert((x | y) & x == x) by (bit_vector);
        assert((x | y) & y == y) by (bit_vector);
    }
}

impl core::ops::BitOr for CreateFileFlags {
    type Output = CreateFileFlags;

    fn bitor(self, other: CreateFileFlags) -> (flags: CreateFileFlags) {
        CreateFileFlags { bits: self.bits | other.bits }
    }
}

impl BitOrSpecImpl for CreateFileFlags {
    open spec fn obeys_bitor_spec() -> bool {
        true
    }

    open spec fn bitor_req(self, other: CreateFileFlags) -> bool {
        true
    }

    open spec fn bitor_spec(self, other: CreateFileFlags) -> CreateFileFlags {
        self.spec_union(other)
    }
}

/// How the data of a file is compressed.
#[derive(Clone, Copy, PartialEq, Eq, Structural, Debug)]
pub struct CompressionFlags {
    pub bits: u32,
}

impl CompressionFlags {
    /// Huffman compression.
    pub const MPQ_COMPRESSION_HUFFMANN: u32 = 0x0000_0001;

    /// ZLIB compression.
    pub const MPQ_COMPRESSION_ZLIB: u32 = 0x0000_0002;

    /// PKWARE data compression.
    pub const MPQ_COMPRESSION_PKWARE: u32 = 0x0000_0008;

    /// BZIP2 compression.
    pub const MPQ_COMPRESSION_BZIP2: u32 = 0x0000_0010;

    /// Sparse compression.
    pub const MPQ_COMPRESSION_SPARSE: u32 = 0x0000_0020;

    /// IMA ADPCM compression for one channel.
    pub const MPQ_COMPRESSION_ADPCM_MONO: u32 = 0x0000_0040;

    /// IMA ADPCM compression for two channels.
    pub const MPQ_COMPRESSION_ADPCM_STEREO: u32 = 0x0000_0080;

    /// LZMA compression. This value is no combination of the others.
    pub const MPQ_COMPRESSION_LZMA: u32 = 0x0000_0012;

    /// The set of the one option `MPQ_COMPRESSION_HUFFMANN`.
    pub fn mpq_compression_huffmann() -> (flags: Self)
        ensures
            flags.bits == CompressionFlags::MPQ_COMPRESSION_HUFFMANN,
    {
        CompressionFlags { bits: CompressionFlags::MPQ_COMPRESSION_HUFFMANN }
    }

    /// The set of the one option `MPQ_COMPRESSION_ZLIB`.
    pub fn mpq_compression_zlib() -> (flags: Self)
        ensures
            flags.bits == CompressionFlags::MPQ_COMPRESSION_ZLIB,
    {
        CompressionFlags { bits: CompressionFlags::MPQ_COMPRESSION_ZLIB }
    }

    /// The set of the one option `MPQ_COMPRESSION_PKWARE`.
    pub fn mpq_compression_pkware() -> (flags: Self)
        ensures
            flags.bits == CompressionFlags::MPQ_COMPRESSION_PKWARE,
    {
        CompressionFlags { bits: CompressionFlags::MPQ_COMPRESSION_PKWARE }
    }

    /// The set of the one option `MPQ_COMPRESSION_BZIP2`.
    pub fn mpq_compression_bzip2() -> (flags: Self)
        ensures
            flags.bits == CompressionFlags::MPQ_COMPRESSION_BZIP2,
    {
        CompressionFlags { bits: CompressionFlags::MPQ_COMPRESSION_BZIP2 }
    }

    /// The set of the one option `MPQ_COMPRESSION_SPARSE`.
    pub fn mpq_compression_sparse() -> (flags: Self)
        ensures
            flags.bits == CompressionFlags::MPQ_COMPRESSION_SPARSE,
    {
        CompressionFlags { bits: CompressionFlags::MPQ_COMPRESSION_SPARSE }
    }

    /// The set of the one option `MPQ_COMPRESSION_ADPCM_MONO`.
    pub fn mpq_compression_adpcm_mono() -> (flags: Self)
        ensures
            flags.bits == CompressionFlags::MPQ_COMPRESSION_ADPCM_MONO,
    {
        CompressionFlags { bits: CompressionFlags::MPQ_COMPRESSION_ADPCM_MONO }
    }

    /// The set of the one option `MPQ_COMPRESSION_ADPCM_STEREO`.
    pub fn mpq_compression_adpcm_stereo() -> (flags: Self)
        ensures
            flags.bits == CompressionFlags::MPQ_COMPRESSION_ADPCM_STEREO,
    {
        CompressionFlags { bits: CompressionFlags::MPQ_COMPRESSION_ADPCM_STEREO }
    }

    /// The set of the one option `MPQ_COMPRESSION_LZMA`.
    pub fn mpq_compression_lzma() -> (flags: Self)
        ensures
            flags.bits == CompressionFlags::MPQ_COMPRESSION_LZMA,
    {
        CompressionFlags { bits: CompressionFlags::MPQ_COMPRESSION_LZMA }
    }

    /// The set with no bit.
    pub fn empty() -> (flags: Self)
        ensures
            flags.bits == 0,
    {
        CompressionFlags { bits: 0 }
    }

    /// The set with exactly these bits. No bit is refused.
    pub fn from_bits_retain(bits: u32) -> (flags: Self)
        ensures
            flags.bits == bits,
    {
        CompressionFlags { bits }
    }

    /// The bits of the set.
    pub fn bits(&self) -> (bits: u32)
        ensures
            bits == self.bits,
    {
        self.bits
    }

    /// The set with the bits of both.
    pub open spec fn spec_union(self, other: Self) -> Self {
        CompressionFlags { bits: self.bits | other.bits }
    }

    /// The set with the bits of both.
    #[verifier::when_used_as_spec(spec_union)]
    pub fn union(self, other: Self) -> (flags: Self)
        ensures
            flags == self.spec_union(other),
    {
        CompressionFlags { bits: self.bits | other.bits }
    }

    /// Whether every bit of `other` is in the set.
    pub open spec fn spec_contains(&self, other: Self) -> bool {
        self.bits & other.bits == other.bits
    }

    /// Whether every bit of `other` is in the set.
    #[verifier::when_used_as_spec(spec_contains)]
    pub fn contains(&self, other: Self) -> (b: bool)
        ensures
            b == self.spec_contains(other),
    {
        self.bits & other.bits == other.bits
    }

    /// Putting sets together does not depend on their order.
    pub proof fn union_commutes(a: Self, b: Self)
        ensures
            a.union(b) == b.union(a),
    {
        let x = a.bits;
        let y = b.bits;
        assert(x | y == y | x) by (bit_vector);
    }

    /// Putting sets together does not depend on how they are grouped.
    pub proof fn union_associates(a: Self, b: Self, c: Self)
        ensures
            a.union(b).union(c) == a.union(b.union(c)),
    {
        let x = a.bits;
        let y = b.bits;
        let z = c.bits;
        assert((x | y) | z == x | (y | z)) by (bit_vector);
    }

    /// A set put together from two holds both.
    pub proof fn union_contains(a: Self, b: Self)
        ensures
            a.union(b).contains(a),
            a.union(b).contains(b),
    {
        let x = a.bits;
        let y = b.bits;
        assert((x | y) & x == x) by (bit_vector);
        assert((x | y) & y == y) by (bit_vector);
    }
}

impl core::ops::BitOr for CompressionFlags {
    type Output = CompressionFlags;

    fn bitor(self, other: CompressionFlags) -> (flags: CompressionFlags) {
        CompressionFlags { bits: self.bits | other.bits }
    }
}

impl BitOrSpecImpl for CompressionFlags {
    open spec fn obeys_bitor_spec() -> bool {
        true
    }

    open spec fn bitor_req(self, other: CompressionFlags) -> bool {
        true
    }

    open spec fn bitor_spec(self, other: CompressionFlags) -> CompressionFlags {
        self.spec_union(other)
    }
}

} // verus!
