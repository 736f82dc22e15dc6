//! Archive record layouts, designed against the ZIP APPNOTE (6.3, with the
//! 4.5 ZIP64 extensions).
//!
//! `FileHeader` carries one entry's metadata and serializes both its local
//! file header and its central directory header. The trailer records (ZIP64
//! end of central directory record and locator, end of central directory
//! record) are free functions. Every record's byte layout is pinned by a spec
//! function; the writers are verified against them.

use vstd::prelude::*;

use crate::bytes::{le16, le32, le64, push_bytes, push_le16, push_le32, push_le64};

verus! {

/// "Version made by" field (APPNOTE 6.3).
pub const VERSION_MADE_BY: u16 = 63;

/// "Version needed to extract": 4.5, the first version with ZIP64 support.
pub const VERSION_NEEDED_TO_EXTRACT: u16 = 45;

/// General purpose flag for files: UTF-8 names + sizes in data descriptor.
pub const GENERAL_PURPOSE_BIG_FLAG: u16 = 0x0808;

/// General purpose flag for directories: UTF-8 names only.
pub const GENERAL_PURPOSE_BIG_FLAG_DIR: u16 = 0x0800;

/// Compression method for files: DEFLATE.
pub const COMPRESSION_METHOD: u16 = 8;

/// Compression method for directories: STORE.
pub const COMPRESSION_METHOD_DIR: u16 = 0;

/// Local file header signature.
pub const LFH_SIGNATURE: u32 = 0x04034b50;

/// Central directory header signature.
pub const CDH_SIGNATURE: u32 = 0x02014b50;

/// Data descriptor signature.
pub const DATA_DESCRIPTOR_SIGNATURE: u32 = 0x08074b50;

/// ZIP64 end of central directory record signature.
pub const Z64_EOCDR_SIGNATURE: u32 = 0x06064b50;

/// ZIP64 end of central directory locator signature.
pub const Z64_EOCDL_SIGNATURE: u32 = 0x07064b50;

/// End of central directory record signature.
pub const EOCDR_SIGNATURE: u32 = 0x06054b50;

/// The longest entry name the 16-bit name-length field can carry.
pub const MAX_FILE_NAME_LENGTH: usize = 65535;

/// The mathematical model of one entry's header: its recorded fields plus the
/// (ghost) payload bytes its sizes and checksum speak about.
pub struct HeaderModel {
    pub is_dir: bool,
    pub lfh_pos: u64,
    pub file_name: Seq<u8>,
    pub crc_32: u32,
    pub compressed_size: u64,
    pub uncompressed_size: u64,
    pub src: Seq<u8>,
}

/// The ZIP64 extra field of a file's local file header: tag 1, 16 body bytes,
/// two zero placeholders (real sizes travel in the data descriptor).
pub open spec fn zip64_extra_lfh() -> Seq<u8> {
    le16(1) + le16(16) + le64(0) + le64(0)
}

/// The local file header for an entry with name `name`.
///
/// Directories carry literal zero sizes and no extra field; files carry
/// `0xFFFFFFFF` size sentinels and the ZIP64 placeholder extra field, with
/// the real values deferred to the data descriptor.
pub open spec fn lfh_bytes(name: Seq<u8>, is_dir: bool) -> Seq<u8> {
    if is_dir {
        le32(LFH_SIGNATURE) + le16(VERSION_NEEDED_TO_EXTRACT) + le16(GENERAL_PURPOSE_BIG_FLAG_DIR)
            + le16(COMPRESSION_METHOD_DIR) + le16(0) + le16(0) + le32(0) + le32(0) + le32(0)
            + le16(name.len() as u16) + le16(0) + name
    } else {
        le32(LFH_SIGNATURE) + le16(VERSION_NEEDED_TO_EXTRACT) + le16(GENERAL_PURPOSE_BIG_FLAG)
            + le16(COMPRESSION_METHOD) + le16(0) + le16(0) + le32(0) + le32(0xFFFFFFFF)
            + le32(0xFFFFFFFF) + le16(name.len() as u16) + le16(20) + name + zip64_extra_lfh()
    }
}

/// The ZIP64 extra field of a directory's central directory header:
/// tag 1, 12 body bytes, the local header offset and a zero disk number.
pub open spec fn zip64_extra_cdh_dir(lfh_pos: u64) -> Seq<u8> {
    le16(1) + le16(12) + le64(lfh_pos) + le32(0)
}

/// The ZIP64 extra field of a file's central directory header: tag 1, 28 body
/// bytes, both true sizes, the local header offset and a zero disk number.
pub open spec fn zip64_extra_cdh_file(
    uncompressed_size: u64,
    compressed_size: u64,
    lfh_pos: u64,
) -> Seq<u8> {
    le16(1) + le16(28) + le64(uncompressed_size) + le64(compressed_size) + le64(lfh_pos) + le32(0)
}

/// The central directory header of an entry.
///
/// The 32-bit size and offset fields hold ZIP64 sentinels for files
/// (`0xFFFFFFFF`, and `0xFFFF` for the disk number); the true values stand in
/// the ZIP64 extra field.
pub open spec fn cdh_bytes(h: HeaderModel) -> Seq<u8> {
    if h.is_dir {
        le32(CDH_SIGNATURE) + le16(VERSION_MADE_BY) + le16(VERSION_NEEDED_TO_EXTRACT)
            + le16(GENERAL_PURPOSE_BIG_FLAG_DIR) + le16(COMPRESSION_METHOD_DIR) + le16(0) + le16(0)
            + le32(0) + le32(0) + le32(0) + le16(h.file_name.len() as u16) + le16(16) + le16(0)
            + le16(0xFFFF) + le16(0) + le32(0) + le32(0xFFFFFFFF) + h.file_name
            + zip64_extra_cdh_dir(h.lfh_pos)
    } else {
        le32(CDH_SIGNATURE) + le16(VERSION_MADE_BY) + le16(VERSION_NEEDED_TO_EXTRACT)
            + le16(GENERAL_PURPOSE_BIG_FLAG) + le16(COMPRESSION_METHOD) + le16(0) + le16(0)
            + le32(h.crc_32) + le32(0xFFFFFFFF) + le32(0xFFFFFFFF)
            + le16(h.file_name.len() as u16) + le16(32) + le16(0) + le16(0xFFFF) + le16(0)
            + le32(0) + le32(0xFFFFFFFF) + h.file_name
            + zip64_extra_cdh_file(h.uncompressed_size, h.compressed_size, h.lfh_pos)
    }
}

/// The 24-byte data descriptor trailing a file's payload: signature, CRC-32,
/// then the 8-byte compressed and uncompressed sizes (the ZIP64 variant).
pub open spec fn data_descriptor_bytes(crc_32: u32, compressed_size: u64, uncompressed_size: u64) -> Seq<u8> {
    le32(DATA_DESCRIPTOR_SIGNATURE) + le32(crc_32) + le64(compressed_size) + le64(uncompressed_size)
}

/// The 56-byte ZIP64 end of central directory record for `n` entries, a
/// central directory of `cd_size` bytes starting at offset `cd_start`.
pub open spec fn z64_eocdr_bytes(n: u64, cd_size: u64, cd_start: u64) -> Seq<u8> {
    le32(Z64_EOCDR_SIGNATURE) + le64(44) + le16(VERSION_MADE_BY) + le16(VERSION_NEEDED_TO_EXTRACT)
        + le32(0) + le32(0) + le64(n) + le64(n) + le64(cd_size) + le64(cd_start)
}

/// The 20-byte ZIP64 end of central directory locator pointing at offset
/// `z64_eocdr_pos`; the total disk count is 1 (single volume).
pub open spec fn z64_eocdl_bytes(z64_eocdr_pos: u64) -> Seq<u8> {
    le32(Z64_EOCDL_SIGNATURE) + le32(0) + le64(z64_eocdr_pos) + le32(1)
}

/// The 22-byte end of central directory record: every count, size and offset
/// holds its ZIP64 sentinel, and the comment is empty.
pub open spec fn eocdr_bytes() -> Seq<u8> {
    le32(EOCDR_SIGNATURE) + le16(0xFFFF) + le16(0xFFFF) + le16(0xFFFF) + le16(0xFFFF)
        + le32(0xFFFFFFFF) + le32(0xFFFFFFFF) + le16(0)
}

/// One entry's header data, used to generate both the local file header and
/// the central directory header.
///
/// `src` is the ghost record of the entry's payload source bytes; the
/// archive writer maintains it so that the checksum and size fields can be
/// specified against the payload itself.
pub struct FileHeader {
    pub is_dir: bool,
    pub lfh_pos: u64,
    pub file_name: Vec<u8>,
    pub crc_32: u32,
    pub compressed_size_u64: u64,
    pub uncompressed_size_u64: u64,
    pub src: Ghost<Seq<u8>>,
}

impl View for FileHeader {
    type V = HeaderModel;

    open spec fn view(&self) -> HeaderModel {
        HeaderModel {
            is_dir: self.is_dir,
            lfh_pos: self.lfh_pos,
            file_name: self.file_name@,
            crc_32: self.crc_32,
            compressed_size: self.compressed_size_u64,
            uncompressed_size: self.uncompressed_size_u64,
            src: self.src@,
        }
    }
}

impl FileHeader {
    /// The name fits the 16-bit name-length field.
    pub open spec fn wf(&self) -> bool {
        self.file_name@.len() <= MAX_FILE_NAME_LENGTH
    }

    /// Creates the header for an entry whose local file header will start at
    /// byte offset `lfh_pos` of the archive.
    ///
    /// `file_name` must be the final archive name: leading slashes stripped,
    /// a trailing slash present on directories, all slashes forward. For a
    /// file, checksum and sizes are filled in after its payload is written.
    pub fn new(file_name: Vec<u8>, lfh_pos: u64, is_dir: bool) -> (r: Self)
        requires
            file_name@.len() <= MAX_FILE_NAME_LENGTH,
        ensures
            r@ == (HeaderModel {
                is_dir,
                lfh_pos,
                file_name: file_name@,
                crc_32: 0,
                compressed_size: 0,
                uncompressed_size: 0,
                src: Seq::<u8>::empty(),
            }),
            r.wf(),
    {
        Self {
            is_dir,
            lfh_pos,
            file_name,
            crc_32: 0,
            compressed_size_u64: 0,
            uncompressed_size_u64: 0,
            src: Ghost(Seq::empty()),
        }
    }

    /// Clears the buffer, then writes this entry's local file header into it.
    pub fn write_into_as_lfh(&self, buffer: &mut Vec<u8>)
        requires
            self.wf(),
        ensures
            final(buffer)@ == lfh_bytes(self.file_name@, self.is_dir),
    {
        buffer.clear();
        if self.is_dir {
            push_le32(buffer, LFH_SIGNATURE);
            push_le16(buffer, VERSION_NEEDED_TO_EXTRACT);
            push_le16(buffer, GENERAL_PURPOSE_BIG_FLAG_DIR);
            push_le16(buffer, COMPRESSION_METHOD_DIR);
            push_le16(buffer, 0); // last mod file time
            push_le16(buffer, 0); // last mod file date
            push_le32(buffer, 0); // crc-32
            push_le32(buffer, 0); // compressed size
            push_le32(buffer, 0); // uncompressed size
            push_le16(buffer, self.file_name.len() as u16);
            push_le16(buffer, 0); // extra field length
            push_bytes(buffer, self.file_name.as_slice());
            proof {
                assert(buffer@ =~= lfh_bytes(self.file_name@, self.is_dir));
            }
        } else {
            push_le32(buffer, LFH_SIGNATURE);
            push_le16(buffer, VERSION_NEEDED_TO_EXTRACT);
            push_le16(buffer, GENERAL_PURPOSE_BIG_FLAG);
            push_le16(buffer, COMPRESSION_METHOD);
            push_le16(buffer, 0); // last mod file time
            push_le16(buffer, 0); // last mod file date
            push_le32(buffer, 0); // crc-32
            push_le32(buffer, 0xFFFFFFFF); // compressed size sentinel
            push_le32(buffer, 0xFFFFFFFF); // uncompressed size sentinel
            push_le16(buffer, self.file_name.len() as u16);
            push_le16(buffer, 20); // extra field length
            push_bytes(buffer, self.file_name.as_slice());
            push_le16(buffer, 1); // ZIP64 extra tag
            push_le16(buffer, 16); // extra body size
            push_le64(buffer, 0); // uncompressed size placeholder
            push_le64(buffer, 0); // compressed size placeholder
            proof {
                assert(buffer@ =~= lfh_bytes(self.file_name@, self.is_dir));
            }
        }
    }

    /// Without clearing the buffer, appends this entry's central directory
    /// header to it.
    #[verifier::rlimit(50)]
    pub fn write_into_as_cdh(&self, buffer: &mut Vec<u8>)
        requires
            self.wf(),
        ensures
            final(buffer)@ == old(buffer)@ + cdh_bytes(self@),
    {
        if self.is_dir {
            push_le32(buffer, CDH_SIGNATURE);
            push_le16(buffer, VERSION_MADE_BY);
            push_le16(buffer, VERSION_NEEDED_TO_EXTRACT);
            push_le16(buffer, GENERAL_PURPOSE_BIG_FLAG_DIR);
            push_le16(buffer, COMPRESSION_METHOD_DIR);
            push_le16(buffer, 0); // last mod file time
            push_le16(buffer, 0); // last mod file date
            push_le32(buffer, 0); // crc-32
            push_le32(buffer, 0); // compressed size
            push_le32(buffer, 0); // uncompressed size
            push_le16(buffer, self.file_name.len() as u16);
            push_le16(buffer, 16); // extra field length
            push_le16(buffer, 0); // file comment length
            push_le16(buffer, 0xFFFF); // disk number start sentinel
            push_le16(buffer, 0); // internal file attributes
            push_le32(buffer, 0); // external file attributes
            push_le32(buffer, 0xFFFFFFFF); // local header offset sentinel
            push_bytes(buffer, self.file_name.as_slice());
            push_le16(buffer, 1); // ZIP64 extra tag
            push_le16(buffer, 12); // extra body size
            push_le64(buffer, self.lfh_pos);
            push_le32(buffer, 0); // disk number
            proof {
                assert(buffer@ =~= old(buffer)@ + cdh_bytes(self@));
            }
        } else {
            push_le32(buffer, CDH_SIGNATURE);
            push_le16(buffer, VERSION_MADE_BY);
            push_le16(buffer, VERSION_NEEDED_TO_EXTRACT);
            push_le16(buffer, GENERAL_PURPOSE_BIG_FLAG);
            push_le16(buffer, COMPRESSION_METHOD);
            push_le16(buffer, 0); // last mod file time
            push_le16(buffer, 0); // last mod file date
            push_le32(buffer, self.crc_32);
            push_le32(buffer, 0xFFFFFFFF); // compressed size sentinel
            push_le32(buffer, 0xFFFFFFFF); // uncompressed size sentinel
            push_le16(buffer, self.file_name.len() as u16);
            push_le16(buffer, 32); // extra field length
            push_le16(buffer, 0); // file comment length
            push_le16(buffer, 0xFFFF); // disk number start sentinel
            push_le16(buffer, 0); // internal file attributes
            push_le32(buffer, 0); // external file attributes
            push_le32(buffer, 0xFFFFFFFF); // local header offset sentinel
            push_bytes(buffer, self.file_name.as_slice());
            push_le16(buffer, 1); // ZIP64 extra tag
            push_le16(buffer, 28); // extra body size
            push_le64(buffer, self.uncompressed_size_u64);
            push_le64(buffer, self.compressed_size_u64);
            push_le64(buffer, self.lfh_pos);
            push_le32(buffer, 0); // disk number
            proof {
                assert(buffer@ =~= old(buffer)@ + cdh_bytes(self@));
            }
        }
    }

    pub fn set_crc_32(&mut self, crc32: u32)
        ensures
            final(self)@ == (HeaderModel { crc_32: crc32, ..old(self)@ }),
            final(self).wf() == old(self).wf(),
    {
        self.crc_32 = crc32;
    }

    pub fn set_compressed_size_u64(&mut self, size: u64)
        ensures
            final(self)@ == (HeaderModel { compressed_size: size, ..old(self)@ }),
            final(self).wf() == old(self).wf(),
    {
        self.compressed_size_u64 = size;
    }

    pub fn set_uncompressed_size_u64(&mut self, size: u64)
        ensures
            final(self)@ == (HeaderModel { uncompressed_size: size, ..old(self)@ }),
            final(self).wf() == old(self).wf(),
    {
        self.uncompressed_size_u64 = size;
    }
}

/// Appends a data descriptor to the buffer.
pub fn write_data_descriptor(buffer: &mut Vec<u8>, crc_32: u32, compressed_size: u64, uncompressed_size: u64)
    ensures
        final(buffer)@ == old(buffer)@ + data_descriptor_bytes(crc_32, compressed_size, uncompressed_size),
{
    push_le32(buffer, DATA_DESCRIPTOR_SIGNATURE);
    push_le32(buffer, crc_32);
    push_le64(buffer, compressed_size);
    push_le64(buffer, uncompressed_size);
    proof {
        assert(buffer@ =~= old(buffer)@ + data_descriptor_bytes(crc_32, compressed_size, uncompressed_size));
    }
}

/// Appends a ZIP64 end of central directory record to the buffer.
pub fn write_z64_eocdr(buffer: &mut Vec<u8>, n: u64, cd_size: u64, cd_start: u64)
    ensures
        final(buffer)@ == old(buffer)@ + z64_eocdr_bytes(n, cd_size, cd_start),
{
    push_le32(buffer, Z64_EOCDR_SIGNATURE);
    push_le64(buffer, 44); // record size minus the first 12 bytes
    push_le16(buffer, VERSION_MADE_BY);
    push_le16(buffer, VERSION_NEEDED_TO_EXTRACT);
    push_le32(buffer, 0); // number of this disk
    push_le32(buffer, 0); // disk with the central directory start
    push_le64(buffer, n); // entries on this disk
    push_le64(buffer, n); // entries in total
    push_le64(buffer, cd_size);
    push_le64(buffer, cd_start);
    proof {
        assert(buffer@ =~= old(buffer)@ + z64_eocdr_bytes(n, cd_size, cd_start));
    }
}

/// Appends a ZIP64 end of central directory locator to the buffer.
pub fn write_z64_eocdl(buffer: &mut Vec<u8>, z64_eocdr_pos: u64)
    ensures
        final(buffer)@ == old(buffer)@ + z64_eocdl_bytes(z64_eocdr_pos),
{
    push_le32(buffer, Z64_EOCDL_SIGNATURE);
    push_le32(buffer, 0); // disk with the ZIP64 end of central directory
    push_le64(buffer, z64_eocdr_pos);
    push_le32(buffer, 1); // total number of disks
    proof {
        assert(buffer@ =~= old(buffer)@ + z64_eocdl_bytes(z64_eocdr_pos));
    }
}

/// Appends an end of central directory record to the buffer.
pub fn write_eocdr(buffer: &mut Vec<u8>)
    ensures
        final(buffer)@ == old(buffer)@ + eocdr_bytes(),
{
    push_le32(buffer, EOCDR_SIGNATURE);
    push_le16(buffer, 0xFFFF); // number of this disk
    push_le16(buffer, 0xFFFF); // disk with the central directory start
    push_le16(buffer, 0xFFFF); // entries on this disk
    push_le16(buffer, 0xFFFF); // entries in total
    push_le32(buffer, 0xFFFFFFFF); // central directory size
    push_le32(buffer, 0xFFFFFFFF); // central directory offset
    push_le16(buffer, 0); // comment length
    proof {
        assert(buffer@ =~= old(buffer)@ + eocdr_bytes());
    }
}

} // verus!
