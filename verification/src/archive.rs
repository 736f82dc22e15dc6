//! The archive writer: drives entries through the encoder in scan order,
//! tracks the running offset, and emits the central directory and the ZIP64
//! trailer.
//!
//! The writer is a state machine. The host opens an entry, feeds payload
//! chunks, closes the entry, and finally closes the archive; after each step
//! it asks `dump` for the chunk (if any) that is due on the sink. The ghost
//! `stream()` records every archive byte handed to the buffered sink writer,
//! and the running offset provably equals its length at every point.

use vstd::prelude::*;

use crate::checksum::{crc32_of, Crc32};
use crate::deflate::{deflate_of, Deflater};
use crate::header::{
    cdh_bytes, data_descriptor_bytes, eocdr_bytes, lfh_bytes, write_data_descriptor, write_eocdr,
    write_z64_eocdl, write_z64_eocdr, z64_eocdl_bytes, z64_eocdr_bytes, FileHeader, HeaderModel,
    MAX_FILE_NAME_LENGTH,
};
use crate::transform_writer::TransformWriter;
use crate::wasm_error::{
    WasmError, CODE_ARCHIVE_TOO_LARGE, CODE_FAIL_TO_COMPRESS, CODE_FILE_NAME_TOO_LONG,
    CODE_INVALID_COMPRESSION_LEVEL,
};

verus! {

/// `s` without its leading `/` bytes.
pub open spec fn strip_leading_slashes(s: Seq<u8>) -> Seq<u8>
    decreases s.len(),
{
    if s.len() > 0 && s[0] == 0x2f {
        strip_leading_slashes(s.subrange(1, s.len() as int))
    } else {
        s
    }
}

/// The archive name of an enumerated path: leading slashes stripped, and a
/// trailing slash appended for directories.
pub open spec fn normalized_name(path_utf8: Seq<u8>, is_dir: bool) -> Seq<u8> {
    strip_leading_slashes(path_utf8) + if is_dir { seq![0x2fu8] } else { Seq::<u8>::empty() }
}

/// Every byte one entry contributes to the archive: its local file header,
/// and for files the DEFLATE stream of its source followed by the data
/// descriptor.
pub open spec fn entry_bytes(h: HeaderModel, level: u32) -> Seq<u8> {
    if h.is_dir {
        lfh_bytes(h.file_name, true)
    } else {
        lfh_bytes(h.file_name, false) + deflate_of(h.src, level)
            + data_descriptor_bytes(h.crc_32, h.compressed_size, h.uncompressed_size)
    }
}

/// The archive bytes of the whole entry list, in order.
pub open spec fn body_bytes(hs: Seq<HeaderModel>, level: u32) -> Seq<u8>
    decreases hs.len(),
{
    if hs.len() == 0 {
        Seq::<u8>::empty()
    } else {
        body_bytes(hs.drop_last(), level) + entry_bytes(hs.last(), level)
    }
}

/// The central directory: one header per entry, in the same order.
pub open spec fn cd_bytes(hs: Seq<HeaderModel>) -> Seq<u8>
    decreases hs.len(),
{
    if hs.len() == 0 {
        Seq::<u8>::empty()
    } else {
        cd_bytes(hs.drop_last()) + cdh_bytes(hs.last())
    }
}

/// The complete archive: entry bytes, central directory, then exactly one
/// ZIP64 end of central directory record, one locator, and one end of
/// central directory record, in that order.
pub open spec fn archive_bytes(hs: Seq<HeaderModel>, level: u32) -> Seq<u8> {
    let body = body_bytes(hs, level);
    let cd = cd_bytes(hs);
    body + cd + z64_eocdr_bytes(hs.len() as u64, cd.len() as u64, body.len() as u64)
        + z64_eocdl_bytes((body.len() + cd.len()) as u64) + eocdr_bytes()
}

/// A finalized entry header is consistent with its source bytes: the name
/// fits, directories carry zero checksum and sizes, and a file's checksum
/// and sizes are those of its source and of its DEFLATE stream.
pub open spec fn header_ok(h: HeaderModel, level: u32) -> bool {
    &&& h.file_name.len() <= MAX_FILE_NAME_LENGTH
    &&& if h.is_dir {
        h.src.len() == 0 && h.crc_32 == 0 && h.compressed_size == 0 && h.uncompressed_size == 0
    } else {
        &&& h.crc_32 == crc32_of(h.src)
        &&& h.uncompressed_size == h.src.len()
        &&& h.compressed_size == deflate_of(h.src, level).len()
        &&& h.src.len() <= u64::MAX
        &&& deflate_of(h.src, level).len() <= u64::MAX
    }
}

/// The three trailer records are 56, 20 and 22 bytes long.
pub proof fn lemma_trailer_record_lens(n: u64, cd_size: u64, cd_start: u64, pos: u64)
    ensures
        z64_eocdr_bytes(n, cd_size, cd_start).len() == 56,
        z64_eocdl_bytes(pos).len() == 20,
        eocdr_bytes().len() == 22,
{
}

/// Appending an entry appends its bytes.
pub proof fn lemma_body_bytes_push(hs: Seq<HeaderModel>, h: HeaderModel, level: u32)
    ensures
        body_bytes(hs.push(h), level) == body_bytes(hs, level) + entry_bytes(h, level),
{
    assert(hs.push(h).drop_last() =~= hs);
    assert(hs.push(h).last() == h);
}

/// Where the writer stands in the archive's life cycle.
pub enum Phase {
    /// Between entries: ready for the next entry or the trailer.
    Open,
    /// Inside a file entry: its local file header is out, payload chunks are
    /// being compressed.
    InFile,
    /// The trailer is written; nothing more may be added.
    Closed,
    /// A failure aborted the archive; the partial output stands as it is.
    Failed,
}

/// The streaming archive encoder.
pub struct ArchiveWriter {
    /// DEFLATE level, `0..=9`.
    pub level: u32,
    /// Running offset: the count of bytes handed to the sink writer.
    pub offset: u64,
    /// Finalized headers of completed entries, in archive order.
    pub headers: Vec<FileHeader>,
    /// The buffered sink writer the archive bytes stream through.
    pub sink: TransformWriter,
    /// The life cycle phase.
    pub phase: Phase,
    /// The header of the entry in progress (meaningful only in `InFile`).
    pub cur_header: FileHeader,
    /// The running checksum of the entry in progress.
    pub crc: Crc32,
    /// The compressor of the entry in progress.
    pub defl: Deflater,
    /// Source bytes of the entry in progress.
    pub cur_uncompressed: u64,
    /// Compressed bytes of the entry in progress handed to the sink so far.
    pub cur_compressed: u64,
}

impl ArchiveWriter {
    /// The models of the finalized entries, in archive order.
    pub open spec fn entries(&self) -> Seq<HeaderModel> {
        self.headers@.map_values(|h: FileHeader| h@)
    }

    /// Every archive byte handed to the sink writer so far.
    pub open spec fn stream(&self) -> Seq<u8> {
        self.sink.accepted@
    }

    /// Every sink-ready byte already handed out by `dump`.
    pub open spec fn emitted(&self) -> Seq<u8> {
        self.sink.emitted@
    }

    /// The archive name of the entry in progress.
    pub open spec fn cur_name(&self) -> Seq<u8> {
        self.cur_header@.file_name
    }

    /// The source bytes fed for the entry in progress.
    pub open spec fn cur_src(&self) -> Seq<u8> {
        self.defl.bytes_fed()
    }

    /// The finalized entries are each consistent with their sources, and
    /// each recorded local header offset is the length of the archive bytes
    /// that precede that entry.
    pub open spec fn entries_ok(&self) -> bool {
        forall|i: int| 0 <= i < self.entries().len() ==> {
            &&& header_ok(#[trigger] self.entries()[i], self.level)
            &&& self.entries()[i].lfh_pos == body_bytes(self.entries().take(i), self.level).len()
        }
    }

    /// The configuration of `other` matches `self`'s.
    pub open spec fn same_setup(&self, other: &Self) -> bool {
        &&& self.level == other.level
        &&& self.sink.same_config(&other.sink)
    }

    /// The writer's invariant.
    pub open spec fn wf(&self) -> bool {
        &&& self.sink.wf()
        &&& match self.phase {
            Phase::Failed => true,
            Phase::Open => {
                &&& self.level <= 9
                &&& self.entries_ok()
                &&& self.offset == self.stream().len()
                &&& self.stream() == body_bytes(self.entries(), self.level)
            },
            Phase::InFile => {
                &&& self.level <= 9
                &&& self.entries_ok()
                &&& self.offset == self.stream().len()
                &&& !self.cur_header@.is_dir
                &&& self.cur_header@.file_name.len() <= MAX_FILE_NAME_LENGTH
                &&& self.cur_header@.lfh_pos == body_bytes(self.entries(), self.level).len()
                &&& self.crc.bytes_fed() == self.defl.bytes_fed()
                &&& self.defl.level() == self.level
                &&& self.cur_uncompressed == self.defl.bytes_fed().len()
                &&& self.cur_compressed == self.defl.bytes_put().len()
                &&& self.stream() == body_bytes(self.entries(), self.level)
                    + lfh_bytes(self.cur_header@.file_name, false) + self.defl.bytes_put()
            },
            Phase::Closed => {
                &&& self.level <= 9
                &&& self.entries_ok()
                &&& self.offset == self.stream().len()
                &&& self.stream() == archive_bytes(self.entries(), self.level)
                &&& self.sink.transform_buffer@.len() == 0
            },
        }
    }

    /// Opens a writer: the level must be `0..=9`. With `transform` set the
    /// sink bytes pass through the block transform; otherwise they stream
    /// unchanged.
    pub fn new(level: u32, transform: bool, sink_chunk_threshold: usize, transform_block_size: usize)
        -> (r: Result<Self, WasmError>)
        requires
            transform_block_size >= 1,
        ensures
            level > 9 <==> r is Err && r->Err_0.code == CODE_INVALID_COMPRESSION_LEVEL,
            r is Ok <==> level <= 9,
            r is Ok ==> {
                let w = r->Ok_0;
                &&& w.wf()
                &&& w.phase is Open
                &&& w.level == level
                &&& w.entries() == Seq::<HeaderModel>::empty()
                &&& w.stream() == Seq::<u8>::empty()
                &&& w.emitted() == Seq::<u8>::empty()
                &&& w.sink.threshold == sink_chunk_threshold
                &&& w.sink.block_size == transform_block_size
                &&& w.sink.bypass == !transform
            },
    {
        if level > 9 {
            let level_text = crate::scan::u32_to_string(level);
            return Err(WasmError::invalid_compression_level(
                "ArchiveWriter::new",
                level_text.as_str(),
            ));
        }
        let w = Self {
            level,
            offset: 0,
            headers: Vec::new(),
            sink: TransformWriter::new(sink_chunk_threshold, transform_block_size, !transform),
            phase: Phase::Open,
            cur_header: FileHeader::new(Vec::new(), 0, false),
            crc: Crc32::new(),
            defl: Deflater::new(level),
            cur_uncompressed: 0,
            cur_compressed: 0,
        };
        proof {
            assert(w.entries() =~= Seq::<HeaderModel>::empty());
            assert(w.stream() =~= body_bytes(w.entries(), level));
        }
        Ok(w)
    }

    /// Opens the next entry: normalizes the path into its archive name,
    /// captures the running offset as the entry's local header offset, and
    /// writes the local file header. A directory entry is complete at once;
    /// a file entry moves the writer into the payload phase.
    pub fn begin_entry(&mut self, path: &str, is_dir: bool) -> (r: Result<(), WasmError>)
        requires
            old(self).wf(),
            old(self).phase is Open,
        ensures
            old(self).same_setup(final(self)),
            final(self).wf(),
            ({
                let name = normalized_name(vstd::utf8::encode_utf8(path@), is_dir);
                &&& (r is Ok <==> name.len() <= MAX_FILE_NAME_LENGTH
                    && old(self).offset + lfh_bytes(name, is_dir).len() <= u64::MAX)
                &&& (name.len() > MAX_FILE_NAME_LENGTH <==> r is Err
                    && r->Err_0.code == CODE_FILE_NAME_TOO_LONG)
                &&& (r is Err && r->Err_0.code == CODE_FILE_NAME_TOO_LONG ==> {
                    &&& final(self).phase is Open
                    &&& final(self).entries() == old(self).entries()
                    &&& final(self).stream() == old(self).stream()
                    &&& final(self).emitted() == old(self).emitted()
                })
                &&& (r is Err ==> r->Err_0.code == CODE_FILE_NAME_TOO_LONG
                    || (r->Err_0.code == CODE_ARCHIVE_TOO_LARGE && final(self).phase is Failed))
                &&& (r is Ok && is_dir ==> {
                    &&& final(self).phase is Open
                    &&& final(self).entries() == old(self).entries().push(HeaderModel {
                        is_dir: true,
                        lfh_pos: old(self).offset,
                        file_name: name,
                        crc_32: 0,
                        compressed_size: 0,
                        uncompressed_size: 0,
                        src: Seq::<u8>::empty(),
                    })
                    &&& final(self).stream() == old(self).stream() + lfh_bytes(name, true)
                    &&& final(self).emitted() == old(self).emitted()
                })
                &&& (r is Ok && !is_dir ==> {
                    &&& final(self).phase is InFile
                    &&& final(self).entries() == old(self).entries()
                    &&& final(self).cur_name() == name
                    &&& final(self).cur_src() == Seq::<u8>::empty()
                    &&& final(self).stream() == old(self).stream() + lfh_bytes(name, false)
                    &&& final(self).emitted() == old(self).emitted()
                })
            }),
    {
        let name = normalize_path(path, is_dir);
        if name.len() > MAX_FILE_NAME_LENGTH {
            return Err(WasmError::file_name_too_long("ArchiveWriter::begin_entry", path));
        }
        let header = FileHeader::new(name, self.offset, is_dir);
        let mut buf: Vec<u8> = Vec::new();
        header.write_into_as_lfh(&mut buf);
        let next_offset = match self.offset.checked_add(buf.len() as u64) {
            Some(v) => v,
            None => {
                self.phase = Phase::Failed;
                return Err(WasmError::archive_too_large("ArchiveWriter::begin_entry"));
            },
        };
        self.sink.write(buf.as_slice());
        self.offset = next_offset;
        if is_dir {
            let ghost hs0 = self.entries();
            self.headers.push(header);
            proof {
                assert(self.entries() =~= hs0.push(
                    HeaderModel {
                        is_dir: true,
                        lfh_pos: old(self).offset,
                        file_name: normalized_name(vstd::utf8::encode_utf8(path@), true),
                        crc_32: 0,
                        compressed_size: 0,
                        uncompressed_size: 0,
                        src: Seq::<u8>::empty(),
                    },
                ));
                lemma_body_bytes_push(hs0, self.entries().last(), self.level);
                assert forall|i: int| 0 <= i < self.entries().len() implies {
                    &&& header_ok(#[trigger] self.entries()[i], self.level)
                    &&& self.entries()[i].lfh_pos
                        == body_bytes(self.entries().take(i), self.level).len()
                } by {
                    if i < hs0.len() {
                        assert(self.entries()[i] == hs0[i]);
                        assert(self.entries().take(i) =~= hs0.take(i));
                    } else {
                        assert(self.entries().take(i) =~= hs0);
                    }
                }
            }
            Ok(())
        } else {
            self.cur_header = header;
            self.crc = Crc32::new();
            self.defl = Deflater::new(self.level);
            self.cur_uncompressed = 0;
            self.cur_compressed = 0;
            self.phase = Phase::InFile;
            proof {
                assert(self.stream() =~= body_bytes(self.entries(), self.level)
                    + lfh_bytes(self.cur_header@.file_name, false) + self.defl.bytes_put());
            }
            Ok(())
        }
    }

    /// Feeds one chunk of the current file's payload: updates the checksum,
    /// compresses, and hands the compressed bytes to the sink writer.
    pub fn write_chunk(&mut self, data: &[u8]) -> (r: Result<(), WasmError>)
        requires
            old(self).wf(),
            old(self).phase is InFile,
        ensures
            old(self).same_setup(final(self)),
            final(self).wf(),
            r is Ok ==> {
                &&& final(self).phase is InFile
                &&& final(self).entries() == old(self).entries()
                &&& final(self).cur_name() == old(self).cur_name()
                &&& final(self).cur_src() == old(self).cur_src() + data@
                &&& final(self).emitted() == old(self).emitted()
                &&& old(self).stream().is_prefix_of(final(self).stream())
            },
            r is Err ==> final(self).phase is Failed
                && (r->Err_0.code == CODE_FAIL_TO_COMPRESS
                    || r->Err_0.code == CODE_ARCHIVE_TOO_LARGE),
    {
        let out = match self.defl.update(data) {
            Ok(out) => out,
            Err(cause) => {
                self.phase = Phase::Failed;
                return Err(WasmError::fail_to_compress(
                    "ArchiveWriter::write_chunk",
                    cause.as_str(),
                ));
            },
        };
        self.crc.update(data);
        let next_uncompressed = match self.cur_uncompressed.checked_add(data.len() as u64) {
            Some(v) => v,
            None => {
                self.phase = Phase::Failed;
                return Err(WasmError::archive_too_large("ArchiveWriter::write_chunk"));
            },
        };
        let next_compressed = match self.cur_compressed.checked_add(out.len() as u64) {
            Some(v) => v,
            None => {
                self.phase = Phase::Failed;
                return Err(WasmError::archive_too_large("ArchiveWriter::write_chunk"));
            },
        };
        let next_offset = match self.offset.checked_add(out.len() as u64) {
            Some(v) => v,
            None => {
                self.phase = Phase::Failed;
                return Err(WasmError::archive_too_large("ArchiveWriter::write_chunk"));
            },
        };
        self.sink.write(out.as_slice());
        self.offset = next_offset;
        self.cur_uncompressed = next_uncompressed;
        self.cur_compressed = next_compressed;
        proof {
            assert(self.stream() =~= body_bytes(self.entries(), self.level)
                + lfh_bytes(self.cur_header@.file_name, false) + self.defl.bytes_put());
            assert(old(self).stream().is_prefix_of(self.stream()));
        }
        Ok(())
    }

    /// Closes the current file entry: drains the compressor's final bytes,
    /// writes the data descriptor, and records the finalized header — its
    /// checksum is the CRC-32 of the source bytes, its sizes are the source
    /// length and the DEFLATE stream length.
    #[verifier::rlimit(100)]
    #[verifier::spinoff_prover]
    pub fn finish_entry(&mut self) -> (r: Result<(), WasmError>)
        requires
            old(self).wf(),
            old(self).phase is InFile,
        ensures
            old(self).same_setup(final(self)),
            final(self).wf(),
            r is Ok ==> {
                &&& final(self).phase is Open
                &&& final(self).entries() == old(self).entries().push(HeaderModel {
                    is_dir: false,
                    lfh_pos: old(self).cur_header@.lfh_pos,
                    file_name: old(self).cur_name(),
                    crc_32: crc32_of(old(self).cur_src()),
                    compressed_size: deflate_of(old(self).cur_src(), old(self).level).len() as u64,
                    uncompressed_size: old(self).cur_src().len() as u64,
                    src: old(self).cur_src(),
                })
                &&& final(self).emitted() == old(self).emitted()
            },
            r is Err ==> final(self).phase is Failed
                && (r->Err_0.code == CODE_FAIL_TO_COMPRESS
                    || r->Err_0.code == CODE_ARCHIVE_TOO_LARGE),
    {
        let ghost src = self.defl.bytes_fed();
        let ghost put0 = self.defl.bytes_put();
        let mut done_defl = Deflater::new(self.level);
        core::mem::swap(&mut done_defl, &mut self.defl);
        let tail = match done_defl.finish() {
            Ok(tail) => tail,
            Err(cause) => {
                self.phase = Phase::Failed;
                return Err(WasmError::fail_to_compress(
                    "ArchiveWriter::finish_entry",
                    cause.as_str(),
                ));
            },
        };
        let compressed_size = match self.cur_compressed.checked_add(tail.len() as u64) {
            Some(v) => v,
            None => {
                self.phase = Phase::Failed;
                return Err(WasmError::archive_too_large("ArchiveWriter::finish_entry"));
            },
        };
        let offset_after_tail = match self.offset.checked_add(tail.len() as u64) {
            Some(v) => v,
            None => {
                self.phase = Phase::Failed;
                return Err(WasmError::archive_too_large("ArchiveWriter::finish_entry"));
            },
        };
        let mut done_crc = Crc32::new();
        core::mem::swap(&mut done_crc, &mut self.crc);
        let crc_value = done_crc.finalize();
        let mut dd: Vec<u8> = Vec::new();
        write_data_descriptor(&mut dd, crc_value, compressed_size, self.cur_uncompressed);
        let offset_after_dd = match offset_after_tail.checked_add(dd.len() as u64) {
            Some(v) => v,
            None => {
                self.phase = Phase::Failed;
                return Err(WasmError::archive_too_large("ArchiveWriter::finish_entry"));
            },
        };
        self.sink.write(tail.as_slice());
        self.sink.write(dd.as_slice());
        self.offset = offset_after_dd;
        let mut header = FileHeader::new(Vec::new(), 0, false);
        core::mem::swap(&mut header, &mut self.cur_header);
        header.set_crc_32(crc_value);
        header.set_compressed_size_u64(compressed_size);
        header.set_uncompressed_size_u64(self.cur_uncompressed);
        header.src = Ghost(src);
        let ghost hs0 = self.entries();
        let ghost model = header@;
        self.headers.push(header);
        self.phase = Phase::Open;
        proof {
            assert(put0 + tail@ == deflate_of(src, self.level));
            assert(self.entries() =~= hs0.push(model));
            lemma_body_bytes_push(hs0, model, self.level);
            assert(self.stream() =~= body_bytes(hs0, self.level) + entry_bytes(model, self.level));
            assert forall|i: int| 0 <= i < self.entries().len() implies {
                &&& header_ok(#[trigger] self.entries()[i], self.level)
                &&& self.entries()[i].lfh_pos
                    == body_bytes(self.entries().take(i), self.level).len()
            } by {
                if i < hs0.len() {
                    assert(self.entries()[i] == hs0[i]);
                    assert(self.entries().take(i) =~= hs0.take(i));
                } else {
                    assert(self.entries().take(i) =~= hs0);
                }
            }
        }
        Ok(())
    }

    /// Closes the archive: appends every entry's central directory header in
    /// order, then the ZIP64 end of central directory record, its locator,
    /// and the end of central directory record; finally flushes the
    /// transform. The stream is then exactly the complete archive.
    #[verifier::rlimit(100)]
    #[verifier::spinoff_prover]
    pub fn finish_archive(&mut self) -> (r: Result<(), WasmError>)
        requires
            old(self).wf(),
            old(self).phase is Open,
        ensures
            old(self).same_setup(final(self)),
            final(self).wf(),
            r is Ok <==> old(self).offset + cd_bytes(old(self).entries()).len() + 98
                <= u64::MAX,
            r is Ok ==> {
                &&& final(self).phase is Closed
                &&& final(self).entries() == old(self).entries()
                &&& final(self).stream() == archive_bytes(old(self).entries(), old(self).level)
                &&& final(self).emitted() == old(self).emitted()
                &&& final(self).emitted() + final(self).sink.result_buffer@
                    == final(self).sink.applied(final(self).stream())
            },
            r is Err ==> final(self).phase is Failed
                && r->Err_0.code == CODE_ARCHIVE_TOO_LARGE,
    {
        let cd_start = self.offset;
        let mut tail: Vec<u8> = Vec::new();
        let n = self.headers.len();
        let ghost hs = self.entries();
        let mut i: usize = 0;
        while i < n
            invariant
                n == self.headers@.len(),
                i <= n,
                hs == self.headers@.map_values(|h: FileHeader| h@),
                forall|k: int| 0 <= k < hs.len() ==> (#[trigger] hs[k]).file_name.len()
                    <= MAX_FILE_NAME_LENGTH,
                tail@ == cd_bytes(hs.take(i as int)),
            decreases n - i,
        {
            proof {
                assert(self.headers@[i as int]@ == hs[i as int]);
                assert(hs.take(i + 1).drop_last() =~= hs.take(i as int));
                assert(hs.take(i + 1).last() == hs[i as int]);
            }
            self.headers[i].write_into_as_cdh(&mut tail);
            i = i + 1;
        }
        proof {
            assert(hs.take(n as int) =~= hs);
        }
        let cd_size = tail.len() as u64;
        let ghost cd_len = cd_bytes(hs).len();
        let z64_eocdr_pos = match cd_start.checked_add(cd_size) {
            Some(v) => v,
            None => {
                self.phase = Phase::Failed;
                return Err(WasmError::archive_too_large("ArchiveWriter::finish_archive"));
            },
        };
        write_z64_eocdr(&mut tail, n as u64, cd_size, cd_start);
        write_z64_eocdl(&mut tail, z64_eocdr_pos);
        write_eocdr(&mut tail);
        proof {
            lemma_trailer_record_lens(n as u64, cd_size, cd_start, z64_eocdr_pos);
            assert(tail@.len() == cd_len + 98);
        }
        let next_offset = match self.offset.checked_add(tail.len() as u64) {
            Some(v) => v,
            None => {
                self.phase = Phase::Failed;
                return Err(WasmError::archive_too_large("ArchiveWriter::finish_archive"));
            },
        };
        self.sink.write(tail.as_slice());
        self.offset = next_offset;
        self.sink.flush();
        self.phase = Phase::Closed;
        proof {
            assert(self.stream() =~= archive_bytes(hs, self.level));
        }
        Ok(())
    }

    /// Hands out the sink-bound chunk that is due, if any; see
    /// `TransformWriter::dump`.
    pub fn dump(&mut self, use_threshold: bool) -> (r: Option<Vec<u8>>)
        requires
            old(self).wf(),
        ensures
            old(self).same_setup(final(self)),
            final(self).wf(),
            final(self).phase == old(self).phase,
            final(self).entries() == old(self).entries(),
            final(self).stream() == old(self).stream(),
            old(self).sink.dump_due(use_threshold) ==> {
                &&& r is Some
                &&& r->Some_0@ == old(self).sink.result_buffer@
                &&& final(self).emitted() == old(self).emitted() + r->Some_0@
                &&& final(self).sink.result_buffer@ == Seq::<u8>::empty()
            },
            !old(self).sink.dump_due(use_threshold) ==> {
                &&& r is None
                &&& final(self).emitted() == old(self).emitted()
                &&& final(self).sink.result_buffer@ == old(self).sink.result_buffer@
            },
    {
        self.sink.dump(use_threshold)
    }
}

/// In a live writer the running offset always equals the count of bytes
/// handed to the sink writer, independent of buffering.
pub proof fn lemma_offset_tracks_stream(w: &ArchiveWriter)
    requires
        w.wf(),
        !(w.phase is Failed),
    ensures
        w.offset == w.stream().len(),
{
}

/// Every finalized entry record is faithful to its source: a file's CRC-32
/// is the checksum of its source bytes, its sizes are the source length and
/// the DEFLATE stream length, a directory's checksum and sizes are zero, and
/// the recorded local header offset is the length of the archive bytes that
/// precede the entry.
pub proof fn lemma_entry_records_match_sources(w: &ArchiveWriter, i: int)
    requires
        w.wf(),
        !(w.phase is Failed),
        0 <= i < w.entries().len(),
    ensures
        header_ok(w.entries()[i], w.level),
        w.entries()[i].lfh_pos == body_bytes(w.entries().take(i), w.level).len(),
{
}

/// A closed archive's stream is the entry bytes, the central directory with
/// one header per entry in order, and then exactly one ZIP64 end of central
/// directory record, one locator and one end of central directory record.
pub proof fn lemma_closed_archive_layout(w: &ArchiveWriter)
    requires
        w.wf(),
        w.phase is Closed,
    ensures
        w.stream() == body_bytes(w.entries(), w.level) + cd_bytes(w.entries())
            + z64_eocdr_bytes(
                w.entries().len() as u64,
                cd_bytes(w.entries()).len() as u64,
                body_bytes(w.entries(), w.level).len() as u64,
            )
            + z64_eocdl_bytes(
                (body_bytes(w.entries(), w.level).len() + cd_bytes(w.entries()).len()) as u64,
            ) + eocdr_bytes(),
{
}

/// One entry held in memory: its enumerated path and, for files, the full
/// source bytes.
pub struct MemEntry {
    pub path: String,
    pub is_dir: bool,
    pub data: Vec<u8>,
}

/// The mathematical model of a `MemEntry`.
pub struct MemEntryModel {
    pub path: Seq<char>,
    pub is_dir: bool,
    pub data: Seq<u8>,
}

impl View for MemEntry {
    type V = MemEntryModel;

    open spec fn view(&self) -> MemEntryModel {
        MemEntryModel { path: self.path@, is_dir: self.is_dir, data: self.data@ }
    }
}

/// The archive name an in-memory entry gets.
pub open spec fn mem_entry_name(e: MemEntryModel) -> Seq<u8> {
    normalized_name(vstd::utf8::encode_utf8(e.path), e.is_dir)
}

/// The header an in-memory entry gets when its local file header starts at
/// `lfh_pos`.
pub open spec fn mem_model(e: MemEntryModel, lfh_pos: u64, level: u32) -> HeaderModel {
    HeaderModel {
        is_dir: e.is_dir,
        lfh_pos,
        file_name: mem_entry_name(e),
        crc_32: if e.is_dir { 0 } else { crc32_of(e.data) },
        compressed_size: if e.is_dir { 0 } else { deflate_of(e.data, level).len() as u64 },
        uncompressed_size: if e.is_dir { 0 } else { e.data.len() as u64 },
        src: if e.is_dir { Seq::<u8>::empty() } else { e.data },
    }
}

/// The headers of a list of in-memory entries, each positioned after the
/// archive bytes of the entries before it.
pub open spec fn mem_models(list: Seq<MemEntryModel>, level: u32) -> Seq<HeaderModel>
    decreases list.len(),
{
    if list.len() == 0 {
        Seq::<HeaderModel>::empty()
    } else {
        let prev = mem_models(list.drop_last(), level);
        prev.push(mem_model(list.last(), body_bytes(prev, level).len() as u64, level))
    }
}

/// A list's models are as many as its entries.
proof fn lemma_mem_models_len(list: Seq<MemEntryModel>, level: u32)
    ensures
        mem_models(list, level).len() == list.len(),
    decreases list.len(),
{
    if list.len() > 0 {
        lemma_mem_models_len(list.drop_last(), level);
    }
}

/// The models of a prefix are the prefix of the models.
proof fn lemma_mem_models_take(list: Seq<MemEntryModel>, i: int, level: u32)
    requires
        0 <= i <= list.len(),
    ensures
        mem_models(list.take(i), level) == mem_models(list, level).take(i),
    decreases list.len(),
{
    lemma_mem_models_len(list, level);
    if i == list.len() {
        assert(list.take(i) =~= list);
        assert(mem_models(list, level).take(i) =~= mem_models(list, level));
    } else {
        let l2 = list.drop_last();
        lemma_mem_models_len(l2, level);
        lemma_mem_models_take(l2, i, level);
        assert(list.take(i) =~= l2.take(i));
        assert(mem_models(list, level).take(i) =~= mem_models(l2, level).take(i));
    }
}

/// A prefix of the entry list contributes no more bytes than the whole list.
proof fn lemma_body_bytes_prefix_le(hs: Seq<HeaderModel>, i: int, level: u32)
    requires
        0 <= i <= hs.len(),
    ensures
        body_bytes(hs.take(i), level).len() <= body_bytes(hs, level).len(),
    decreases hs.len() - i,
{
    if i == hs.len() {
        assert(hs.take(i) =~= hs);
    } else {
        assert(hs.take(i + 1).drop_last() =~= hs.take(i));
        assert(hs.take(i + 1).last() == hs[i]);
        lemma_body_bytes_prefix_le(hs, i + 1, level);
    }
}

/// For a directory entry of a list whose archive fits in the 64-bit range,
/// the offset reached before the entry plus its local file header still fits.
proof fn lemma_dir_entry_fits(views: Seq<MemEntryModel>, i: int, level: u32)
    requires
        0 <= i < views.len(),
        views[i].is_dir,
        archive_bytes(mem_models(views, level), level).len() <= u64::MAX,
    ensures
        body_bytes(mem_models(views.take(i), level), level).len()
            + lfh_bytes(mem_entry_name(views[i]), true).len() <= u64::MAX,
{
    let models = mem_models(views, level);
    lemma_mem_models_len(views, level);
    lemma_mem_models_take(views, i, level);
    lemma_mem_models_take(views, i + 1, level);
    assert(views.take(i + 1).drop_last() =~= views.take(i));
    assert(views.take(i + 1).last() == views[i]);
    let prev = mem_models(views.take(i), level);
    let h = mem_model(views[i], body_bytes(prev, level).len() as u64, level);
    assert(mem_models(views.take(i + 1), level) == prev.push(h));
    lemma_body_bytes_push(prev, h, level);
    assert(entry_bytes(h, level) == lfh_bytes(mem_entry_name(views[i]), true));
    lemma_body_bytes_prefix_le(models, i + 1, level);
}

/// If the whole archive fits in the 64-bit range, so does the offset after
/// the entry bytes plus the central directory and the 98 trailer bytes.
proof fn lemma_trailer_fits(views: Seq<MemEntryModel>, level: u32)
    requires
        archive_bytes(mem_models(views, level), level).len() <= u64::MAX,
    ensures
        body_bytes(mem_models(views, level), level).len()
            + cd_bytes(mem_models(views, level)).len() + 98 <= u64::MAX,
{
    let models = mem_models(views, level);
    let body = body_bytes(models, level);
    let cd = cd_bytes(models);
    lemma_trailer_record_lens(
        models.len() as u64,
        cd.len() as u64,
        body.len() as u64,
        (body.len() + cd.len()) as u64,
    );
}

/// Encodes a whole archive from in-memory entries in one call: the result is
/// the complete ZIP64 archive byte stream (its transformed image when
/// `transform` is set).
#[verifier::rlimit(100)]
#[verifier::spinoff_prover]
pub fn write_archive(
    entries: &Vec<MemEntry>,
    level: u32,
    transform: bool,
    sink_chunk_threshold: usize,
    transform_block_size: usize,
) -> (r: Result<Vec<u8>, WasmError>)
    requires
        transform_block_size >= 1,
    ensures
        r is Ok ==> {
            let models = mem_models(entries@.map_values(|e: MemEntry| e@), level);
            let archive = archive_bytes(models, level);
            r->Ok_0@ == if transform {
                crate::transform_writer::transform_bytes(archive)
            } else {
                archive
            }
        },
        r is Err ==> {
            ||| r->Err_0.code == CODE_INVALID_COMPRESSION_LEVEL && level > 9
            ||| r->Err_0.code == CODE_FILE_NAME_TOO_LONG
            ||| r->Err_0.code == CODE_FAIL_TO_COMPRESS
            ||| r->Err_0.code == CODE_ARCHIVE_TOO_LARGE
        },
        level > 9 <==> r is Err && r->Err_0.code == CODE_INVALID_COMPRESSION_LEVEL,
        ({
            let views = entries@.map_values(|e: MemEntry| e@);
            &&& (r is Ok ==> forall|k: int| 0 <= k < views.len()
                ==> #[trigger] mem_entry_name(views[k]).len() <= MAX_FILE_NAME_LENGTH)
            &&& (r is Err && r->Err_0.code == CODE_FILE_NAME_TOO_LONG ==> exists|k: int|
                0 <= k < views.len()
                    && #[trigger] mem_entry_name(views[k]).len() > MAX_FILE_NAME_LENGTH)
            &&& ((level <= 9
                && (forall|k: int| 0 <= k < views.len() ==> (#[trigger] views[k]).is_dir)
                && (forall|k: int| 0 <= k < views.len()
                    ==> #[trigger] mem_entry_name(views[k]).len() <= MAX_FILE_NAME_LENGTH)
                && archive_bytes(mem_models(views, level), level).len() <= u64::MAX)
                ==> r is Ok)
        }),
{
    let ghost views = entries@.map_values(|e: MemEntry| e@);
    let ghost all_dirs = forall|k: int| 0 <= k < views.len() ==> (#[trigger] views[k]).is_dir;
    let ghost names_fit = forall|k: int| 0 <= k < views.len()
        ==> #[trigger] mem_entry_name(views[k]).len() <= MAX_FILE_NAME_LENGTH;
    let ghost all_ok = level <= 9 && all_dirs && names_fit
        && archive_bytes(mem_models(views, level), level).len() <= u64::MAX;
    let mut w = match ArchiveWriter::new(level, transform, sink_chunk_threshold, transform_block_size) {
        Ok(w) => w,
        Err(e) => {
            return Err(e);
        },
    };
    proof {
        assert(views.take(0) =~= Seq::<MemEntryModel>::empty());
    }
    let n = entries.len();
    let mut i: usize = 0;
    while i < n
        invariant
            n == entries@.len(),
            i <= n,
            views == entries@.map_values(|e: MemEntry| e@),
            transform_block_size >= 1,
            w.wf(),
            w.phase is Open,
            w.level == level,
            w.sink.bypass == !transform,
            w.emitted() == Seq::<u8>::empty(),
            w.entries() == mem_models(views.take(i as int), level),
            level <= 9,
            forall|k: int| 0 <= k < i ==> #[trigger] mem_entry_name(views[k]).len()
                <= MAX_FILE_NAME_LENGTH,
            all_dirs == (forall|k: int| 0 <= k < views.len()
                ==> (#[trigger] views[k]).is_dir),
            names_fit == (forall|k: int| 0 <= k < views.len()
                ==> #[trigger] mem_entry_name(views[k]).len() <= MAX_FILE_NAME_LENGTH),
            all_ok == (level <= 9 && all_dirs && names_fit
                && archive_bytes(mem_models(views, level), level).len() <= u64::MAX),
        decreases n - i,
    {
        let entry = &entries[i];
        proof {
            assert(entry@ == views[i as int]);
            assert(views.take(i + 1).drop_last() =~= views.take(i as int));
            assert(views.take(i + 1).last() == views[i as int]);
            if all_ok {
                assert(all_dirs);
                assert(views[i as int].is_dir);
                assert(mem_entry_name(views[i as int]).len() <= MAX_FILE_NAME_LENGTH);
                lemma_dir_entry_fits(views, i as int, level);
            }
        }
        let ghost hs0 = w.entries();
        match w.begin_entry(entry.path.as_str(), entry.is_dir) {
            Ok(()) => {
                proof {
                    assert(mem_entry_name(views[i as int]).len() <= MAX_FILE_NAME_LENGTH);
                }
            },
            Err(e) => {
                proof {
                    if e.code == CODE_FILE_NAME_TOO_LONG {
                        assert(mem_entry_name(views[i as int]).len() > MAX_FILE_NAME_LENGTH);
                    }
                }
                return Err(e);
            },
        }
        if !entry.is_dir {
            match w.write_chunk(entry.data.as_slice()) {
                Ok(()) => {},
                Err(e) => {
                    return Err(e);
                },
            }
            match w.finish_entry() {
                Ok(()) => {},
                Err(e) => {
                    return Err(e);
                },
            }
            proof {
                assert(Seq::<u8>::empty() + entry.data@ =~= entry.data@);
                assert(w.entries()
                    =~= mem_models(views.take(i + 1), level));
            }
        } else {
            proof {
                assert(w.entries()
                    =~= mem_models(views.take(i + 1), level));
            }
        }
        i = i + 1;
    }
    proof {
        assert(views.take(n as int) =~= views);
        if all_ok {
            lemma_trailer_fits(views, level);
        }
    }
    match w.finish_archive() {
        Ok(()) => {},
        Err(e) => {
            return Err(e);
        },
    }
    let chunk = w.dump(false);
    match chunk {
        Some(bytes) => Ok(bytes),
        None => {
            proof {
                assert(w.sink.result_buffer@ =~= w.sink.applied(w.stream()));
                assert(w.sink.result_buffer@.len() == w.stream().len());
                assert(eocdr_bytes().len() == 22);
                assert(w.stream().len() >= 22);
                assert(false);
            }
            Ok(Vec::new())
        },
    }
}

/// Builds one entry's archive name: the path's UTF-8 bytes with leading
/// slashes stripped and, for a directory, a trailing slash appended.
pub fn normalize_path(path: &str, is_dir: bool) -> (r: Vec<u8>)
    ensures
        r@ == normalized_name(vstd::utf8::encode_utf8(path@), is_dir),
{
    let b: &[u8] = path.as_bytes();
    let ghost full = b@;
    proof {
        assert(full.skip(0) =~= full);
    }
    let mut i: usize = 0;
    while i < b.len() && b[i] == 0x2f
        invariant
            i <= full.len(),
            b@ == full,
            strip_leading_slashes(full) == strip_leading_slashes(full.skip(i as int)),
        decreases full.len() - i,
    {
        proof {
            assert(full.skip(i as int).len() > 0);
            assert(full.skip(i as int)[0] == 0x2f);
            assert(full.skip(i as int).subrange(1, full.skip(i as int).len() as int)
                =~= full.skip(i + 1));
        }
        i = i + 1;
    }
    proof {
        assert(strip_leading_slashes(full.skip(i as int)) == full.skip(i as int));
    }
    let mut name: Vec<u8> = Vec::new();
    let mut j: usize = i;
    while j < b.len()
        invariant
            i <= j <= full.len(),
            b@ == full,
            name@ == full.subrange(i as int, j as int),
        decreases full.len() - j,
    {
        name.push(b[j]);
        j = j + 1;
        proof {
            assert(full.subrange(i as int, j as int)
                =~= full.subrange(i as int, j - 1).push(full[j - 1]));
        }
    }
    proof {
        assert(name@ =~= full.skip(i as int));
    }
    if is_dir {
        name.push(0x2f);
        proof {
            assert(name@ =~= normalized_name(full, true));
        }
    } else {
        proof {
            assert(name@ =~= normalized_name(full, false));
        }
    }
    name
}

} // verus!
