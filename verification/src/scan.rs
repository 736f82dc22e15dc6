//! The scan stage: the ordered list of enumerated entries, and the
//! validation each operation runs against it.
//!
//! The host walks its hierarchical file source and reports each entry here;
//! the list then feeds compression, transformation or recovery in scan order.

use vstd::prelude::*;
use vstd::string::StringExecFns;

use crate::wasm_error::{
    WasmError, CODE_CAN_NOT_RECOVER_DIRECTORY, CODE_CAN_NOT_TRANSFORM_DIRECTORY,
    CODE_EMPTY_FILE_LIST, CODE_INVALID_COMPRESSION_LEVEL, CODE_MISSING_FILE_SYSTEM,
    CODE_TOO_MANY_FILES, CODE_UNKNOWN_FILE_ENTRY,
};

verus! {

/// One enumerated entry: its virtual archive path and whether it is a
/// directory.
#[derive(Debug)]
pub struct FilePath {
    pub path: String,
    pub is_dir: bool,
}

/// The mathematical model of a `FilePath`.
pub struct FilePathModel {
    pub path: Seq<char>,
    pub is_dir: bool,
}

impl View for FilePath {
    type V = FilePathModel;

    open spec fn view(&self) -> FilePathModel {
        FilePathModel { path: self.path@, is_dir: self.is_dir }
    }
}

/// The decimal digits of `x`, most significant first.
pub open spec fn decimal_chars(x: u32) -> Seq<char>
    decreases x,
{
    let digit = digit_char((x % 10) as u32);
    if x < 10 {
        seq![digit]
    } else {
        decimal_chars(x / 10).push(digit)
    }
}

/// The character for one decimal digit.
pub open spec fn digit_char(d: u32) -> char {
    if d == 0 { '0' }
    else if d == 1 { '1' }
    else if d == 2 { '2' }
    else if d == 3 { '3' }
    else if d == 4 { '4' }
    else if d == 5 { '5' }
    else if d == 6 { '6' }
    else if d == 7 { '7' }
    else if d == 8 { '8' }
    else if d == 9 { '9' }
    else { '?' }
}

/// Relies on `u32`'s `Display` through `to_string`: the decimal digits of the
/// value, most significant first.
#[verifier::external_body]
pub(crate) fn u32_to_string(x: u32) -> (r: String)
    ensures
        r@ == decimal_chars(x),
{
    x.to_string()
}

/// The scan state shared between operations: the entry list in enumeration
/// order, and whether the scanned file system handle is still present on the
/// host side.
pub struct ScanState {
    pub file_path_list: Vec<FilePath>,
    pub has_file_system: bool,
}

impl ScanState {
    /// The entries recorded so far, in scan order.
    pub open spec fn entries(&self) -> Seq<FilePathModel> {
        self.file_path_list@.map_values(|fp: FilePath| fp@)
    }

    pub fn new() -> (r: Self)
        ensures
            r.entries() == Seq::<FilePathModel>::empty(),
            !r.has_file_system,
    {
        let r = Self { file_path_list: Vec::new(), has_file_system: false };
        proof {
            assert(r.entries() =~= Seq::<FilePathModel>::empty());
        }
        r
    }

    /// Starts a fresh scan: the previous results and file system are dropped.
    pub fn begin_scan(&mut self)
        ensures
            final(self).entries() == Seq::<FilePathModel>::empty(),
            !final(self).has_file_system,
    {
        self.file_path_list.clear();
        self.has_file_system = false;
        proof {
            assert(self.entries() =~= Seq::<FilePathModel>::empty());
        }
    }

    /// The check at the head of a scan: an input with no first entry is
    /// rejected before any traversal. The previous results were already
    /// dropped by `begin_scan` at this point; a scan is destructive even
    /// when it fails.
    pub fn check_scan_input(&self, has_first_entry: bool) -> (r: Result<(), WasmError>)
        ensures
            r is Ok <==> has_first_entry,
            r is Err ==> r->Err_0.code == CODE_EMPTY_FILE_LIST,
    {
        if has_first_entry {
            Ok(())
        } else {
            Err(WasmError::empty_file_list("ScanState::check_scan_input"))
        }
    }

    /// Records that the host captured the file system of the scanned entries.
    pub fn set_file_system_present(&mut self)
        ensures
            final(self).entries() == old(self).entries(),
            final(self).has_file_system,
    {
        self.has_file_system = true;
    }

    /// Records one enumerated entry, classified by the host's two predicates
    /// (checked in that order): a file, else a directory, else the entry is
    /// of an unknown kind and the scan fails. Returns the new entry count
    /// for progress reporting.
    pub fn record_entry(&mut self, path: String, is_file: bool, is_directory: bool)
        -> (r: Result<usize, WasmError>)
        ensures
            final(self).has_file_system == old(self).has_file_system,
            is_file || is_directory ==> {
                &&& r is Ok
                &&& final(self).entries() == old(self).entries().push(
                    FilePathModel { path: path@, is_dir: !is_file },
                )
                &&& r->Ok_0 == final(self).entries().len()
            },
            !is_file && !is_directory ==> {
                &&& r is Err
                &&& r->Err_0.code == CODE_UNKNOWN_FILE_ENTRY
                &&& final(self).entries() == old(self).entries()
            },
    {
        if is_file {
            self.file_path_list.push(FilePath { path, is_dir: false });
            proof {
                assert(self.entries()
                    =~= old(self).entries().push(FilePathModel { path: path@, is_dir: false }));
            }
            Ok(self.file_path_list.len())
        } else if is_directory {
            self.file_path_list.push(FilePath { path, is_dir: true });
            proof {
                assert(self.entries()
                    =~= old(self).entries().push(FilePathModel { path: path@, is_dir: true }));
            }
            Ok(self.file_path_list.len())
        } else {
            Err(WasmError::unknown_file_entry("ScanState::record_entry"))
        }
    }

    /// Validates a compression request: the level must be `0..=9`, there
    /// must be scanned entries, and the file system must still be present —
    /// in that order.
    pub fn check_compress(&self, compression_level: u32) -> (r: Result<(), WasmError>)
        ensures
            compression_level > 9 ==> r is Err
                && r->Err_0.code == CODE_INVALID_COMPRESSION_LEVEL
                && r->Err_0.arg1@ == decimal_chars(compression_level),
            compression_level <= 9 && self.entries().len() == 0 ==> r is Err
                && r->Err_0.code == CODE_EMPTY_FILE_LIST,
            compression_level <= 9 && self.entries().len() > 0 && !self.has_file_system
                ==> r is Err && r->Err_0.code == CODE_MISSING_FILE_SYSTEM,
            compression_level <= 9 && self.entries().len() > 0 && self.has_file_system
                ==> r is Ok,
    {
        if compression_level > 9 {
            let level_text = u32_to_string(compression_level);
            return Err(WasmError::invalid_compression_level(
                "ScanState::check_compress",
                level_text.as_str(),
            ));
        }
        if self.file_path_list.len() == 0 {
            return Err(WasmError::empty_file_list("ScanState::check_compress"));
        }
        if !self.has_file_system {
            return Err(WasmError::missing_file_system("ScanState::check_compress"));
        }
        Ok(())
    }

    /// Validates a transformation or recovery request: exactly one scanned
    /// entry, and it must not be a directory. With `for_recover` the
    /// directory rejection carries the recovery error kind.
    pub fn check_single_file(&self, for_recover: bool) -> (r: Result<&FilePath, WasmError>)
        ensures
            self.entries().len() == 0 ==> r is Err
                && r->Err_0.code == CODE_EMPTY_FILE_LIST,
            self.entries().len() > 1 ==> r is Err && r->Err_0.code == CODE_TOO_MANY_FILES,
            self.entries().len() == 1 && self.entries()[0].is_dir ==> r is Err
                && r->Err_0.code == if for_recover {
                    CODE_CAN_NOT_RECOVER_DIRECTORY
                } else {
                    CODE_CAN_NOT_TRANSFORM_DIRECTORY
                }
                && r->Err_0.arg1@ == self.entries()[0].path,
            self.entries().len() == 1 && !self.entries()[0].is_dir ==> r is Ok
                && r->Ok_0@ == self.entries()[0],
    {
        if self.file_path_list.len() == 0 {
            return Err(WasmError::empty_file_list("ScanState::check_single_file"));
        }
        if self.file_path_list.len() > 1 {
            return Err(WasmError::too_many_files("ScanState::check_single_file"));
        }
        let fp = &self.file_path_list[0];
        if fp.is_dir {
            if for_recover {
                return Err(WasmError::can_not_recover_directory(
                    "ScanState::check_single_file",
                    fp.path.as_str(),
                ));
            } else {
                return Err(WasmError::can_not_transform_directory(
                    "ScanState::check_single_file",
                    fp.path.as_str(),
                ));
            }
        }
        Ok(fp)
    }
}

/// The bytes end with `.zip`.
pub open spec fn has_zip_suffix(b: Seq<u8>) -> bool {
    b.len() >= 4 && b[b.len() - 4] == 0x2e && b[b.len() - 3] == 0x7a && b[b.len() - 2] == 0x69
        && b[b.len() - 1] == 0x70
}

/// Appends `.zip` to the output name unless it already ends with it.
pub fn ensure_zip_suffix(name: String) -> (r: String)
    ensures
        r@ == if has_zip_suffix(vstd::utf8::encode_utf8(name@)) {
            name@
        } else {
            name@ + ".zip"@
        },
{
    let b: &[u8] = name.as_str().as_bytes();
    let l = b.len();
    if l >= 4 && b[l - 4] == 0x2e && b[l - 3] == 0x7a && b[l - 2] == 0x69 && b[l - 1] == 0x70 {
        name
    } else {
        name.concat(".zip")
    }
}

} // verus!
