//! The error object handed to the host: a numeric kind and up to four string
//! arguments (the reporting location first, then kind-specific details).

use vstd::prelude::*;

verus! {

/// Error kind: a host object had an unexpected shape.
pub const CODE_DYNAMIC_CAST_ERROR: u32 = 0x00000000;
/// Error kind: an enumerated entry is neither a file nor a directory.
pub const CODE_UNKNOWN_FILE_ENTRY: u32 = 0x00000001;
/// Error kind: an operation was requested with no scanned entries.
pub const CODE_EMPTY_FILE_LIST: u32 = 0x00000002;
/// Error kind: the scanned file system is gone.
pub const CODE_MISSING_FILE_SYSTEM: u32 = 0x00000003;
/// Error kind: the sink rejected a write.
pub const CODE_FAIL_TO_WRITE: u32 = 0x00000004;
/// Error kind: the enumerator failed to deliver a file entry.
pub const CODE_FAIL_TO_GET_FILE_ENTRY: u32 = 0x00000005;
/// Error kind: the enumerator failed to deliver a file.
pub const CODE_FAIL_TO_GET_FILE: u32 = 0x00000006;
/// Error kind: the byte source failed.
pub const CODE_FAIL_TO_READ: u32 = 0x00000007;
/// Error kind: the byte source was cancelled.
pub const CODE_READ_STREAM_CANCELLED: u32 = 0x00000008;
/// Error kind: the DEFLATE engine failed.
pub const CODE_FAIL_TO_COMPRESS: u32 = 0x00000009;
/// Error kind: the sink rejected `close`.
pub const CODE_FAIL_TO_CLOSE_WRITER: u32 = 0x0000000A;
/// Error kind: transform or recovery was requested with more than one entry.
pub const CODE_TOO_MANY_FILES: u32 = 0x0000000B;
/// Error kind: recovery was requested on a directory.
pub const CODE_CAN_NOT_RECOVER_DIRECTORY: u32 = 0x0000000C;
/// Error kind: the compression level is outside `0..=9`.
pub const CODE_INVALID_COMPRESSION_LEVEL: u32 = 0x0000000D;
/// Error kind: a host callback threw.
pub const CODE_FAIL_TO_INVOKE_CALLBACK: u32 = 0x0000000E;
/// Error kind: the sink factory failed.
pub const CODE_FAIL_TO_CREATE_WRITER: u32 = 0x0000000F;
/// Error kind: transform was requested on a directory.
pub const CODE_CAN_NOT_TRANSFORM_DIRECTORY: u32 = 0x00000010;
/// Error kind: an entry name does not fit the archive's 16-bit length field.
pub const CODE_FILE_NAME_TOO_LONG: u32 = 0x00000011;
/// Error kind: a size or offset left the archive format's 64-bit range.
pub const CODE_ARCHIVE_TOO_LARGE: u32 = 0x00000012;

/// The error value surfaced to the host.
#[derive(Debug)]
pub struct WasmError {
    pub code: u32,
    pub arg0: String,
    pub arg1: String,
    pub arg2: String,
    pub arg3: String,
}

impl WasmError {
    fn new(code: u32, arg0: &str, arg1: &str, arg2: &str, arg3: &str) -> (r: Self)
        ensures
            r.code == code,
            r.arg0@ == arg0@,
            r.arg1@ == arg1@,
            r.arg2@ == arg2@,
            r.arg3@ == arg3@,
    {
        Self {
            code,
            arg0: arg0.to_owned(),
            arg1: arg1.to_owned(),
            arg2: arg2.to_owned(),
            arg3: arg3.to_owned(),
        }
    }

    pub fn dynamic_cast_error(location: &str, from_type: &str, to_type: &str) -> (r: Self)
        ensures
            r.code == CODE_DYNAMIC_CAST_ERROR,
            r.arg0@ == location@,
            r.arg1@ == from_type@,
            r.arg2@ == to_type@,
            r.arg3@ == Seq::<char>::empty(),
    {
        proof {
            reveal_strlit("");
        }
        Self::new(CODE_DYNAMIC_CAST_ERROR, location, from_type, to_type, "")
    }

    pub fn unknown_file_entry(location: &str) -> (r: Self)
        ensures
            r.code == CODE_UNKNOWN_FILE_ENTRY,
            r.arg0@ == location@,
            r.arg1@ == Seq::<char>::empty(),
            r.arg2@ == Seq::<char>::empty(),
            r.arg3@ == Seq::<char>::empty(),
    {
        proof {
            reveal_strlit("");
        }
        Self::new(CODE_UNKNOWN_FILE_ENTRY, location, "", "", "")
    }

    pub fn empty_file_list(location: &str) -> (r: Self)
        ensures
            r.code == CODE_EMPTY_FILE_LIST,
            r.arg0@ == location@,
            r.arg1@ == Seq::<char>::empty(),
            r.arg2@ == Seq::<char>::empty(),
            r.arg3@ == Seq::<char>::empty(),
    {
        proof {
            reveal_strlit("");
        }
        Self::new(CODE_EMPTY_FILE_LIST, location, "", "", "")
    }

    pub fn missing_file_system(location: &str) -> (r: Self)
        ensures
            r.code == CODE_MISSING_FILE_SYSTEM,
            r.arg0@ == location@,
            r.arg1@ == Seq::<char>::empty(),
            r.arg2@ == Seq::<char>::empty(),
            r.arg3@ == Seq::<char>::empty(),
    {
        proof {
            reveal_strlit("");
        }
        Self::new(CODE_MISSING_FILE_SYSTEM, location, "", "", "")
    }

    pub fn fail_to_write(location: &str, upstream_error: &str) -> (r: Self)
        ensures
            r.code == CODE_FAIL_TO_WRITE,
            r.arg0@ == location@,
            r.arg1@ == upstream_error@,
            r.arg2@ == Seq::<char>::empty(),
            r.arg3@ == Seq::<char>::empty(),
    {
        proof {
            reveal_strlit("");
        }
        Self::new(CODE_FAIL_TO_WRITE, location, upstream_error, "", "")
    }

    pub fn fail_to_get_file_entry(location: &str, upstream_error: &str) -> (r: Self)
        ensures
            r.code == CODE_FAIL_TO_GET_FILE_ENTRY,
            r.arg0@ == location@,
            r.arg1@ == upstream_error@,
            r.arg2@ == Seq::<char>::empty(),
            r.arg3@ == Seq::<char>::empty(),
    {
        proof {
            reveal_strlit("");
        }
        Self::new(CODE_FAIL_TO_GET_FILE_ENTRY, location, upstream_error, "", "")
    }

    pub fn fail_to_get_file(location: &str, upstream_error: &str) -> (r: Self)
        ensures
            r.code == CODE_FAIL_TO_GET_FILE,
            r.arg0@ == location@,
            r.arg1@ == upstream_error@,
            r.arg2@ == Seq::<char>::empty(),
            r.arg3@ == Seq::<char>::empty(),
    {
        proof {
            reveal_strlit("");
        }
        Self::new(CODE_FAIL_TO_GET_FILE, location, upstream_error, "", "")
    }

    pub fn fail_to_read(location: &str, upstream_error: &str) -> (r: Self)
        ensures
            r.code == CODE_FAIL_TO_READ,
            r.arg0@ == location@,
            r.arg1@ == upstream_error@,
            r.arg2@ == Seq::<char>::empty(),
            r.arg3@ == Seq::<char>::empty(),
    {
        proof {
            reveal_strlit("");
        }
        Self::new(CODE_FAIL_TO_READ, location, upstream_error, "", "")
    }

    pub fn read_stream_cancelled(location: &str) -> (r: Self)
        ensures
            r.code == CODE_READ_STREAM_CANCELLED,
            r.arg0@ == location@,
            r.arg1@ == Seq::<char>::empty(),
            r.arg2@ == Seq::<char>::empty(),
            r.arg3@ == Seq::<char>::empty(),
    {
        proof {
            reveal_strlit("");
        }
        Self::new(CODE_READ_STREAM_CANCELLED, location, "", "", "")
    }

    pub fn fail_to_compress(location: &str, upstream_error: &str) -> (r: Self)
        ensures
            r.code == CODE_FAIL_TO_COMPRESS,
            r.arg0@ == location@,
            r.arg1@ == upstream_error@,
            r.arg2@ == Seq::<char>::empty(),
            r.arg3@ == Seq::<char>::empty(),
    {
        proof {
            reveal_strlit("");
        }
        Self::new(CODE_FAIL_TO_COMPRESS, location, upstream_error, "", "")
    }

    pub fn fail_to_close_writer(location: &str, upstream_error: &str) -> (r: Self)
        ensures
            r.code == CODE_FAIL_TO_CLOSE_WRITER,
            r.arg0@ == location@,
            r.arg1@ == upstream_error@,
            r.arg2@ == Seq::<char>::empty(),
            r.arg3@ == Seq::<char>::empty(),
    {
        proof {
            reveal_strlit("");
        }
        Self::new(CODE_FAIL_TO_CLOSE_WRITER, location, upstream_error, "", "")
    }

    pub fn too_many_files(location: &str) -> (r: Self)
        ensures
            r.code == CODE_TOO_MANY_FILES,
            r.arg0@ == location@,
            r.arg1@ == Seq::<char>::empty(),
            r.arg2@ == Seq::<char>::empty(),
            r.arg3@ == Seq::<char>::empty(),
    {
        proof {
            reveal_strlit("");
        }
        Self::new(CODE_TOO_MANY_FILES, location, "", "", "")
    }

    pub fn can_not_recover_directory(location: &str, path: &str) -> (r: Self)
        ensures
            r.code == CODE_CAN_NOT_RECOVER_DIRECTORY,
            r.arg0@ == location@,
            r.arg1@ == path@,
            r.arg2@ == Seq::<char>::empty(),
            r.arg3@ == Seq::<char>::empty(),
    {
        proof {
            reveal_strlit("");
        }
        Self::new(CODE_CAN_NOT_RECOVER_DIRECTORY, location, path, "", "")
    }

    pub fn invalid_compression_level(location: &str, compression_level: &str) -> (r: Self)
        ensures
            r.code == CODE_INVALID_COMPRESSION_LEVEL,
            r.arg0@ == location@,
            r.arg1@ == compression_level@,
            r.arg2@ == Seq::<char>::empty(),
            r.arg3@ == Seq::<char>::empty(),
    {
        proof {
            reveal_strlit("");
        }
        Self::new(CODE_INVALID_COMPRESSION_LEVEL, location, compression_level, "", "")
    }

    pub fn fail_to_invoke_callback(location: &str, callback_name: &str, upstream_error: &str) -> (r: Self)
        ensures
            r.code == CODE_FAIL_TO_INVOKE_CALLBACK,
            r.arg0@ == location@,
            r.arg1@ == callback_name@,
            r.arg2@ == upstream_error@,
            r.arg3@ == Seq::<char>::empty(),
    {
        proof {
            reveal_strlit("");
        }
        Self::new(CODE_FAIL_TO_INVOKE_CALLBACK, location, callback_name, upstream_error, "")
    }

    pub fn fail_to_create_writer(location: &str, upstream_error: &str) -> (r: Self)
        ensures
            r.code == CODE_FAIL_TO_CREATE_WRITER,
            r.arg0@ == location@,
            r.arg1@ == upstream_error@,
            r.arg2@ == Seq::<char>::empty(),
            r.arg3@ == Seq::<char>::empty(),
    {
        proof {
            reveal_strlit("");
        }
        Self::new(CODE_FAIL_TO_CREATE_WRITER, location, upstream_error, "", "")
    }

    pub fn can_not_transform_directory(location: &str, path: &str) -> (r: Self)
        ensures
            r.code == CODE_CAN_NOT_TRANSFORM_DIRECTORY,
            r.arg0@ == location@,
            r.arg1@ == path@,
            r.arg2@ == Seq::<char>::empty(),
            r.arg3@ == Seq::<char>::empty(),
    {
        proof {
            reveal_strlit("");
        }
        Self::new(CODE_CAN_NOT_TRANSFORM_DIRECTORY, location, path, "", "")
    }

    pub fn file_name_too_long(location: &str, path: &str) -> (r: Self)
        ensures
            r.code == CODE_FILE_NAME_TOO_LONG,
            r.arg0@ == location@,
            r.arg1@ == path@,
            r.arg2@ == Seq::<char>::empty(),
            r.arg3@ == Seq::<char>::empty(),
    {
        proof {
            reveal_strlit("");
        }
        Self::new(CODE_FILE_NAME_TOO_LONG, location, path, "", "")
    }

    pub fn archive_too_large(location: &str) -> (r: Self)
        ensures
            r.code == CODE_ARCHIVE_TOO_LARGE,
            r.arg0@ == location@,
            r.arg1@ == Seq::<char>::empty(),
            r.arg2@ == Seq::<char>::empty(),
            r.arg3@ == Seq::<char>::empty(),
    {
        proof {
            reveal_strlit("");
        }
        Self::new(CODE_ARCHIVE_TOO_LARGE, location, "", "", "")
    }
}

} // verus!
