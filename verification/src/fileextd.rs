//! The decisions of the emulated `GetFileInformationByHandleEx` and
//! `SetFileInformationByHandle`, which map a Win32 information class onto
//! the NT native information class that has existed since early NT versions.
use vstd::prelude::*;
use crate::c::{
    NTSTATUS, STATUS_PENDING, ERROR_BAD_LENGTH, ERROR_INVALID_PARAMETER,
    ERROR_CALL_NOT_IMPLEMENTED, nt_success,
};

verus! {

// Win32 information classes (`FILE_INFO_BY_HANDLE_CLASS`).
/// `FileBasicInfo`.
pub const FileBasicInfo: i32 = 0;
/// `FileNameInfo`.
pub const FileNameInfo: i32 = 2;
/// `FileDispositionInfo`.
pub const FileDispositionInfo: i32 = 4;
/// `FileEndOfFileInfo`.
pub const FileEndOfFileInfo: i32 = 6;
/// `FileAttributeTagInfo`.
pub const FileAttributeTagInfo: i32 = 9;
/// `FileFullDirectoryInfo`.
pub const FileFullDirectoryInfo: i32 = 14;
/// `FileFullDirectoryRestartInfo`.
pub const FileFullDirectoryRestartInfo: i32 = 15;
/// `FileDispositionInfoEx`.
pub const FileDispositionInfoEx: i32 = 21;

// NT native information classes (`FILE_INFORMATION_CLASS`).
/// `FileFullDirectoryInformation`.
pub const FileFullDirectoryInformation: i32 = 2;
/// `FileBasicInformation`.
pub const FileBasicInformation: i32 = 4;
/// `FileNameInformation`.
pub const FileNameInformation: i32 = 9;
/// `FileDispositionInformation`.
pub const FileDispositionInformation: i32 = 13;
/// `FileEndOfFileInformation`.
pub const FileEndOfFileInformation: i32 = 20;
/// `FileAttributeTagInformation`.
pub const FileAttributeTagInformation: i32 = 35;
/// `FileDispositionInformationEx`.
pub const FileDispositionInformationEx: i32 = 64;

// Sizes in bytes of the information structures.
/// `FILE_BASIC_INFO`: four 64-bit times and a 32-bit attribute word, padded
/// to 8 bytes.
pub const SIZE_FILE_BASIC_INFO: u32 = 40;
/// `FILE_NAME_INFO`: a 32-bit length and the first UTF-16 unit, padded to 4
/// bytes.
pub const SIZE_FILE_NAME_INFO: u32 = 8;
/// `FILE_ATTRIBUTE_TAG_INFO`: two 32-bit words.
pub const SIZE_FILE_ATTRIBUTE_TAG_INFO: u32 = 8;
/// `FILE_FULL_DIR_INFO`: two 32-bit words, six 64-bit values, three 32-bit
/// words and the first UTF-16 unit, padded to 8 bytes.
pub const SIZE_FILE_FULL_DIR_INFO: u32 = 72;
/// `FILE_END_OF_FILE_INFO`: one 64-bit offset.
pub const SIZE_FILE_END_OF_FILE_INFO: u32 = 8;
/// `FILE_DISPOSITION_INFO`: one byte-sized boolean.
pub const SIZE_FILE_DISPOSITION_INFO: u32 = 1;
/// `FILE_DISPOSITION_INFO_EX`: one 32-bit flag word.
pub const SIZE_FILE_DISPOSITION_INFO_EX: u32 = 4;

/// How to answer a query: the NT information class, the smallest buffer that
/// holds its structure, and, for a directory listing (queried with
/// `NtQueryDirectoryFile` rather than `NtQueryInformationFile`), whether the
/// scan restarts.
#[derive(Clone, Copy, PartialEq, Eq, Debug)]
pub struct QueryPlan {
    pub class: i32,
    pub min_buffer_size: u32,
    pub restart_scan: Option<bool>,
}

/// How to carry out an update: the NT information class and the smallest
/// buffer that holds its structure.
#[derive(Clone, Copy, PartialEq, Eq, Debug)]
pub struct SetPlan {
    pub class: i32,
    pub min_buffer_size: u32,
}

/// The query classes the emulation supports, and how each is answered.
pub open spec fn query_class(class: i32) -> Option<QueryPlan> {
    if class == FileBasicInfo {
        Some(QueryPlan { class: FileBasicInformation, min_buffer_size: SIZE_FILE_BASIC_INFO, restart_scan: None })
    } else if class == FileNameInfo {
        Some(QueryPlan { class: FileNameInformation, min_buffer_size: SIZE_FILE_NAME_INFO, restart_scan: None })
    } else if class == FileAttributeTagInfo {
        Some(QueryPlan { class: FileAttributeTagInformation, min_buffer_size: SIZE_FILE_ATTRIBUTE_TAG_INFO, restart_scan: None })
    } else if class == FileFullDirectoryInfo {
        Some(QueryPlan { class: FileFullDirectoryInformation, min_buffer_size: SIZE_FILE_FULL_DIR_INFO, restart_scan: Some(false) })
    } else if class == FileFullDirectoryRestartInfo {
        Some(QueryPlan { class: FileFullDirectoryInformation, min_buffer_size: SIZE_FILE_FULL_DIR_INFO, restart_scan: Some(true) })
    } else {
        None
    }
}

/// The update classes the emulation supports, and how each is carried out.
pub open spec fn set_class(class: i32) -> Option<SetPlan> {
    if class == FileBasicInfo {
        Some(SetPlan { class: FileBasicInformation, min_buffer_size: SIZE_FILE_BASIC_INFO })
    } else if class == FileEndOfFileInfo {
        Some(SetPlan { class: FileEndOfFileInformation, min_buffer_size: SIZE_FILE_END_OF_FILE_INFO })
    } else if class == FileDispositionInfo {
        Some(SetPlan { class: FileDispositionInformation, min_buffer_size: SIZE_FILE_DISPOSITION_INFO })
    } else if class == FileDispositionInfoEx {
        Some(SetPlan { class: FileDispositionInformationEx, min_buffer_size: SIZE_FILE_DISPOSITION_INFO_EX })
    } else {
        None
    }
}

/// The outcome of the checks of `GetFileInformationByHandleEx`.
pub open spec fn get_information_plan(is_nt: bool, class: i32, buffer_size: u32) -> Result<QueryPlan, u32> {
    if !is_nt {
        Err(ERROR_CALL_NOT_IMPLEMENTED)
    } else {
        match query_class(class) {
            None => Err(ERROR_INVALID_PARAMETER),
            Some(p) => if buffer_size < p.min_buffer_size {
                Err(ERROR_BAD_LENGTH)
            } else {
                Ok(p)
            },
        }
    }
}

/// The outcome of the checks of `SetFileInformationByHandle`.
pub open spec fn set_information_plan(is_nt: bool, class: i32, buffer_size: u32) -> Result<SetPlan, u32> {
    if !is_nt {
        Err(ERROR_CALL_NOT_IMPLEMENTED)
    } else {
        match set_class(class) {
            None => Err(ERROR_INVALID_PARAMETER),
            Some(p) => if buffer_size < p.min_buffer_size {
                Err(ERROR_BAD_LENGTH)
            } else {
                Ok(p)
            },
        }
    }
}

fn lookup_query_class(class: i32) -> (r: Option<QueryPlan>)
    ensures
        r == query_class(class),
{
    if class == FileBasicInfo {
        Some(QueryPlan { class: FileBasicInformation, min_buffer_size: SIZE_FILE_BASIC_INFO, restart_scan: None })
    } else if class == FileNameInfo {
        Some(QueryPlan { class: FileNameInformation, min_buffer_size: SIZE_FILE_NAME_INFO, restart_scan: None })
    } else if class == FileAttributeTagInfo {
        Some(QueryPlan { class: FileAttributeTagInformation, min_buffer_size: SIZE_FILE_ATTRIBUTE_TAG_INFO, restart_scan: None })
    } else if class == FileFullDirectoryInfo {
        Some(QueryPlan { class: FileFullDirectoryInformation, min_buffer_size: SIZE_FILE_FULL_DIR_INFO, restart_scan: Some(false) })
    } else if class == FileFullDirectoryRestartInfo {
        Some(QueryPlan { class: FileFullDirectoryInformation, min_buffer_size: SIZE_FILE_FULL_DIR_INFO, restart_scan: Some(true) })
    } else {
        None
    }
}

fn lookup_set_class(class: i32) -> (r: Option<SetPlan>)
    ensures
        r == set_class(class),
{
    if class == FileBasicInfo {
        Some(SetPlan { class: FileBasicInformation, min_buffer_size: SIZE_FILE_BASIC_INFO })
    } else if class == FileEndOfFileInfo {
        Some(SetPlan { class: FileEndOfFileInformation, min_buffer_size: SIZE_FILE_END_OF_FILE_INFO })
    } else if class == FileDispositionInfo {
        Some(SetPlan { class: FileDispositionInformation, min_buffer_size: SIZE_FILE_DISPOSITION_INFO })
    } else if class == FileDispositionInfoEx {
        Some(SetPlan { class: FileDispositionInformationEx, min_buffer_size: SIZE_FILE_DISPOSITION_INFO_EX })
    } else {
        None
    }
}

/// The checks of `GetFileInformationByHandleEx` before any NT call: the NT
/// native API must be there (else `ERROR_CALL_NOT_IMPLEMENTED`), the class
/// must be supported (else `ERROR_INVALID_PARAMETER`) and the buffer must hold
/// its structure (else `ERROR_BAD_LENGTH`); the error is the Win32 error that
/// the call sets as the last error before failing.
pub fn plan_get_file_information(is_nt: bool, class: i32, buffer_size: u32) -> (r: Result<QueryPlan, u32>)
    ensures
        r == get_information_plan(is_nt, class, buffer_size),
{
    if !is_nt {
        return Err(ERROR_CALL_NOT_IMPLEMENTED);
    }
    match lookup_query_class(class) {
        None => Err(ERROR_INVALID_PARAMETER),
        Some(p) => {
            if buffer_size < p.min_buffer_size {
                Err(ERROR_BAD_LENGTH)
            } else {
                Ok(p)
            }
        },
    }
}

/// The checks of `SetFileInformationByHandle` before the NT call, with the
/// same errors as [`plan_get_file_information`].
pub fn plan_set_file_information(is_nt: bool, class: i32, buffer_size: u32) -> (r: Result<SetPlan, u32>)
    ensures
        r == set_information_plan(is_nt, class, buffer_size),
{
    if !is_nt {
        return Err(ERROR_CALL_NOT_IMPLEMENTED);
    }
    match lookup_set_class(class) {
        None => Err(ERROR_INVALID_PARAMETER),
        Some(p) => {
            if buffer_size < p.min_buffer_size {
                Err(ERROR_BAD_LENGTH)
            } else {
                Ok(p)
            }
        },
    }
}

/// Whether the query must wait on the file handle for its completion: the NT
/// call reported `STATUS_PENDING`.
pub fn query_must_wait(status: NTSTATUS) -> (r: bool)
    ensures
        r == (status == STATUS_PENDING),
{
    status == STATUS_PENDING
}

/// The outcome of the final NT status: success, or the failing status, which
/// the caller converts to the last Win32 error.
pub fn information_outcome(status: NTSTATUS) -> (r: Result<(), NTSTATUS>)
    ensures
        r is Ok <==> status >= 0,
        r matches Err(e) ==> e == status,
{
    if nt_success(status) {
        Ok(())
    } else {
        Err(status)
    }
}

/// Every supported query is answered through an NT class with a non-empty
/// structure, and exactly the directory classes go through the directory
/// API; of the two, only the restart class restarts the scan.
pub proof fn lemma_query_classes(class: i32)
    ensures
        query_class(class) matches Some(p) ==> p.min_buffer_size > 0,
        query_class(class) matches Some(p) ==> (p.restart_scan is Some <==> p.class == FileFullDirectoryInformation),
        query_class(class) matches Some(p) ==> (p.restart_scan == Some(true) <==> class == FileFullDirectoryRestartInfo),
{
}

/// A larger buffer never turns an accepted request into a refused one, and a
/// refused request whose class is supported is refused only for its length.
pub proof fn lemma_larger_buffer_keeps_plan(class: i32, small: u32, large: u32)
    requires
        small <= large,
    ensures
        get_information_plan(true, class, small) is Ok ==> get_information_plan(true, class, large) == get_information_plan(true, class, small),
        set_information_plan(true, class, small) is Ok ==> set_information_plan(true, class, large) == set_information_plan(true, class, small),
        query_class(class) is Some && get_information_plan(true, class, small) is Err ==> get_information_plan(true, class, small) == Err::<QueryPlan, u32>(ERROR_BAD_LENGTH),
{
}

} // verus!
