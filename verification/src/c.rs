use vstd::prelude::*;

verus! {

/// `NTSTATUS`: a signed 32-bit status code of the NT native API.
pub type NTSTATUS = i32;

/// A UTF-16 code unit.
pub type WCHAR = u16;

/// `STATUS_SUCCESS`.
pub const STATUS_SUCCESS: NTSTATUS = 0;

/// `STATUS_PENDING`: the operation is still in progress.
pub const STATUS_PENDING: NTSTATUS = 0x103;

/// Process exit code of a successful run.
pub const EXIT_SUCCESS: u32 = 0;

/// Process exit code of a failed run.
pub const EXIT_FAILURE: u32 = 1;

/// Value returned by an exception filter that passes the exception on.
pub const EXCEPTION_CONTINUE_SEARCH: i32 = 0;

/// `INVALID_HANDLE_VALUE`, the handle `-1`, as an address.
pub const INVALID_HANDLE_VALUE: usize = usize::MAX;

/// Win32 error `ERROR_BAD_LENGTH`.
pub const ERROR_BAD_LENGTH: u32 = 24;

/// Win32 error `ERROR_INVALID_PARAMETER`.
pub const ERROR_INVALID_PARAMETER: u32 = 87;

/// Win32 error `ERROR_CALL_NOT_IMPLEMENTED`.
pub const ERROR_CALL_NOT_IMPLEMENTED: u32 = 120;

/// Win32 error `ERROR_TIMEOUT`.
pub const ERROR_TIMEOUT: u32 = 1460;

/// `NO_ERROR`: the last Win32 error when nothing failed.
pub const NO_ERROR: u32 = 0;

/// `INVALID_SET_FILE_POINTER`: what `SetFilePointer` returns on failure, and
/// also the low half of a valid position.
pub const INVALID_SET_FILE_POINTER: u32 = 0xffff_ffff;

/// The 64-bit value whose high 32 bits are `high` (signed) and whose low 32
/// bits are `low`.
pub open spec fn joined(high: i32, low: u32) -> int {
    high as int * 0x1_0000_0000 + low as int
}

/// The low half of a distance, as `SetFilePointer` takes it: its low 32 bits.
pub open spec fn distance_low(distance: i64) -> i32 {
    distance as i32
}

/// The high half of a distance, as `SetFilePointer` takes it: the distance
/// shifted right by 32 bits, sign kept.
pub open spec fn distance_high(distance: i64) -> i32 {
    (distance >> 32i64) as i32
}

/// Splits the 64-bit distance of `SetFilePointerEx` into the low and high
/// halves that `SetFilePointer` takes.
pub fn split_distance(distance: i64) -> (r: (i32, i32))
    ensures
        r == (distance_low(distance), distance_high(distance)),
        joined(r.1, r.0 as u32) == distance,
{
    let low: i32 = distance as i32;
    let high: i32 = (distance >> 32i64) as i32;
    assert(((distance >> 32i64) as i32) as int * 0x1_0000_0000int + ((distance as i32) as u32) as int
        == distance as int) by (bit_vector);
    (low, high)
}

/// Joins the high half that `SetFilePointer` wrote back and the low half it
/// returned into the new 64-bit position.
pub fn join_position(high: i32, low: u32) -> (r: i64)
    ensures
        r == joined(high, low),
{
    let r: i64 = (high as i64) << 32i64 | (low as i64);
    assert(((high as i64) << 32i64 | (low as i64)) as int == high as int * 0x1_0000_0000int + low as int)
        by (bit_vector);
    r
}

/// Whether `SetFilePointer` failed: it returned `INVALID_SET_FILE_POINTER`
/// and the last error is set (that value alone can be a valid low half).
pub fn set_file_pointer_failed(new_pos_low: u32, last_error: u32) -> (r: bool)
    ensures
        r == (new_pos_low == INVALID_SET_FILE_POINTER && last_error != NO_ERROR),
{
    new_pos_low == INVALID_SET_FILE_POINTER && last_error != NO_ERROR
}

/// The outcome of `SetFilePointerEx` on `SetFilePointer`: `None` when the
/// call failed, else the new position from the returned low half and the
/// high half written back. `last_error` matters only where the low half is
/// `INVALID_SET_FILE_POINTER`.
pub fn set_file_pointer_ex_result(new_pos_low: u32, distance_high: i32, last_error: u32) -> (r: Option<i64>)
    ensures
        r == (if new_pos_low == INVALID_SET_FILE_POINTER && last_error != NO_ERROR {
            None
        } else {
            Some(joined(distance_high, new_pos_low) as i64)
        }),
{
    if set_file_pointer_failed(new_pos_low, last_error) {
        None
    } else {
        Some(join_position(distance_high, new_pos_low))
    }
}

/// Splitting a distance and joining the halves gives the distance back: a
/// move from the start of the file lands at the distance asked for.
pub proof fn lemma_split_join_round_trip(distance: i64)
    ensures
        joined(distance_high(distance), distance_low(distance) as u32) == distance,
{
    assert(((distance >> 32i64) as i32) as int * 0x1_0000_0000int + ((distance as i32) as u32) as int
        == distance as int) by (bit_vector);
}

/// Equivalent to the `NT_SUCCESS` C preprocessor macro: success and
/// informational codes are non-negative, warnings and errors negative.
pub fn nt_success(status: NTSTATUS) -> (r: bool)
    ensures
        r == (status >= 0),
{
    status >= 0
}

/// A counted UTF-16 string of the NT native API. `Length` and
/// `MaximumLength` count bytes; `Buffer` is the borrowed code units.
pub struct UNICODE_STRING<'a> {
    pub Length: u16,
    pub MaximumLength: u16,
    pub Buffer: &'a [u16],
}

/// The byte size of `n` UTF-16 code units, truncated to 16 bits as the
/// conversion to the `u16` length fields does.
pub open spec fn unicode_byte_length(n: nat) -> nat {
    (n * 2) % 0x10000
}

impl<'a> UNICODE_STRING<'a> {
    /// Describes `slice` as a counted string whose length and maximum length
    /// are both its size in bytes (truncated to 16 bits).
    pub fn from_ref(slice: &'a [u16]) -> (r: Self)
        ensures
            r.Length == unicode_byte_length(slice@.len()),
            r.MaximumLength == unicode_byte_length(slice@.len()),
            r.Buffer@ == slice@,
    {
        let n: usize = slice.len();
        let half: usize = n % 0x8000;
        let len: u16 = (half * 2) as u16;
        proof {
            let k: int = n as int / 0x8000;
            assert(n as int == k * 0x8000 + half as int);
            assert(n as int * 2 == k * 0x10000 + half as int * 2);
            vstd::arithmetic::div_mod::lemma_mod_multiples_vanish(k, half as int * 2, 0x10000);
            assert((half as int * 2) % 0x10000 == half as int * 2) by {
                vstd::arithmetic::div_mod::lemma_small_mod((half * 2) as nat, 0x10000);
            }
        }
        UNICODE_STRING { Length: len, MaximumLength: len, Buffer: slice }
    }
}

/// `OBJECT_ATTRIBUTES`, with its pointer and handle fields held as addresses
/// (`0` is the null pointer).
pub struct OBJECT_ATTRIBUTES {
    pub Length: u32,
    pub RootDirectory: usize,
    pub ObjectName: usize,
    pub Attributes: u32,
    pub SecurityDescriptor: usize,
    pub SecurityQualityOfService: usize,
}

/// The size in bytes of `OBJECT_ATTRIBUTES`: six pointer-sized words (the
/// two `u32` fields are each padded to a full word).
pub open spec fn object_attributes_size() -> nat {
    6 * vstd::layout::size_of::<usize>()
}

impl Default for OBJECT_ATTRIBUTES {
    /// Attributes with no root directory, name, flags or security, whose
    /// `Length` is the size of the structure.
    fn default() -> (r: Self)
        ensures
            r.Length == object_attributes_size(),
            r.RootDirectory == 0,
            r.ObjectName == 0,
            r.Attributes == 0,
            r.SecurityDescriptor == 0,
            r.SecurityQualityOfService == 0,
    {
        broadcast use vstd::layout::layout_of_primitives;
        let word: usize = core::mem::size_of::<usize>();
        assert(word == 4 || word == 8);
        let len: u32 = (6 * word) as u32;
        OBJECT_ATTRIBUTES {
            Length: len,
            RootDirectory: 0,
            ObjectName: 0,
            Attributes: 0,
            SecurityDescriptor: 0,
            SecurityQualityOfService: 0,
        }
    }
}

/// The status half of `IO_STATUS_BLOCK`: the union of `Status` and
/// `Pointer` is held by its status reading.
pub struct IO_STATUS_BLOCK_0 {
    pub Status: NTSTATUS,
}

/// `IO_STATUS_BLOCK`: the final status of an I/O request and the
/// request-dependent information word.
pub struct IO_STATUS_BLOCK {
    pub Anonymous: IO_STATUS_BLOCK_0,
    pub Information: usize,
}

impl IO_STATUS_BLOCK {
    /// The block of a request that is still pending.
    pub fn pending() -> (r: Self)
        ensures
            r.Anonymous.Status == STATUS_PENDING,
            r.Information == 0,
    {
        IO_STATUS_BLOCK { Anonymous: IO_STATUS_BLOCK_0 { Status: STATUS_PENDING }, Information: 0 }
    }

    /// The status of the request.
    pub fn status(&self) -> (r: NTSTATUS)
        ensures
            r == self.Anonymous.Status,
    {
        self.Anonymous.Status
    }
}

/// Header of a reparse point's data.
pub struct REPARSE_DATA_BUFFER {
    pub ReparseTag: u32,
    pub ReparseDataLength: u16,
    pub Reserved: u16,
    pub rest: (),
}

/// Reparse data of a symbolic link.
pub struct SYMBOLIC_LINK_REPARSE_BUFFER {
    pub SubstituteNameOffset: u16,
    pub SubstituteNameLength: u16,
    pub PrintNameOffset: u16,
    pub PrintNameLength: u16,
    pub Flags: u32,
    pub PathBuffer: WCHAR,
}

/// Reparse data of a mount point.
pub struct MOUNT_POINT_REPARSE_BUFFER {
    pub SubstituteNameOffset: u16,
    pub SubstituteNameLength: u16,
    pub PrintNameOffset: u16,
    pub PrintNameLength: u16,
    pub PathBuffer: WCHAR,
}

} // verus!
