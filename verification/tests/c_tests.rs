use rust9x_sys::c::{
    nt_success, IO_STATUS_BLOCK, OBJECT_ATTRIBUTES, UNICODE_STRING, STATUS_PENDING, STATUS_SUCCESS,
};

#[test]
fn nt_success_splits_on_sign() {
    assert!(nt_success(STATUS_SUCCESS));
    assert!(nt_success(STATUS_PENDING));
    assert!(nt_success(i32::MAX));
    assert!(!nt_success(-1));
    assert!(!nt_success(0xC000_0005u32 as i32));
    assert!(!nt_success(i32::MIN));
}

#[test]
fn from_ref_counts_bytes() {
    let units: Vec<u16> = "C:\\foo".encode_utf16().collect();
    let s = UNICODE_STRING::from_ref(&units);
    assert_eq!(s.Length, 12);
    assert_eq!(s.MaximumLength, 12);
    assert_eq!(s.Buffer, &units[..]);
}

#[test]
fn from_ref_empty() {
    let units: [u16; 0] = [];
    let s = UNICODE_STRING::from_ref(&units);
    assert_eq!(s.Length, 0);
    assert_eq!(s.MaximumLength, 0);
    assert!(s.Buffer.is_empty());
}

#[test]
fn from_ref_truncates_to_sixteen_bits() {
    let units = vec![0u16; 32768];
    assert_eq!(UNICODE_STRING::from_ref(&units).Length, 0);
    let units = vec![0u16; 32769];
    assert_eq!(UNICODE_STRING::from_ref(&units).Length, 2);
    let units = vec![0u16; 32767];
    assert_eq!(UNICODE_STRING::from_ref(&units).MaximumLength, 65534);
}

#[test]
fn object_attributes_default_is_empty() {
    let a = OBJECT_ATTRIBUTES::default();
    assert_eq!(a.Length as usize, 6 * std::mem::size_of::<usize>());
    assert_eq!(a.RootDirectory, 0);
    assert_eq!(a.ObjectName, 0);
    assert_eq!(a.Attributes, 0);
    assert_eq!(a.SecurityDescriptor, 0);
    assert_eq!(a.SecurityQualityOfService, 0);
}

#[test]
fn io_status_block_pending() {
    let b = IO_STATUS_BLOCK::pending();
    assert_eq!(b.status(), STATUS_PENDING);
    assert_eq!(b.status(), 0x103);
    assert_eq!(b.Information, 0);
}

use rust9x_sys::c::{
    join_position, set_file_pointer_ex_result, set_file_pointer_failed, split_distance,
    INVALID_SET_FILE_POINTER, NO_ERROR,
};

#[test]
fn split_distance_halves() {
    assert_eq!(split_distance(0), (0, 0));
    assert_eq!(split_distance(5), (5, 0));
    assert_eq!(split_distance(-1), (-1, -1));
    assert_eq!(split_distance(0x1_0000_0002), (2, 1));
    assert_eq!(split_distance(0xffff_ffff), (-1, 0));
    assert_eq!(split_distance(i64::MIN), (0, i32::MIN));
    assert_eq!(split_distance(i64::MAX), (-1, i32::MAX));
}

#[test]
fn join_position_halves() {
    assert_eq!(join_position(0, 0), 0);
    assert_eq!(join_position(1, 2), 0x1_0000_0002);
    assert_eq!(join_position(-1, u32::MAX), -1);
    assert_eq!(join_position(0, u32::MAX), 0xffff_ffff);
    assert_eq!(join_position(i32::MIN, 0), i64::MIN);
    for d in [0i64, 1, -1, 12345678901, -98765432109, i64::MIN, i64::MAX] {
        let (low, high) = split_distance(d);
        assert_eq!(join_position(high, low as u32), d);
    }
}

#[test]
fn set_file_pointer_failure_needs_error() {
    assert!(set_file_pointer_failed(INVALID_SET_FILE_POINTER, 87));
    assert!(!set_file_pointer_failed(INVALID_SET_FILE_POINTER, NO_ERROR));
    assert!(!set_file_pointer_failed(0, 87));
    assert_eq!(set_file_pointer_ex_result(INVALID_SET_FILE_POINTER, 0, 87), None);
    assert_eq!(set_file_pointer_ex_result(INVALID_SET_FILE_POINTER, 0, NO_ERROR), Some(0xffff_ffff));
    assert_eq!(set_file_pointer_ex_result(16, 2, 0), Some(0x2_0000_0010));
}
