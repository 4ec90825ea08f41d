use rust9x_sys::c::{ERROR_BAD_LENGTH, ERROR_CALL_NOT_IMPLEMENTED, ERROR_INVALID_PARAMETER, STATUS_PENDING};
use rust9x_sys::fileextd::{
    information_outcome, plan_get_file_information, plan_set_file_information, query_must_wait,
    QueryPlan, SetPlan, FileAttributeTagInfo, FileAttributeTagInformation, FileBasicInfo,
    FileBasicInformation, FileDispositionInfo, FileDispositionInfoEx, FileDispositionInformation,
    FileDispositionInformationEx, FileEndOfFileInfo, FileEndOfFileInformation,
    FileFullDirectoryInfo, FileFullDirectoryInformation, FileFullDirectoryRestartInfo,
    FileNameInfo, FileNameInformation,
};
use rust9x_sys::random::next_chunk_len;
use rust9x_sys::target_spec::{Target, TargetMetadata};
use rust9x_sys::thread_parking::{thread_parking_impl, ThreadParkingImpl};
use rust9x_sys::targets::{i686_rust9x_windows_msvc, x86_64_rust9x_windows_msvc};

#[test]
fn get_plan_errors() {
    assert_eq!(plan_get_file_information(false, FileBasicInfo, 1000), Err(ERROR_CALL_NOT_IMPLEMENTED));
    assert_eq!(plan_get_file_information(true, 1, 1000), Err(ERROR_INVALID_PARAMETER));
    assert_eq!(plan_get_file_information(true, FileDispositionInfo, 1000), Err(ERROR_INVALID_PARAMETER));
    assert_eq!(plan_get_file_information(true, FileBasicInfo, 39), Err(ERROR_BAD_LENGTH));
    assert_eq!(plan_get_file_information(true, FileFullDirectoryInfo, 71), Err(ERROR_BAD_LENGTH));
}

#[test]
fn get_plan_classes() {
    assert_eq!(
        plan_get_file_information(true, FileBasicInfo, 40),
        Ok(QueryPlan { class: FileBasicInformation, min_buffer_size: 40, restart_scan: None })
    );
    assert_eq!(
        plan_get_file_information(true, FileNameInfo, 600),
        Ok(QueryPlan { class: FileNameInformation, min_buffer_size: 8, restart_scan: None })
    );
    assert_eq!(
        plan_get_file_information(true, FileAttributeTagInfo, 8),
        Ok(QueryPlan { class: FileAttributeTagInformation, min_buffer_size: 8, restart_scan: None })
    );
    assert_eq!(
        plan_get_file_information(true, FileFullDirectoryInfo, 4096),
        Ok(QueryPlan { class: FileFullDirectoryInformation, min_buffer_size: 72, restart_scan: Some(false) })
    );
    assert_eq!(
        plan_get_file_information(true, FileFullDirectoryRestartInfo, 72),
        Ok(QueryPlan { class: FileFullDirectoryInformation, min_buffer_size: 72, restart_scan: Some(true) })
    );
}

#[test]
fn set_plan_classes_and_errors() {
    assert_eq!(plan_set_file_information(false, FileBasicInfo, 40), Err(ERROR_CALL_NOT_IMPLEMENTED));
    assert_eq!(plan_set_file_information(true, FileNameInfo, 40), Err(ERROR_INVALID_PARAMETER));
    assert_eq!(plan_set_file_information(true, FileEndOfFileInfo, 7), Err(ERROR_BAD_LENGTH));
    assert_eq!(plan_set_file_information(true, FileDispositionInfo, 0), Err(ERROR_BAD_LENGTH));
    assert_eq!(
        plan_set_file_information(true, FileBasicInfo, 40),
        Ok(SetPlan { class: FileBasicInformation, min_buffer_size: 40 })
    );
    assert_eq!(
        plan_set_file_information(true, FileEndOfFileInfo, 8),
        Ok(SetPlan { class: FileEndOfFileInformation, min_buffer_size: 8 })
    );
    assert_eq!(
        plan_set_file_information(true, FileDispositionInfo, 1),
        Ok(SetPlan { class: FileDispositionInformation, min_buffer_size: 1 })
    );
    assert_eq!(
        plan_set_file_information(true, FileDispositionInfoEx, 4),
        Ok(SetPlan { class: FileDispositionInformationEx, min_buffer_size: 4 })
    );
}

#[test]
fn status_handling() {
    assert!(query_must_wait(STATUS_PENDING));
    assert!(!query_must_wait(0));
    assert_eq!(information_outcome(0), Ok(()));
    assert_eq!(information_outcome(STATUS_PENDING), Ok(()));
    assert_eq!(information_outcome(-5), Err(-5));
}

#[test]
fn random_chunks() {
    assert_eq!(next_chunk_len(0), 0);
    assert_eq!(next_chunk_len(16), 16);
    assert_eq!(next_chunk_len(u32::MAX as usize), u32::MAX);
    if usize::BITS > 32 {
        assert_eq!(next_chunk_len(u32::MAX as usize + 1), u32::MAX);
        assert_eq!(next_chunk_len(usize::MAX), u32::MAX);
    }
}

#[test]
fn random_chunks_cover_buffer() {
    let mut remaining: usize = 10_000_000_000usize.min(usize::MAX);
    let total = remaining;
    let mut filled: usize = 0;
    let mut calls = 0;
    while remaining > 0 {
        let len = next_chunk_len(remaining) as usize;
        assert!(len > 0);
        filled += len;
        remaining -= len;
        calls += 1;
    }
    assert_eq!(filled, total);
    if usize::BITS > 32 {
        assert_eq!(calls, 3);
    }
}

#[test]
fn thread_parking_choice_is_cached() {
    let mut cache = None;
    assert_eq!(thread_parking_impl(&mut cache, true, true, true), ThreadParkingImpl::KeyedEvent);
    assert_eq!(cache, Some(ThreadParkingImpl::KeyedEvent));
    assert_eq!(thread_parking_impl(&mut cache, false, false, false), ThreadParkingImpl::KeyedEvent);
    let mut cache = None;
    assert_eq!(thread_parking_impl(&mut cache, true, false, true), ThreadParkingImpl::Generic);
    assert_eq!(thread_parking_impl(&mut cache, true, true, true), ThreadParkingImpl::Generic);
    let mut cache = None;
    assert_eq!(thread_parking_impl(&mut cache, true, true, false), ThreadParkingImpl::Generic);
}

fn base_target() -> Target {
    Target {
        vendor: "pc".to_string(),
        msvc_pre_link_args: vec!["/LARGEADDRESSAWARE".to_string()],
        msvc_lld_pre_link_args: vec![],
        plt_by_default: true,
        max_atomic_width: None,
        metadata: TargetMetadata { description: None, tier: Some(1), host_tools: Some(true), std_support: Some(true) },
    }
}

#[test]
fn i686_target() {
    let t = i686_rust9x_windows_msvc::target(base_target());
    assert_eq!(t.vendor, "rust9x");
    assert_eq!(
        t.msvc_pre_link_args,
        vec!["/LARGEADDRESSAWARE".to_string(), "/ALTERNATENAME:___CxxFrameHandler3=___CxxFrameHandler".to_string()]
    );
    assert_eq!(
        t.msvc_lld_pre_link_args,
        vec!["/ALTERNATENAME:___CxxFrameHandler3=___CxxFrameHandler".to_string()]
    );
    assert!(t.plt_by_default);
    assert_eq!(t.max_atomic_width, None);
    assert_eq!(t.metadata.description.as_deref(), Some("32-bit MSVC rust9x (Windows 95/NT3.51+)"));
    assert_eq!(t.metadata.tier, Some(4));
    assert_eq!(t.metadata.host_tools, Some(false));
    assert_eq!(t.metadata.std_support, Some(true));
}

#[test]
fn x86_64_target() {
    let t = x86_64_rust9x_windows_msvc::target(base_target());
    assert_eq!(t.vendor, "rust9x");
    assert_eq!(t.msvc_pre_link_args.len(), 2);
    assert_eq!(t.msvc_pre_link_args[1], "/ALTERNATENAME:___CxxFrameHandler3=___CxxFrameHandler");
    assert_eq!(t.msvc_lld_pre_link_args.len(), 1);
    assert_eq!(t.msvc_lld_pre_link_args[0], "/ALTERNATENAME:___CxxFrameHandler3=___CxxFrameHandler");
    assert!(!t.plt_by_default);
    assert_eq!(t.max_atomic_width, Some(64));
    assert_eq!(t.metadata.description.as_deref(), Some("64-bit MSVC rust9x (Windows XP 64bit+)"));
    assert_eq!(t.metadata.tier, Some(4));
    assert_eq!(t.metadata.host_tools, Some(false));
    assert_eq!(t.metadata.std_support, Some(true));
}
