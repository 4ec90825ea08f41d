use vstd::prelude::*;
use crate::target_spec::{Target, TargetMetadata, appended, frame_handler_alias};

verus! {

/// The 64-bit rust9x target, derived from `base`, the 64-bit MSVC Windows
/// target: no PLT by default, 64-bit atomics at most, vendor `rust9x`, the
/// frame-handler alias for old MSVC runtimes (for the MSVC linker and for LLD
/// in its MSVC flavour), and tier 4 metadata with the
/// standard library and without host tools.
pub fn target(base: Target) -> (r: Target)
    ensures
        r.vendor@ == "rust9x"@,
        appended(r.msvc_pre_link_args@, base.msvc_pre_link_args@, frame_handler_alias()),
        appended(r.msvc_lld_pre_link_args@, base.msvc_lld_pre_link_args@, frame_handler_alias()),
        r.plt_by_default == false,
        r.max_atomic_width == Some(64u64),
        r.metadata.description matches Some(d) && d@ == "64-bit MSVC rust9x (Windows XP 64bit+)"@,
        r.metadata.tier == Some(4u64),
        r.metadata.host_tools == Some(false),
        r.metadata.std_support == Some(true),
{
    let mut base = base;
    base.plt_by_default = false;
    base.max_atomic_width = Some(64);
    base.vendor = "rust9x".to_string();
    base.add_msvc_pre_link_arg("/ALTERNATENAME:___CxxFrameHandler3=___CxxFrameHandler");
    base.metadata = TargetMetadata {
        description: Some("64-bit MSVC rust9x (Windows XP 64bit+)".to_string()),
        tier: Some(4),
        host_tools: Some(false),
        std_support: Some(true),
    };
    base
}

} // verus!
