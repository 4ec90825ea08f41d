use vstd::prelude::*;
use crate::target_spec::{Target, TargetMetadata, appended, frame_handler_alias};

verus! {

/// The 32-bit rust9x target, derived from `base`, the 32-bit MSVC Windows
/// target: vendor `rust9x`, the frame-handler alias for old MSVC runtimes
/// (for the MSVC linker and for LLD in its MSVC flavour), and tier 4 metadata
/// with the standard library and without host tools.
pub fn target(base: Target) -> (r: Target)
    ensures
        r.vendor@ == "rust9x"@,
        appended(r.msvc_pre_link_args@, base.msvc_pre_link_args@, frame_handler_alias()),
        appended(r.msvc_lld_pre_link_args@, base.msvc_lld_pre_link_args@, frame_handler_alias()),
        r.plt_by_default == base.plt_by_default,
        r.max_atomic_width == base.max_atomic_width,
        r.metadata.description matches Some(d) && d@ == "32-bit MSVC rust9x (Windows 95/NT3.51+)"@,
        r.metadata.tier == Some(4u64),
        r.metadata.host_tools == Some(false),
        r.metadata.std_support == Some(true),
{
    let mut base = base;
    base.vendor = "rust9x".to_string();
    base.add_msvc_pre_link_arg("/ALTERNATENAME:___CxxFrameHandler3=___CxxFrameHandler");
    base.metadata = TargetMetadata {
        description: Some("32-bit MSVC rust9x (Windows 95/NT3.51+)".to_string()),
        tier: Some(4),
        host_tools: Some(false),
        std_support: Some(true),
    };
    base
}

} // verus!
