//! The part of a compiler target description that the rust9x targets set.
use vstd::prelude::*;

verus! {

/// Descriptive metadata of a target.
pub struct TargetMetadata {
    /// A short description.
    pub description: Option<String>,
    /// The support tier.
    pub tier: Option<u64>,
    /// Whether the host tools are built for the target.
    pub host_tools: Option<bool>,
    /// Whether the standard library is available.
    pub std_support: Option<bool>,
}

/// A compiler target description, as far as the rust9x targets change it.
pub struct Target {
    /// The vendor component of the target name.
    pub vendor: String,
    /// Arguments passed before all others to the MSVC linker (without LLD).
    pub msvc_pre_link_args: Vec<String>,
    /// Arguments passed before all others to LLD in its MSVC flavour.
    pub msvc_lld_pre_link_args: Vec<String>,
    /// Whether calls go through the procedure linkage table by default.
    pub plt_by_default: bool,
    /// The widest atomic operation supported, in bits.
    pub max_atomic_width: Option<u64>,
    /// Descriptive metadata.
    pub metadata: TargetMetadata,
}

/// The linker argument that makes MSVC runtimes of Windows XP and earlier
/// usable: it links `___CxxFrameHandler3` to `___CxxFrameHandler`.
pub open spec fn frame_handler_alias() -> Seq<char> {
    "/ALTERNATENAME:___CxxFrameHandler3=___CxxFrameHandler"@
}

/// `args` is `before` with `arg` appended.
pub open spec fn appended(args: Seq<String>, before: Seq<String>, arg: Seq<char>) -> bool {
    &&& args.len() == before.len() + 1
    &&& forall|i: int| 0 <= i < before.len() ==> args[i] == before[i]
    &&& args.last()@ == arg
}

impl Target {
    /// Appends `arg` to the arguments passed first to the MSVC linker, which
    /// LLD in its MSVC flavour receives as well.
    pub fn add_msvc_pre_link_arg(&mut self, arg: &str)
        ensures
            appended(final(self).msvc_pre_link_args@, old(self).msvc_pre_link_args@, arg@),
            appended(final(self).msvc_lld_pre_link_args@, old(self).msvc_lld_pre_link_args@, arg@),
            final(self).vendor == old(self).vendor,
            final(self).plt_by_default == old(self).plt_by_default,
            final(self).max_atomic_width == old(self).max_atomic_width,
            final(self).metadata == old(self).metadata,
    {
        self.msvc_pre_link_args.push(arg.to_string());
        self.msvc_lld_pre_link_args.push(arg.to_string());
    }
}

} // verus!
