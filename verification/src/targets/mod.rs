//! The rust9x Windows targets.
pub mod i686_rust9x_windows_msvc;
pub mod x86_64_rust9x_windows_msvc;
