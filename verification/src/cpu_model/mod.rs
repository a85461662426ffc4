//! Stable guest CPUID profiles for named CPU models.
pub mod apply;
pub mod brand;
pub mod documented;
pub mod error;
pub mod guest;
pub mod laws;
pub mod profile;
