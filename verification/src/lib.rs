//! Host-side rules for assembling an EFI bundle and for running bounded VM
//! observations. Everything here works on plain values; reading, writing and
//! launching belong to the program around it.
pub mod apls;
pub mod bundle;
pub mod efi;
pub mod report;
pub mod report_laws;
pub mod text;
pub mod text_laws;
