//! Where the parts of a bundle stand, and why one cannot be built.
use crate::efi::ImageError;
use crate::text;
use vstd::prelude::*;

verus! {

/// A file of the bundle.
#[derive(Debug, Clone, Copy, PartialEq, Eq, Structural)]
pub enum Output {
    /// The EFI application.
    Boot,
    /// The configuration.
    Config,
}

impl Output {
    /// The path of the file, from the directory of the bundle on.
    pub open spec fn place(self) -> Seq<char> {
        match self {
            Output::Boot => "EFI/BOOT/BOOTX64.EFI"@,
            Output::Config => "EFI/OC/config.plist"@,
        }
    }

    /// Gives the path of the file, from the directory of the bundle on.
    pub fn path(&self) -> (result: &'static str)
        ensures
            result@ == self.place(),
    {
        match self {
            Output::Boot => "EFI/BOOT/BOOTX64.EFI",
            Output::Config => "EFI/OC/config.plist",
        }
    }
}

/// A directory that the bundle must have.
#[derive(Debug, Clone, Copy, PartialEq, Eq, Structural)]
pub enum Directory {
    Boot,
    Acpi,
    Drivers,
    Kexts,
}

impl Directory {
    /// The path of the directory, from the directory of the bundle on.
    pub open spec fn place(self) -> Seq<char> {
        match self {
            Directory::Boot => "EFI/BOOT"@,
            Directory::Acpi => "EFI/OC/ACPI"@,
            Directory::Drivers => "EFI/OC/Drivers"@,
            Directory::Kexts => "EFI/OC/Kexts"@,
        }
    }

    /// Gives the path of the directory, from the directory of the bundle on.
    pub fn path(&self) -> (result: &'static str)
        ensures
            result@ == self.place(),
    {
        match self {
            Directory::Boot => "EFI/BOOT",
            Directory::Acpi => "EFI/OC/ACPI",
            Directory::Drivers => "EFI/OC/Drivers",
            Directory::Kexts => "EFI/OC/Kexts",
        }
    }
}

/// Why a bundle was not built.
#[derive(Debug, Clone, Copy, PartialEq, Eq, Structural)]
pub enum BundleError {
    ConfigUnreadable,
    ConfigUnparsable,
    ConfigInvalid,
    ImageUnreadable,
    ImageInvalid(ImageError),
    DestinationExists(Output),
    Uninspectable(Output),
    DirectoryNotCreated(Directory),
    NotCreated(Output),
    NotWritten(Output),
    NotFlushed(Output),
    NotRewound(Output),
    NotReadBack(Output),
    CopyDiffers(Output),
}

impl BundleError {
    /// What is said of the error; `path` is the shown path of the file or
    /// directory that it is about. Moving in an open file and reading it back
    /// fail with no words of their own.
    pub open spec fn text(self, path: Seq<char>) -> Option<Seq<char>> {
        match self {
            BundleError::ConfigUnreadable => Some("failed to read config "@ + path),
            BundleError::ConfigUnparsable => Some("failed to parse "@ + path),
            BundleError::ConfigInvalid => Some("config.plist validation failed"@),
            BundleError::ImageUnreadable => Some("failed to read EFI image "@ + path),
            BundleError::ImageInvalid(_) => Some("invalid EFI image "@ + path),
            BundleError::DestinationExists(_) => Some(
                "destination already exists; refusing to overwrite "@ + path,
            ),
            BundleError::Uninspectable(_) => Some("failed to inspect "@ + path),
            BundleError::DirectoryNotCreated(_) => Some("failed to create "@ + path),
            BundleError::NotCreated(_) => Some("failed to create new output "@ + path),
            BundleError::NotWritten(_) => Some("failed to write "@ + path),
            BundleError::NotFlushed(_) => Some("failed to flush "@ + path),
            BundleError::NotRewound(_) => None,
            BundleError::NotReadBack(_) => None,
            BundleError::CopyDiffers(_) => Some("copy verification failed for "@ + path),
        }
    }

    /// Gives what is said of the error.
    pub fn message(&self, path: &str) -> (result: Option<String>)
        ensures
            match result {
                Some(words) => self.text(path@) == Some(words@),
                None => self.text(path@) is None,
            },
    {
        match self {
            BundleError::ConfigUnreadable => Some(text::joined("failed to read config ", path)),
            BundleError::ConfigUnparsable => Some(text::joined("failed to parse ", path)),
            BundleError::ConfigInvalid => Some(String::from_str("config.plist validation failed")),
            BundleError::ImageUnreadable => Some(text::joined("failed to read EFI image ", path)),
            BundleError::ImageInvalid(_) => Some(text::joined("invalid EFI image ", path)),
            BundleError::DestinationExists(_) => Some(
                text::joined("destination already exists; refusing to overwrite ", path),
            ),
            BundleError::Uninspectable(_) => Some(text::joined("failed to inspect ", path)),
            BundleError::DirectoryNotCreated(_) => Some(text::joined("failed to create ", path)),
            BundleError::NotCreated(_) => Some(text::joined("failed to create new output ", path)),
            BundleError::NotWritten(_) => Some(text::joined("failed to write ", path)),
            BundleError::NotFlushed(_) => Some(text::joined("failed to flush ", path)),
            BundleError::NotRewound(_) => None,
            BundleError::NotReadBack(_) => None,
            BundleError::CopyDiffers(_) => Some(text::joined("copy verification failed for ", path)),
        }
    }
}

} // verus!
