//! Why an image is turned down.
use vstd::prelude::*;

verus! {

/// The first requirement that an image fails to meet.
#[derive(Debug, Clone, Copy, PartialEq, Eq, Structural)]
pub enum ImageError {
    OffsetOverflow,
    Truncated,
    MissingDosSignature,
    HeaderOverlapsDosHeader,
    MissingPeSignature,
    WrongMachine,
    NoSections,
    NotExecutable,
    TruncatedOptionalHeader,
    NotPe32Plus,
    WrongSubsystem,
    TruncatedDirectories,
    AlignmentNotPowerOfTwo,
    SectionAlignmentTooSmall,
    FileAlignment,
    ImageSize,
    HeaderSize,
    EntryOutsideImage,
    SectionVirtualRange,
    OverlappingVirtualSections,
    SectionRawAlignment,
    TruncatedSectionData,
    OverlappingRawSections,
    EntryNotExecutable,
    NullDirectory,
    CertificateTableRange,
    DirectoryOutsideSections,
}

impl ImageError {
    /// The sentence shown for the error.
    pub open spec fn text(self) -> Seq<char> {
        match self {
            ImageError::OffsetOverflow => "PE offset overflow"@,
            ImageError::Truncated => "truncated PE image"@,
            ImageError::MissingDosSignature => "missing MZ signature"@,
            ImageError::HeaderOverlapsDosHeader => "PE header overlaps DOS header"@,
            ImageError::MissingPeSignature => "missing PE signature"@,
            ImageError::WrongMachine => "EFI image must target x86_64 (AMD64)"@,
            ImageError::NoSections => "PE image contains no sections"@,
            ImageError::NotExecutable => "PE image is not executable"@,
            ImageError::TruncatedOptionalHeader => "truncated PE32+ optional header"@,
            ImageError::NotPe32Plus => "EFI image must use PE32+"@,
            ImageError::WrongSubsystem => "PE subsystem must be EFI application (10)"@,
            ImageError::TruncatedDirectories => "truncated PE data directories"@,
            ImageError::AlignmentNotPowerOfTwo => "invalid PE alignment"@,
            ImageError::SectionAlignmentTooSmall =>
                "section alignment is smaller than file alignment"@,
            ImageError::FileAlignment => "invalid PE file alignment"@,
            ImageError::ImageSize => "invalid PE SizeOfImage"@,
            ImageError::HeaderSize => "invalid PE SizeOfHeaders"@,
            ImageError::EntryOutsideImage => "entry point is outside image sections"@,
            ImageError::SectionVirtualRange =>
                "section virtual range is outside the image or misaligned"@,
            ImageError::OverlappingVirtualSections => "overlapping PE virtual sections"@,
            ImageError::SectionRawAlignment => "invalid section raw alignment"@,
            ImageError::TruncatedSectionData => "truncated PE section data"@,
            ImageError::OverlappingRawSections => "overlapping PE raw sections"@,
            ImageError::EntryNotExecutable =>
                "entry point is not backed by executable section data"@,
            ImageError::NullDirectory => "nonempty PE directory has a null address"@,
            ImageError::CertificateTableRange => "invalid PE certificate table range"@,
            ImageError::DirectoryOutsideSections => "PE directory is outside section data"@,
        }
    }

    /// Gives the sentence shown for the error.
    pub fn message(&self) -> (result: &'static str)
        ensures
            result@ == self.text(),
    {
        match self {
            ImageError::OffsetOverflow => "PE offset overflow",
            ImageError::Truncated => "truncated PE image",
            ImageError::MissingDosSignature => "missing MZ signature",
            ImageError::HeaderOverlapsDosHeader => "PE header overlaps DOS header",
            ImageError::MissingPeSignature => "missing PE signature",
            ImageError::WrongMachine => "EFI image must target x86_64 (AMD64)",
            ImageError::NoSections => "PE image contains no sections",
            ImageError::NotExecutable => "PE image is not executable",
            ImageError::TruncatedOptionalHeader => "truncated PE32+ optional header",
            ImageError::NotPe32Plus => "EFI image must use PE32+",
            ImageError::WrongSubsystem => "PE subsystem must be EFI application (10)",
            ImageError::TruncatedDirectories => "truncated PE data directories",
            ImageError::AlignmentNotPowerOfTwo => "invalid PE alignment",
            ImageError::SectionAlignmentTooSmall =>
                "section alignment is smaller than file alignment",
            ImageError::FileAlignment => "invalid PE file alignment",
            ImageError::ImageSize => "invalid PE SizeOfImage",
            ImageError::HeaderSize => "invalid PE SizeOfHeaders",
            ImageError::EntryOutsideImage => "entry point is outside image sections",
            ImageError::SectionVirtualRange =>
                "section virtual range is outside the image or misaligned",
            ImageError::OverlappingVirtualSections => "overlapping PE virtual sections",
            ImageError::SectionRawAlignment => "invalid section raw alignment",
            ImageError::TruncatedSectionData => "truncated PE section data",
            ImageError::OverlappingRawSections => "overlapping PE raw sections",
            ImageError::EntryNotExecutable =>
                "entry point is not backed by executable section data",
            ImageError::NullDirectory => "nonempty PE directory has a null address",
            ImageError::CertificateTableRange => "invalid PE certificate table range",
            ImageError::DirectoryOutsideSections => "PE directory is outside section data",
        }
    }
}

} // verus!
