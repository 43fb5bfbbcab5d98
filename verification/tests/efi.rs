use nextcore_tool::efi::{bytes, dword, overlaps, validate_x64_application, word, ImageError};

fn put16(image: &mut [u8], offset: usize, value: u16) {
    image[offset..offset + 2].copy_from_slice(&value.to_le_bytes());
}

fn put32(image: &mut [u8], offset: usize, value: u32) {
    image[offset..offset + 4].copy_from_slice(&value.to_le_bytes());
}

// A synthetic, structurally valid PE fixture for parser regressions only.
fn fixture() -> Vec<u8> {
    let mut image = vec![0u8; 1024];
    image[..2].copy_from_slice(b"MZ");
    put32(&mut image, 0x3c, 0x80);
    image[0x80..0x84].copy_from_slice(b"PE\0\0");
    put16(&mut image, 0x84, 0x8664);
    put16(&mut image, 0x86, 1);
    put16(&mut image, 0x94, 240);
    put16(&mut image, 0x96, 0x22);
    let optional = 0x98;
    put16(&mut image, optional, 0x20b);
    put32(&mut image, optional + 4, 512);
    put32(&mut image, optional + 16, 4096);
    put32(&mut image, optional + 20, 4096);
    put32(&mut image, optional + 32, 4096);
    put32(&mut image, optional + 36, 512);
    put32(&mut image, optional + 56, 8192);
    put32(&mut image, optional + 60, 512);
    put16(&mut image, optional + 68, 10);
    put32(&mut image, optional + 108, 16);
    let section = optional + 240;
    image[section..section + 5].copy_from_slice(b".text");
    put32(&mut image, section + 8, 3);
    put32(&mut image, section + 12, 4096);
    put32(&mut image, section + 16, 512);
    put32(&mut image, section + 20, 512);
    put32(&mut image, section + 36, 0x6000_0020);
    image[512..515].copy_from_slice(&[0x31, 0xc0, 0xc3]);
    image
}

/// The fixture with a second section behind the first, in memory and in the
/// file.
fn two_sections() -> Vec<u8> {
    let mut image = fixture();
    image.resize(1536, 0);
    put16(&mut image, 0x86, 2);
    put32(&mut image, 0x98 + 56, 12288);
    let section = 0x98 + 240 + 40;
    put32(&mut image, section + 8, 512);
    put32(&mut image, section + 12, 8192);
    put32(&mut image, section + 16, 512);
    put32(&mut image, section + 20, 1024);
    put32(&mut image, section + 36, 0x4000_0040);
    image
}

fn verdict16(offset: usize, value: u16) -> Result<(), ImageError> {
    let mut image = fixture();
    put16(&mut image, offset, value);
    validate_x64_application(&image)
}

fn verdict32(offset: usize, value: u32) -> Result<(), ImageError> {
    let mut image = fixture();
    put32(&mut image, offset, value);
    validate_x64_application(&image)
}

#[test]
fn every_truncated_prefix_is_rejected_without_panicking() {
    let image = fixture();
    assert!(validate_x64_application(&image).is_ok());
    for end in 0..image.len() {
        assert!(
            validate_x64_application(&image[..end]).is_err(),
            "accepted prefix {end}"
        );
    }
}

#[test]
fn numbers_are_little_endian_and_bounded() {
    let data = [0x01, 0x02, 0x03, 0x04, 0xff];
    assert_eq!(bytes(&data, 1, 3), Ok(&data[1..4]));
    assert_eq!(bytes(&data, 5, 0), Ok(&data[5..5]));
    assert_eq!(bytes(&data, 3, 3), Err(ImageError::Truncated));
    assert_eq!(bytes(&data, usize::MAX, 1), Err(ImageError::OffsetOverflow));
    assert_eq!(word(&data, 0), Ok(0x0201));
    assert_eq!(word(&data, 3), Ok(0xff04));
    assert_eq!(word(&data, 4), Err(ImageError::Truncated));
    assert_eq!(dword(&data, 1), Ok(0xff04_0302));
    assert_eq!(dword(&data, 2), Err(ImageError::Truncated));
    assert_eq!(dword(&[0xff; 4], 0), Ok(u32::MAX));
}

#[test]
fn ranges_collide_in_either_order() {
    for (a, b, expected) in [
        (0..4, 4..8, false),
        (0..5, 4..8, true),
        (2..3, 0..9, true),
        // An empty range strictly inside another counts as a collision.
        (3..3, 0..9, true),
        (0..0, 0..9, false),
        (9..9, 0..9, false),
    ] {
        assert_eq!(overlaps(&a, &b), expected);
        assert_eq!(overlaps(&b, &a), expected);
    }
}

#[test]
fn each_header_requirement_has_its_error() {
    assert_eq!(validate_x64_application(b""), Err(ImageError::Truncated));
    assert_eq!(validate_x64_application(b"NXC00.1.0"), Err(ImageError::MissingDosSignature));
    assert_eq!(validate_x64_application(b"MZ"), Err(ImageError::Truncated));
    assert_eq!(verdict32(0x3c, 63), Err(ImageError::HeaderOverlapsDosHeader));
    assert_eq!(verdict32(0x3c, 1024 - 23), Err(ImageError::Truncated));
    assert_eq!(verdict16(0x82, 1), Err(ImageError::MissingPeSignature));
    assert_eq!(verdict16(0x84, 0xaa64), Err(ImageError::WrongMachine));
    assert_eq!(verdict16(0x86, 0), Err(ImageError::NoSections));
    assert_eq!(verdict16(0x96, 0x20), Err(ImageError::NotExecutable));
    assert_eq!(verdict16(0x94, 1024), Err(ImageError::Truncated));
    assert_eq!(verdict16(0x94, 111), Err(ImageError::TruncatedOptionalHeader));
    assert_eq!(verdict16(0x98, 0x10b), Err(ImageError::NotPe32Plus));
    assert_eq!(verdict16(0xdc, 3), Err(ImageError::WrongSubsystem));
    assert_eq!(verdict32(0x104, 17), Err(ImageError::TruncatedDirectories));
    assert_eq!(verdict32(0x98 + 32, 4097), Err(ImageError::AlignmentNotPowerOfTwo));
    assert_eq!(verdict32(0x98 + 36, 0), Err(ImageError::AlignmentNotPowerOfTwo));
    assert_eq!(verdict32(0x98 + 36, 8192), Err(ImageError::SectionAlignmentTooSmall));
    assert_eq!(verdict32(0x98 + 32, 2048), Err(ImageError::FileAlignment));
    assert_eq!(verdict32(0x98 + 36, 256), Err(ImageError::FileAlignment));
    assert_eq!(verdict32(0x98 + 56, 0), Err(ImageError::ImageSize));
    assert_eq!(verdict32(0x98 + 56, 8193), Err(ImageError::ImageSize));
    assert_eq!(verdict16(0x86, 17), Err(ImageError::Truncated));
    assert_eq!(verdict32(0x98 + 60, 0), Err(ImageError::HeaderSize));
    assert_eq!(verdict32(0x98 + 60, 513), Err(ImageError::HeaderSize));
    assert_eq!(verdict32(0x98 + 60, 1536), Err(ImageError::HeaderSize));
    assert_eq!(verdict32(0xa8, 0), Err(ImageError::EntryOutsideImage));
    assert_eq!(verdict32(0xa8, 8192), Err(ImageError::EntryOutsideImage));
}

#[test]
fn each_section_requirement_has_its_error() {
    let section = 0x98 + 240;
    assert_eq!(verdict32(section + 12, 4097), Err(ImageError::SectionVirtualRange));
    assert_eq!(verdict32(section + 12, 0), Err(ImageError::SectionVirtualRange));
    assert_eq!(verdict32(section + 8, 4097), Err(ImageError::SectionVirtualRange));
    assert_eq!(verdict32(0x19c, 0), Err(ImageError::SectionRawAlignment));
    assert_eq!(verdict32(0x19c, u32::MAX), Err(ImageError::SectionRawAlignment));
    assert_eq!(verdict32(section + 16, 500), Err(ImageError::SectionRawAlignment));
    assert_eq!(verdict32(0x19c, 1024), Err(ImageError::TruncatedSectionData));
    assert_eq!(verdict32(section + 16, 0), Err(ImageError::EntryNotExecutable));
    assert_eq!(verdict32(section + 36, 0x4000_0020), Err(ImageError::EntryNotExecutable));
    assert_eq!(verdict32(0xa8, 4096 + 3), Err(ImageError::EntryNotExecutable));
    assert_eq!(verdict32(0xa8, 4096 + 2), Ok(()));
    assert_eq!(verdict32(0xa8, 4096 + 512), Err(ImageError::EntryNotExecutable));
    // A virtual size of zero leaves all of the file data to the entry point.
    let mut image = fixture();
    put32(&mut image, section + 8, 0);
    put32(&mut image, 0xa8, 4096 + 511);
    assert_eq!(validate_x64_application(&image), Ok(()));
}

#[test]
fn sections_must_be_apart() {
    let second = 0x98 + 240 + 40;
    assert_eq!(validate_x64_application(&two_sections()), Ok(()));
    let mut image = two_sections();
    put32(&mut image, second + 12, 4096);
    assert_eq!(
        validate_x64_application(&image),
        Err(ImageError::OverlappingVirtualSections)
    );
    let mut image = two_sections();
    put32(&mut image, second + 20, 512);
    assert_eq!(
        validate_x64_application(&image),
        Err(ImageError::OverlappingRawSections)
    );
    // Without file data the place in the file does not matter.
    let mut image = two_sections();
    put32(&mut image, second + 16, 0);
    put32(&mut image, second + 20, 1);
    assert_eq!(validate_x64_application(&image), Ok(()));
}

#[test]
fn directories_lie_in_section_data_or_in_the_file() {
    let directories = 0x98 + 112;
    let verdict = |index: usize, start: u32, size: u32| {
        let mut image = fixture();
        put32(&mut image, directories + 8 * index, start);
        put32(&mut image, directories + 8 * index + 4, size);
        validate_x64_application(&image)
    };
    assert_eq!(verdict(0, 0x3000, 0), Ok(()));
    assert_eq!(verdict(0, 0, 16), Err(ImageError::NullDirectory));
    assert_eq!(verdict(0, 0x3000, 16), Err(ImageError::DirectoryOutsideSections));
    assert_eq!(verdict(0, 4096 + 496, 16), Ok(()));
    assert_eq!(verdict(15, 4096 + 497, 16), Err(ImageError::DirectoryOutsideSections));
    assert_eq!(verdict(4, 1016, 8), Ok(()));
    assert_eq!(verdict(4, 1016, 9), Err(ImageError::CertificateTableRange));
    assert_eq!(verdict(4, 1012, 8), Err(ImageError::CertificateTableRange));
}

#[test]
fn acceptance_depends_on_headers_and_length_only() {
    let mut longer = fixture();
    longer.extend_from_slice(&[0xcc; 100]);
    assert_eq!(validate_x64_application(&longer), Ok(()));
    for end in 0..longer.len() {
        assert_eq!(validate_x64_application(&longer[..end]).is_ok(), end >= 1024);
    }
    let mut other = fixture();
    for byte in other[512..].iter_mut() {
        *byte = 0xff;
    }
    assert_eq!(validate_x64_application(&other), Ok(()));
}

#[test]
fn errors_have_their_words() {
    assert_eq!(ImageError::Truncated.message(), "truncated PE image");
    assert_eq!(ImageError::OffsetOverflow.message(), "PE offset overflow");
    assert_eq!(ImageError::WrongMachine.message(), "EFI image must target x86_64 (AMD64)");
    assert_eq!(
        ImageError::DirectoryOutsideSections.message(),
        "PE directory is outside section data"
    );
}
