use nextcore_tool::bundle::{Action, BundleBuild, BundleError, Directory, Event, Output};
use nextcore_tool::efi::ImageError;

const CONFIG: &[u8] = b"<plist version=\"1.0\"><dict><key>NVRAM</key><dict/></dict></plist>";

fn put16(image: &mut [u8], offset: usize, value: u16) {
    image[offset..offset + 2].copy_from_slice(&value.to_le_bytes());
}

fn put32(image: &mut [u8], offset: usize, value: u32) {
    image[offset..offset + 4].copy_from_slice(&value.to_le_bytes());
}

fn fixture() -> Vec<u8> {
    let mut image = vec![0u8; 1024];
    image[..2].copy_from_slice(b"MZ");
    put32(&mut image, 0x3c, 0x80);
    image[0x80..0x84].copy_from_slice(b"PE\0\0");
    put16(&mut image, 0x84, 0x8664);
    put16(&mut image, 0x86, 1);
    put16(&mut image, 0x94, 240);
    put16(&mut image, 0x96, 0x22);
    let optional = 0x98;
    put16(&mut image, optional, 0x20b);
    put32(&mut image, optional + 4, 512);
    put32(&mut image, optional + 16, 4096);
    put32(&mut image, optional + 20, 4096);
    put32(&mut image, optional + 32, 4096);
    put32(&mut image, optional + 36, 512);
    put32(&mut image, optional + 56, 8192);
    put32(&mut image, optional + 60, 512);
    put16(&mut image, optional + 68, 10);
    put32(&mut image, optional + 108, 16);
    let section = optional + 240;
    image[section..section + 5].copy_from_slice(b".text");
    put32(&mut image, section + 8, 3);
    put32(&mut image, section + 12, 4096);
    put32(&mut image, section + 16, 512);
    put32(&mut image, section + 20, 512);
    put32(&mut image, section + 36, 0x6000_0020);
    image[512..515].copy_from_slice(&[0x31, 0xc0, 0xc3]);
    image
}

/// A disk in memory: paths with bytes, directories, and a link from one
/// directory to another.
#[derive(Debug, Default, Clone, PartialEq)]
struct Disk {
    files: Vec<(String, Vec<u8>)>,
    directories: Vec<String>,
    link: Option<(String, String)>,
}

impl Disk {
    /// The path with the link followed.
    fn resolve(&self, path: &str) -> String {
        match &self.link {
            Some((from, to)) => match path.strip_prefix(from.as_str()) {
                Some(rest) => format!("{to}{rest}"),
                None => path.to_string(),
            },
            None => path.to_string(),
        }
    }

    fn get(&self, path: &str) -> Option<&Vec<u8>> {
        let path = self.resolve(path);
        self.files.iter().find(|(name, _)| *name == path).map(|(_, data)| data)
    }

    fn run(
        &mut self,
        config: Option<&[u8]>,
        verdict: Event,
        image: Option<&[u8]>,
    ) -> Result<(), BundleError> {
        self.run_until(config, verdict, image, usize::MAX)
    }

    /// Runs a build whose action at the place `failing` fails halfway.
    fn run_until(
        &mut self,
        config: Option<&[u8]>,
        verdict: Event,
        image: Option<&[u8]>,
        failing: usize,
    ) -> Result<(), BundleError> {
        let mut verdict = Some(verdict);
        let mut build = BundleBuild::new();
        for place in 0.. {
            let event = match build.pending() {
                Action::Finish => return Ok(()),
                Action::Abort(error) => return Err(error),
                Action::WriteAll(output) if place == failing => {
                    let data = build.contents(output);
                    let half = data[..data.len() / 2].to_vec();
                    let path = self.resolve(output.path());
                    let file = self.files.iter_mut().find(|(name, _)| *name == path);
                    file.unwrap().1 = half;
                    Event::Failed
                }
                _ if place == failing => Event::Failed,
                Action::ReadConfig => match config {
                    Some(data) => Event::Bytes(data.to_vec()),
                    None => Event::Failed,
                },
                Action::CheckConfig => verdict.take().unwrap(),
                Action::ReadImage => match image {
                    Some(data) => Event::Bytes(data.to_vec()),
                    None => Event::Failed,
                },
                Action::Inspect(output) => match self.get(output.path()) {
                    Some(_) => Event::Present,
                    None => Event::Absent,
                },
                Action::CreateDirectory(directory) => {
                    self.directories.push(self.resolve(directory.path()));
                    Event::Done
                }
                Action::CreateNew(output) => match self.get(output.path()) {
                    Some(_) => Event::Failed,
                    None => {
                        self.files.push((self.resolve(output.path()), Vec::new()));
                        Event::Done
                    }
                },
                Action::WriteAll(output) => {
                    let data = build.contents(output).to_vec();
                    let path = self.resolve(output.path());
                    let place = self.files.iter_mut().find(|(name, _)| *name == path);
                    place.unwrap().1 = data;
                    Event::Done
                }
                Action::Flush(_) | Action::Rewind(_) => Event::Done,
                Action::ReadBack(output) => {
                    Event::Bytes(self.get(output.path()).unwrap().clone())
                }
            };
            build = build.step(event);
        }
        unreachable!()
    }
}

fn assert_bundle(disk: &Disk, image: &[u8]) {
    assert_eq!(disk.get("EFI/BOOT/BOOTX64.EFI").unwrap(), image);
    assert_eq!(disk.get("EFI/OC/config.plist").unwrap(), CONFIG);
    for directory in ["EFI/BOOT", "EFI/OC/ACPI", "EFI/OC/Drivers", "EFI/OC/Kexts"] {
        assert!(disk.directories.contains(&directory.to_string()));
    }
}

/// The events that lead through a whole build.
fn good_events() -> Vec<Event> {
    let mut events = vec![
        Event::Bytes(CONFIG.to_vec()),
        Event::Done,
        Event::Bytes(fixture()),
        Event::Absent,
        Event::Absent,
    ];
    for _ in 0..8 {
        events.push(Event::Done);
    }
    events.push(Event::Bytes(fixture()));
    for _ in 0..4 {
        events.push(Event::Done);
    }
    events.push(Event::Bytes(CONFIG.to_vec()));
    events
}

/// Builds with good events, but for the one at `place`.
fn with_event(place: usize, event: Event) -> Action {
    let mut build = BundleBuild::new();
    let mut event = Some(event);
    for (index, good) in good_events().into_iter().enumerate() {
        build = build.step(if index == place { event.take().unwrap() } else { good });
    }
    build.pending()
}

#[test]
fn valid_inputs_are_copied_exactly() {
    let mut disk = Disk::default();
    assert_eq!(disk.run(Some(CONFIG), Event::Done, Some(&fixture())), Ok(()));
    assert_bundle(&disk, &fixture());
    assert_eq!(disk.files.len(), 2);
    assert_eq!(disk.directories.len(), 4);
}

#[test]
fn malformed_images_leave_the_disk_alone() {
    let mut cases = vec![b"NXC00.1.0".to_vec(), fixture()[..700].to_vec()];
    // Wrong arch, PE32, wrong subsystem, no executable flag, short optional header.
    for (offset, value) in [
        (0x84, 0xaa64),
        (0x98, 0x10b),
        (0xdc, 3),
        (0x96, 0),
        (0x94, 111),
    ] {
        let mut image = fixture();
        put16(&mut image, offset, value);
        cases.push(image);
    }
    // Out-of-file header, missing entry, truncated directories, overflowing raw
    // range, raw section inside headers, and a directory pointing outside data.
    for (offset, value) in [
        (0x3c, u32::MAX),
        (0xa8, 0),
        (0x104, 17),
        (0x19c, u32::MAX),
        (0x19c, 0),
        (0x108, 0x3000),
    ] {
        let mut image = fixture();
        put32(&mut image, offset, value);
        if offset == 0x108 {
            put32(&mut image, 0x10c, 16);
        }
        cases.push(image);
    }
    for (index, image) in cases.into_iter().enumerate() {
        let mut disk = Disk::default();
        let result = disk.run(Some(CONFIG), Event::Done, Some(&image));
        assert!(
            matches!(result, Err(BundleError::ImageInvalid(_))),
            "accepted malformed case {index}"
        );
        assert_eq!(disk, Disk::default(), "created output for malformed case {index}");
    }
}

#[test]
fn invalid_or_missing_inputs_leave_the_disk_alone() {
    let image = fixture();
    let mut disk = Disk::default();
    assert_eq!(
        disk.run(Some(b"not a plist"), Event::Failed, Some(&image)),
        Err(BundleError::ConfigUnparsable)
    );
    assert_eq!(
        disk.run(Some(CONFIG), Event::ConfigInvalid, Some(&image)),
        Err(BundleError::ConfigInvalid)
    );
    assert_eq!(
        disk.run(Some(CONFIG), Event::Done, None),
        Err(BundleError::ImageUnreadable)
    );
    assert_eq!(
        disk.run(None, Event::Done, Some(&image)),
        Err(BundleError::ConfigUnreadable)
    );
    assert_eq!(
        disk.run(Some(CONFIG), Event::Done, Some(b"MZ")),
        Err(BundleError::ImageInvalid(ImageError::Truncated))
    );
    assert_eq!(disk, Disk::default());
}

#[test]
fn existing_files_are_never_replaced() {
    let mut disk = Disk::default();
    assert_eq!(disk.run(Some(CONFIG), Event::Done, Some(&fixture())), Ok(()));
    let before = disk.clone();
    assert_eq!(
        disk.run(Some(CONFIG), Event::Done, Some(&fixture())),
        Err(BundleError::DestinationExists(Output::Boot))
    );
    assert_eq!(disk, before);

    let mut disk = Disk::default();
    disk.files.push(("EFI/OC/config.plist".to_string(), b"preserve this".to_vec()));
    let before = disk.clone();
    assert_eq!(
        disk.run(Some(CONFIG), Event::Done, Some(&fixture())),
        Err(BundleError::DestinationExists(Output::Config))
    );
    assert_eq!(disk, before);
}

#[test]
fn a_second_build_leaves_the_first_bundle_as_it_is() {
    let image = fixture();
    let mut disk = Disk::default();
    assert_eq!(disk.run(Some(CONFIG), Event::Done, Some(&image)), Ok(()));
    let before = disk.clone();
    let own_config = disk.get("EFI/OC/config.plist").unwrap().clone();
    let own_image = disk.get("EFI/BOOT/BOOTX64.EFI").unwrap().clone();
    let mut other_image = fixture();
    other_image[700] = 1;
    for (config, image) in [
        (CONFIG, image.as_slice()),
        (own_config.as_slice(), image.as_slice()),
        (CONFIG, own_image.as_slice()),
        (own_config.as_slice(), own_image.as_slice()),
        (b"another", other_image.as_slice()),
    ] {
        let error = disk.run(Some(config), Event::Done, Some(image)).unwrap_err();
        assert_eq!(
            error.message("out/EFI/BOOT/BOOTX64.EFI").unwrap(),
            "destination already exists; refusing to overwrite out/EFI/BOOT/BOOTX64.EFI"
        );
        assert_eq!(disk, before);
        assert_bundle(&disk, &fixture());
    }
}

#[test]
fn a_build_that_fails_anywhere_keeps_every_file() {
    let kept = vec![
        ("config.plist".to_string(), CONFIG.to_vec()),
        ("BOOTX64.efi".to_string(), fixture()),
        ("EFI/OC/ACPI/table.aml".to_string(), b"preserve this".to_vec()),
    ];
    let new_files = ["EFI/BOOT/BOOTX64.EFI", "EFI/OC/config.plist"];
    let new_directories = ["EFI/BOOT", "EFI/OC/ACPI", "EFI/OC/Drivers", "EFI/OC/Kexts"];
    for failing in 0..19 {
        let mut disk = Disk {
            files: kept.clone(),
            ..Disk::default()
        };
        let result = disk.run_until(Some(CONFIG), Event::Done, Some(&fixture()), failing);
        assert!(result.is_err(), "finished without place {failing}");
        for (path, data) in &kept {
            assert_eq!(disk.get(path), Some(data), "lost {path} at place {failing}");
        }
        for (path, _) in &disk.files[kept.len()..] {
            assert!(new_files.contains(&path.as_str()));
        }
        for path in &disk.directories {
            assert!(new_directories.contains(&path.as_str()));
        }
        assert_eq!(disk.files.len() > kept.len(), failing > 9);
        assert_eq!(disk.files.len() > kept.len() + 1, failing > 14);
    }
}

#[test]
fn a_linked_directory_keeps_its_files() {
    let mut disk = Disk {
        files: vec![
            ("inputs/app.efi".to_string(), fixture()),
            ("inputs/config.plist".to_string(), CONFIG.to_vec()),
        ],
        link: Some(("EFI/BOOT".to_string(), "inputs".to_string())),
        ..Disk::default()
    };
    let before = disk.clone();
    assert_eq!(disk.run(Some(CONFIG), Event::Done, Some(&fixture())), Ok(()));
    assert_eq!(disk.files[..2], before.files[..]);
    assert_eq!(disk.get("inputs/BOOTX64.EFI"), Some(&fixture()));
    assert_eq!(disk.files.len(), 4);

    // The file that the link leads to is in the way as well.
    let mut disk = before;
    disk.files.push(("inputs/BOOTX64.EFI".to_string(), b"preserve this".to_vec()));
    let before = disk.clone();
    assert_eq!(
        disk.run(Some(CONFIG), Event::Done, Some(&fixture())),
        Err(BundleError::DestinationExists(Output::Boot))
    );
    assert_eq!(disk, before);
}

#[test]
fn a_destination_that_cannot_be_inspected_is_left_alone() {
    let mut disk = Disk::default();
    assert_eq!(disk.run(Some(CONFIG), Event::Done, Some(&fixture())), Ok(()));
    let before = disk.clone();
    let error = disk.run_until(Some(CONFIG), Event::Done, Some(&fixture()), 3).unwrap_err();
    assert_eq!(error.message("out/x").unwrap(), "failed to inspect out/x");
    assert_eq!(disk, before);
}

#[test]
fn each_failing_action_has_its_error() {
    let boot = Output::Boot;
    let config = Output::Config;
    for (place, error) in [
        (0, BundleError::ConfigUnreadable),
        (1, BundleError::ConfigUnparsable),
        (2, BundleError::ImageUnreadable),
        (3, BundleError::Uninspectable(boot)),
        (4, BundleError::Uninspectable(config)),
        (5, BundleError::DirectoryNotCreated(Directory::Boot)),
        (6, BundleError::DirectoryNotCreated(Directory::Acpi)),
        (7, BundleError::DirectoryNotCreated(Directory::Drivers)),
        (8, BundleError::DirectoryNotCreated(Directory::Kexts)),
        (9, BundleError::NotCreated(boot)),
        (10, BundleError::NotWritten(boot)),
        (11, BundleError::NotFlushed(boot)),
        (12, BundleError::NotRewound(boot)),
        (13, BundleError::NotReadBack(boot)),
        (14, BundleError::NotCreated(config)),
        (15, BundleError::NotWritten(config)),
        (16, BundleError::NotFlushed(config)),
        (17, BundleError::NotRewound(config)),
        (18, BundleError::NotReadBack(config)),
    ] {
        assert_eq!(with_event(place, Event::Failed), Action::Abort(error));
    }
    assert_eq!(with_event(19, Event::Failed), Action::Finish);
}

#[test]
fn a_copy_that_differs_is_not_a_bundle() {
    let mut image = fixture();
    image[700] = 1;
    assert_eq!(
        with_event(13, Event::Bytes(image)),
        Action::Abort(BundleError::CopyDiffers(Output::Boot))
    );
    assert_eq!(
        with_event(18, Event::Bytes(CONFIG[1..].to_vec())),
        Action::Abort(BundleError::CopyDiffers(Output::Config))
    );
}

#[test]
fn an_answer_to_another_question_is_a_failure() {
    assert_eq!(
        with_event(3, Event::Done),
        Action::Abort(BundleError::Uninspectable(Output::Boot))
    );
    assert_eq!(
        with_event(9, Event::Absent),
        Action::Abort(BundleError::NotCreated(Output::Boot))
    );
}

#[test]
fn bundle_errors_have_their_words() {
    let words = |error: BundleError| error.message("/out/x");
    assert_eq!(
        words(BundleError::DestinationExists(Output::Boot)).unwrap(),
        "destination already exists; refusing to overwrite /out/x"
    );
    assert_eq!(words(BundleError::ConfigUnreadable).unwrap(), "failed to read config /out/x");
    assert_eq!(words(BundleError::ConfigInvalid).unwrap(), "config.plist validation failed");
    assert_eq!(
        words(BundleError::CopyDiffers(Output::Config)).unwrap(),
        "copy verification failed for /out/x"
    );
    assert_eq!(words(BundleError::NotRewound(Output::Boot)), None);
}
