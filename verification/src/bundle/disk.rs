//! What the actions of a build do to the files and directories on a disk that
//! nobody else writes to.
//!
//! A path is the sequence of its components, so that the directories above it
//! are its prefixes. Files and directories are told apart by where they lie, not
//! by their paths: several paths can lead to one place, over links to a file or
//! to a directory on the way.
use super::layout::{Directory, Output};
use super::{Action, BundleState, Event};
use vstd::prelude::*;

verus! {

/// What is on a disk. A place is a number.
#[verifier::ext_equal]
pub struct Disk {
    /// The place that a path leads to, with every link on it followed.
    pub places: Map<Seq<Seq<char>>, int>,
    /// The bytes of the file at a place.
    pub files: Map<int, Seq<u8>>,
    /// The places of the directories.
    pub directories: Set<int>,
    /// The paths at whose end a link stands, wherever it leads.
    pub links: Set<Seq<Seq<char>>>,
}

impl Disk {
    /// Whether something stands at the path, be it a link that leads nowhere.
    pub open spec fn holds(self, path: Seq<Seq<char>>) -> bool {
        self.places.dom().contains(path) || self.links.contains(path)
    }

    /// Whether the path leads to the place.
    pub open spec fn leads(self, path: Seq<Seq<char>>, place: int) -> bool {
        self.places.dom().contains(path) && self.places[path] == place
    }

    /// Whether the path leads to a file.
    pub open spec fn has_file(self, path: Seq<Seq<char>>) -> bool {
        self.places.dom().contains(path) && self.files.dom().contains(self.places[path])
    }

    /// Whether the path leads to a directory.
    pub open spec fn has_directory(self, path: Seq<Seq<char>>) -> bool {
        self.places.dom().contains(path) && self.directories.contains(self.places[path])
    }

    /// The bytes of the file that the path leads to.
    pub open spec fn bytes(self, path: Seq<Seq<char>>) -> Seq<u8> {
        self.files[self.places[path]]
    }
}

/// Every path leads where it led.
pub open spec fn same_places(before: Disk, after: Disk) -> bool {
    forall|p: Seq<Seq<char>>, place: int|
        before.leads(p, place) ==> #[trigger] after.leads(p, place)
}

/// The components of a file's path in the bundle.
pub open spec fn output_parts(output: Output) -> Seq<Seq<char>> {
    match output {
        Output::Boot => seq!["EFI"@, "BOOT"@, "BOOTX64.EFI"@],
        Output::Config => seq!["EFI"@, "OC"@, "config.plist"@],
    }
}

/// The components of a directory's path in the bundle.
pub open spec fn directory_parts(directory: Directory) -> Seq<Seq<char>> {
    match directory {
        Directory::Boot => seq!["EFI"@, "BOOT"@],
        Directory::Acpi => seq!["EFI"@, "OC"@, "ACPI"@],
        Directory::Drivers => seq!["EFI"@, "OC"@, "Drivers"@],
        Directory::Kexts => seq!["EFI"@, "OC"@, "Kexts"@],
    }
}

/// The path of a file of the bundle in the directory `out`.
pub open spec fn output_path(out: Seq<Seq<char>>, output: Output) -> Seq<Seq<char>> {
    out + output_parts(output)
}

/// The path of a directory of the bundle in the directory `out`.
pub open spec fn directory_path(out: Seq<Seq<char>>, directory: Directory) -> Seq<Seq<char>> {
    out + directory_parts(directory)
}

/// Whether the path is `below` or that of a directory above it.
pub open spec fn leads_to(path: Seq<Seq<char>>, below: Seq<Seq<char>>) -> bool {
    path.len() <= below.len() && path == below.take(path.len() as int)
}

/// Whether the place is that of the directory at the path or of one above it.
pub open spec fn on_the_way(disk: Disk, path: Seq<Seq<char>>, place: int) -> bool {
    exists|p: Seq<Seq<char>>| leads_to(p, path) && #[trigger] disk.leads(p, place)
}

/// The disk with a directory made may hold it and those above it, and no other
/// new ones.
pub open spec fn may_make(path: Seq<Seq<char>>, before: Disk, event: Event, after: Disk) -> bool {
    &&& same_places(before, after)
    &&& after.files == before.files
    &&& after.links == before.links
    &&& forall|place: int|
        before.directories.contains(place) ==> #[trigger] after.directories.contains(place)
    &&& forall|place: int| #[trigger]
        after.directories.contains(place) ==> before.directories.contains(place) || on_the_way(
            after,
            path,
            place,
        )
    &&& event is Done ==> after.has_directory(path)
}

/// A file is made only where nothing stood, at a place where no file was, and is
/// empty; what fails makes none.
pub open spec fn may_create(path: Seq<Seq<char>>, before: Disk, event: Event, after: Disk) -> bool {
    if event is Done {
        &&& !before.holds(path)
        &&& same_places(before, after)
        &&& after.places.dom().contains(path)
        &&& !before.files.dom().contains(after.places[path])
        &&& after.files == before.files.insert(after.places[path], Seq::empty())
        &&& after.directories == before.directories
        &&& after.links == before.links
    } else {
        after == before
    }
}

/// Writing to a file leaves every other as it is. What fails may leave any
/// bytes in it.
pub open spec fn may_write(
    path: Seq<Seq<char>>,
    contents: Seq<u8>,
    before: Disk,
    event: Event,
    after: Disk,
) -> bool {
    &&& after.places == before.places
    &&& after.directories == before.directories
    &&& after.links == before.links
    &&& after.files.dom() == before.files.dom()
    &&& forall|place: int|
        !before.leads(path, place) && before.files.dom().contains(place)
            ==> #[trigger] after.files[place] == before.files[place]
    &&& event is Done && before.has_file(path) ==> after.bytes(path) == contents
}

/// How the disk may look after the pending action of a build, given what came
/// of it, and that what was seen on the disk is what stood there.
pub open spec fn may_change(
    out: Seq<Seq<char>>,
    state: BundleState,
    before: Disk,
    event: Event,
    after: Disk,
) -> bool {
    match state.pending() {
        Action::CreateDirectory(directory) => may_make(
            directory_path(out, directory),
            before,
            event,
            after,
        ),
        Action::CreateNew(output) => may_create(output_path(out, output), before, event, after),
        Action::WriteAll(output) => may_write(
            output_path(out, output),
            state.contents(output),
            before,
            event,
            after,
        ),
        Action::Inspect(output) => {
            &&& after == before
            &&& event is Present ==> before.holds(output_path(out, output))
            &&& event is Absent ==> !before.holds(output_path(out, output))
        },
        Action::ReadBack(output) => {
            &&& after == before
            &&& event matches Event::Bytes(data) ==> {
                &&& before.has_file(output_path(out, output))
                &&& data@ == before.bytes(output_path(out, output))
            }
        },
        _ => after == before,
    }
}

/// The path that the components make, with a slash between each two.
pub open spec fn slashed(parts: Seq<Seq<char>>) -> Seq<char>
    decreases parts.len(),
{
    if parts.len() <= 1 {
        parts.last()
    } else {
        slashed(parts.drop_last()) + "/"@ + parts.last()
    }
}

/// The components of a file of the bundle make its path.
pub proof fn output_parts_make_the_path(output: Output)
    ensures
        slashed(output_parts(output)) == output.place(),
{
    reveal_with_fuel(slashed, 4);
    reveal_strlit("/");
    reveal_strlit("EFI");
    reveal_strlit("BOOT");
    reveal_strlit("OC");
    reveal_strlit("BOOTX64.EFI");
    reveal_strlit("config.plist");
    reveal_strlit("EFI/BOOT/BOOTX64.EFI");
    reveal_strlit("EFI/OC/config.plist");
    let parts = output_parts(output);
    assert(parts.drop_last() =~= seq![parts[0], parts[1]]);
    assert(parts.drop_last().drop_last() =~= seq![parts[0]]);
    assert(slashed(parts) =~= output.place());
}

/// The components of a directory of the bundle make its path.
pub proof fn directory_parts_make_the_path(directory: Directory)
    ensures
        slashed(directory_parts(directory)) == directory.place(),
{
    reveal_with_fuel(slashed, 4);
    reveal_strlit("/");
    reveal_strlit("EFI");
    reveal_strlit("BOOT");
    reveal_strlit("OC");
    reveal_strlit("ACPI");
    reveal_strlit("Drivers");
    reveal_strlit("Kexts");
    reveal_strlit("EFI/BOOT");
    reveal_strlit("EFI/OC/ACPI");
    reveal_strlit("EFI/OC/Drivers");
    reveal_strlit("EFI/OC/Kexts");
    let parts = directory_parts(directory);
    if parts.len() == 3 {
        assert(parts.drop_last() =~= seq![parts[0], parts[1]]);
        assert(parts.drop_last().drop_last() =~= seq![parts[0]]);
    } else {
        assert(parts.drop_last() =~= seq![parts[0]]);
    }
    assert(slashed(parts) =~= directory.place());
}

} // verus!
