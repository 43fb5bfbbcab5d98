//! Assembly of an EFI bundle from explicit inputs, as a sequence of actions.
//!
//! [`BundleBuild`] says what is to be done next; whoever holds it does that,
//! and hands back what came of it. Both inputs are validated before the first
//! action that creates anything, and no existing file is replaced.
pub mod disk;
pub mod file_laws;
pub mod laws;
pub mod layout;
pub mod plan_laws;

pub use layout::{BundleError, Directory, Output};

use crate::efi;
use crate::efi::validate_x64_application;
use vstd::prelude::*;

verus! {

/// What is to be done next.
#[derive(Debug, Clone, Copy, PartialEq, Eq, Structural)]
pub enum Action {
    /// Read the configuration file.
    ReadConfig,
    /// Parse and validate the configuration that was read.
    CheckConfig,
    /// Read the EFI image.
    ReadImage,
    /// See whether something stands at the place of the file, without
    /// following a link.
    Inspect(Output),
    /// Create the directory and those above it, where they are missing.
    CreateDirectory(Directory),
    /// Create and open the file; fail if something stands at its place.
    CreateNew(Output),
    /// Write the contents to the open file.
    WriteAll(Output),
    /// Bring what was written to the disk.
    Flush(Output),
    /// Go back to the start of the open file.
    Rewind(Output),
    /// Read the open file to its end.
    ReadBack(Output),
    /// Nothing: the bundle is built.
    Finish,
    /// Nothing: the bundle cannot be built.
    Abort(BundleError),
}

/// What came of an action. What does not answer the action counts as a failure
/// of it.
#[derive(Debug, PartialEq, Eq)]
pub enum Event {
    /// These bytes were read.
    Bytes(Vec<u8>),
    /// It was done.
    Done,
    /// It failed.
    Failed,
    /// The configuration was parsed and is not valid.
    ConfigInvalid,
    /// Something stands at the inspected place.
    Present,
    /// Nothing stands at the inspected place.
    Absent,
}

/// The plan: the action at each place, up to the end.
pub open spec fn plan(at: int) -> Action {
    if at == 0 {
        Action::ReadConfig
    } else if at == 1 {
        Action::CheckConfig
    } else if at == 2 {
        Action::ReadImage
    } else if at == 3 {
        Action::Inspect(Output::Boot)
    } else if at == 4 {
        Action::Inspect(Output::Config)
    } else if at == 5 {
        Action::CreateDirectory(Directory::Boot)
    } else if at == 6 {
        Action::CreateDirectory(Directory::Acpi)
    } else if at == 7 {
        Action::CreateDirectory(Directory::Drivers)
    } else if at == 8 {
        Action::CreateDirectory(Directory::Kexts)
    } else if at == 9 {
        Action::CreateNew(Output::Boot)
    } else if at == 10 {
        Action::WriteAll(Output::Boot)
    } else if at == 11 {
        Action::Flush(Output::Boot)
    } else if at == 12 {
        Action::Rewind(Output::Boot)
    } else if at == 13 {
        Action::ReadBack(Output::Boot)
    } else if at == 14 {
        Action::CreateNew(Output::Config)
    } else if at == 15 {
        Action::WriteAll(Output::Config)
    } else if at == 16 {
        Action::Flush(Output::Config)
    } else if at == 17 {
        Action::Rewind(Output::Config)
    } else if at == 18 {
        Action::ReadBack(Output::Config)
    } else {
        Action::Finish
    }
}

/// Place of the end in the plan.
pub open spec fn plan_end() -> int {
    19
}

/// How far a build has come.
#[verifier::ext_equal]
pub struct BundleState {
    /// Place in the plan.
    pub at: int,
    /// Why the build stopped short.
    pub fault: Option<BundleError>,
    /// The configuration, once it was read.
    pub config: Seq<u8>,
    /// The EFI image, once it was read.
    pub image: Seq<u8>,
}

impl BundleState {
    /// A build that has not begun.
    pub open spec fn start() -> BundleState {
        BundleState { at: 0, fault: None, config: Seq::empty(), image: Seq::empty() }
    }

    /// What is to be done next.
    pub open spec fn pending(self) -> Action {
        match self.fault {
            Some(error) => Action::Abort(error),
            None => plan(self.at),
        }
    }

    /// What the file is to hold: the bytes of its input.
    pub open spec fn contents(self, output: Output) -> Seq<u8> {
        match output {
            Output::Boot => self.image,
            Output::Config => self.config,
        }
    }

    /// Why the event stops the build, if it does.
    pub open spec fn fault_of(self, event: Event) -> Option<BundleError> {
        match self.pending() {
            Action::ReadConfig => match event {
                Event::Bytes(_) => None,
                _ => Some(BundleError::ConfigUnreadable),
            },
            Action::CheckConfig => match event {
                Event::Done => None,
                Event::ConfigInvalid => Some(BundleError::ConfigInvalid),
                _ => Some(BundleError::ConfigUnparsable),
            },
            Action::ReadImage => match event {
                Event::Bytes(bytes) => match efi::model::image_fault(bytes@) {
                    Some(e) => Some(BundleError::ImageInvalid(e)),
                    None => None,
                },
                _ => Some(BundleError::ImageUnreadable),
            },
            Action::Inspect(output) => match event {
                Event::Absent => None,
                Event::Present => Some(BundleError::DestinationExists(output)),
                _ => Some(BundleError::Uninspectable(output)),
            },
            Action::ReadBack(output) => match event {
                Event::Bytes(bytes) => if bytes@ == self.contents(output) {
                    None
                } else {
                    Some(BundleError::CopyDiffers(output))
                },
                _ => Some(BundleError::NotReadBack(output)),
            },
            Action::CreateDirectory(directory) => match event {
                Event::Done => None,
                _ => Some(BundleError::DirectoryNotCreated(directory)),
            },
            Action::CreateNew(output) => match event {
                Event::Done => None,
                _ => Some(BundleError::NotCreated(output)),
            },
            Action::WriteAll(output) => match event {
                Event::Done => None,
                _ => Some(BundleError::NotWritten(output)),
            },
            Action::Flush(output) => match event {
                Event::Done => None,
                _ => Some(BundleError::NotFlushed(output)),
            },
            Action::Rewind(output) => match event {
                Event::Done => None,
                _ => Some(BundleError::NotRewound(output)),
            },
            Action::Finish => None,
            Action::Abort(e) => Some(e),
        }
    }

    /// The build after the event: one action further, or stopped. A build that
    /// has ended stays as it is.
    pub open spec fn next(self, event: Event) -> BundleState {
        if self.pending() is Finish || self.pending() is Abort {
            self
        } else {
            match self.fault_of(event) {
                Some(error) => BundleState { fault: Some(error), ..self },
                None => BundleState {
                    at: self.at + 1,
                    fault: None,
                    config: if self.pending() is ReadConfig {
                        event->Bytes_0@
                    } else {
                        self.config
                    },
                    image: if self.pending() is ReadImage {
                        event->Bytes_0@
                    } else {
                        self.image
                    },
                },
            }
        }
    }
}

/// A build of a bundle.
pub struct BundleBuild {
    at: usize,
    fault: Option<BundleError>,
    config: Vec<u8>,
    image: Vec<u8>,
}

impl View for BundleBuild {
    type V = BundleState;

    closed spec fn view(&self) -> BundleState {
        BundleState {
            at: self.at as int,
            fault: self.fault,
            config: self.config@,
            image: self.image@,
        }
    }
}

/// The action at a place of the plan.
fn planned(at: usize) -> (result: Action)
    requires
        at <= plan_end(),
    ensures
        result == plan(at as int),
{
    match at {
        0 => Action::ReadConfig,
        1 => Action::CheckConfig,
        2 => Action::ReadImage,
        3 => Action::Inspect(Output::Boot),
        4 => Action::Inspect(Output::Config),
        5 => Action::CreateDirectory(Directory::Boot),
        6 => Action::CreateDirectory(Directory::Acpi),
        7 => Action::CreateDirectory(Directory::Drivers),
        8 => Action::CreateDirectory(Directory::Kexts),
        9 => Action::CreateNew(Output::Boot),
        10 => Action::WriteAll(Output::Boot),
        11 => Action::Flush(Output::Boot),
        12 => Action::Rewind(Output::Boot),
        13 => Action::ReadBack(Output::Boot),
        14 => Action::CreateNew(Output::Config),
        15 => Action::WriteAll(Output::Config),
        16 => Action::Flush(Output::Config),
        17 => Action::Rewind(Output::Config),
        18 => Action::ReadBack(Output::Config),
        _ => Action::Finish,
    }
}

/// Whether two pieces of data are the same, byte for byte.
fn same_bytes(a: &[u8], b: &[u8]) -> (result: bool)
    ensures
        result == (a@ == b@),
{
    if a.len() != b.len() {
        return false;
    }
    for i in 0..a.len()
        invariant
            a@.len() == b@.len(),
            forall|j: int| 0 <= j < i ==> a@[j] == b@[j],
    {
        if a[i] != b[i] {
            return false;
        }
    }
    assert(a@ =~= b@);
    true
}

/// The error, unless the action was done.
fn unless_done(event: &Event, error: BundleError) -> (result: Option<BundleError>)
    ensures
        result == (if event is Done {
            None
        } else {
            Some(error)
        }),
{
    match event {
        Event::Done => None,
        _ => Some(error),
    }
}

impl BundleBuild {
    /// The place lies in the plan.
    #[verifier::type_invariant]
    spec fn in_plan(&self) -> bool {
        self.at <= plan_end()
    }

    /// A build that has not begun.
    pub fn new() -> (result: BundleBuild)
        ensures
            result@ == BundleState::start(),
    {
        BundleBuild { at: 0, fault: None, config: Vec::new(), image: Vec::new() }
    }

    /// What is to be done next.
    pub fn pending(&self) -> (result: Action)
        ensures
            result == self@.pending(),
    {
        proof {
            use_type_invariant(self);
        }
        match self.fault {
            Some(error) => Action::Abort(error),
            None => planned(self.at),
        }
    }

    /// What the file is to hold.
    pub fn contents(&self, output: Output) -> (result: &[u8])
        ensures
            result@ == self@.contents(output),
    {
        match output {
            Output::Boot => self.image.as_slice(),
            Output::Config => self.config.as_slice(),
        }
    }

    fn find_fault(&self, event: &Event) -> (result: Option<BundleError>)
        ensures
            result == self@.fault_of(*event),
    {
        match self.pending() {
            Action::ReadConfig => match event {
                Event::Bytes(_) => None,
                _ => Some(BundleError::ConfigUnreadable),
            },
            Action::CheckConfig => match event {
                Event::Done => None,
                Event::ConfigInvalid => Some(BundleError::ConfigInvalid),
                _ => Some(BundleError::ConfigUnparsable),
            },
            Action::ReadImage => match event {
                Event::Bytes(bytes) => match validate_x64_application(bytes.as_slice()) {
                    Ok(_) => None,
                    Err(e) => Some(BundleError::ImageInvalid(e)),
                },
                _ => Some(BundleError::ImageUnreadable),
            },
            Action::Inspect(output) => match event {
                Event::Absent => None,
                Event::Present => Some(BundleError::DestinationExists(output)),
                _ => Some(BundleError::Uninspectable(output)),
            },
            Action::ReadBack(output) => match event {
                Event::Bytes(bytes) => if same_bytes(bytes.as_slice(), self.contents(output)) {
                    None
                } else {
                    Some(BundleError::CopyDiffers(output))
                },
                _ => Some(BundleError::NotReadBack(output)),
            },
            Action::CreateDirectory(directory) => unless_done(
                event,
                BundleError::DirectoryNotCreated(directory),
            ),
            Action::CreateNew(output) => unless_done(event, BundleError::NotCreated(output)),
            Action::WriteAll(output) => unless_done(event, BundleError::NotWritten(output)),
            Action::Flush(output) => unless_done(event, BundleError::NotFlushed(output)),
            Action::Rewind(output) => unless_done(event, BundleError::NotRewound(output)),
            Action::Finish => None,
            Action::Abort(e) => Some(e),
        }
    }

    /// Takes what came of the pending action.
    pub fn step(self, event: Event) -> (result: BundleBuild)
        ensures
            result@ == self@.next(event),
    {
        proof {
            use_type_invariant(&self);
        }
        let action = self.pending();
        if matches!(action, Action::Finish | Action::Abort(_)) {
            return self;
        }
        let found = self.find_fault(&event);
        if found.is_some() {
            return BundleBuild {
                at: self.at,
                fault: found,
                config: self.config,
                image: self.image,
            };
        }
        let at: usize = self.at + 1;
        match (action, event) {
            (Action::ReadConfig, Event::Bytes(bytes)) => BundleBuild {
                at,
                fault: None,
                config: bytes,
                image: self.image,
            },
            (Action::ReadImage, Event::Bytes(bytes)) => BundleBuild {
                at,
                fault: None,
                config: self.config,
                image: bytes,
            },
            _ => BundleBuild { at, fault: None, config: self.config, image: self.image },
        }
    }
}

} // verus!
