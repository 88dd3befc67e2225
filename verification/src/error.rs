//! Error taxonomy of the wrapper, with the stable human-readable message of
//! each kind.

use vstd::prelude::*;

verus! {

/// Everything that can fail in this crate: opening an engine from a
/// configuration path, and materializing bundled assets onto disk.
#[derive(Clone, Copy, Debug, PartialEq, Eq, Structural)]
pub enum OpenCCError {
    /// The native engine rejected the configuration file path.
    ConfigLoad,
    /// The materialization target exists but is not a directory.
    NotADirectory,
    /// Creating the target directory (or its ancestors) failed.
    CreateDirectory,
    /// A target slot for an asset is occupied by something that is not a
    /// regular file.
    CorruptAsset,
    /// Creating an asset file failed.
    CreateFile,
    /// Writing the asset bytes to a file failed.
    WriteFile,
    /// Flushing a written asset file failed.
    FlushFile,
}

/// The stable message of each error kind.
pub open spec fn spec_message(e: OpenCCError) -> Seq<char> {
    match e {
        OpenCCError::ConfigLoad => "Cannot use this config file path."@,
        OpenCCError::NotADirectory => "The path of static dictionaries needs to be a directory."@,
        OpenCCError::CreateDirectory => "Cannot create new directories."@,
        OpenCCError::CorruptAsset => "The dictionary is not correct."@,
        OpenCCError::CreateFile => "Cannot create a new file."@,
        OpenCCError::WriteFile => "Cannot write data to a file."@,
        OpenCCError::FlushFile => "Cannot flush file."@,
    }
}

impl OpenCCError {
    /// The short, stable, human-readable message for this error kind.
    pub fn message(self) -> (r: &'static str)
        ensures
            r@ == spec_message(self),
    {
        match self {
            OpenCCError::ConfigLoad => "Cannot use this config file path.",
            OpenCCError::NotADirectory => "The path of static dictionaries needs to be a directory.",
            OpenCCError::CreateDirectory => "Cannot create new directories.",
            OpenCCError::CorruptAsset => "The dictionary is not correct.",
            OpenCCError::CreateFile => "Cannot create a new file.",
            OpenCCError::WriteFile => "Cannot write data to a file.",
            OpenCCError::FlushFile => "Cannot flush file.",
        }
    }
}

} // verus!
