//! Saving and loading request text through a file chooser. Choosing the file
//! and touching the disk are the caller's; the decisions are here.
use vstd::prelude::*;

verus! {

/// What the user asked to do with a file.
#[derive(Clone, Copy, Debug, PartialEq, Eq)]
pub enum Operation {
    Save,
    Load,
}

/// Why saving or loading produced nothing.
#[derive(Clone, Debug, PartialEq, Eq)]
pub enum StoreError {
    /// The user closed the file chooser without picking a file.
    DialogCancelled(Operation),
    /// Reading or writing the chosen file failed.
    FileIo(String),
}

/// The text that a caller is shown for a storage error.
pub open spec fn store_message(e: StoreError) -> Seq<char> {
    match e {
        StoreError::DialogCancelled(Operation::Save) => "Save cancelled"@,
        StoreError::DialogCancelled(Operation::Load) => "Load cancelled"@,
        StoreError::FileIo(m) => m@,
    }
}

impl StoreError {
    /// The text that a caller is shown: a fixed sentence for a dismissed
    /// chooser, the file system's own words otherwise.
    pub fn message(&self) -> (r: String)
        ensures
            r@ == store_message(*self),
    {
        match self {
            StoreError::DialogCancelled(Operation::Save) => String::from_str("Save cancelled"),
            StoreError::DialogCancelled(Operation::Load) => String::from_str("Load cancelled"),
            StoreError::FileIo(m) => m.clone(),
        }
    }
}

/// A write to perform: the whole content, verbatim, at the path.
#[derive(Clone, Debug, PartialEq, Eq)]
pub struct FileWrite {
    pub path: String,
    pub content: String,
}

/// Decides a save once the chooser has closed: with no file picked nothing
/// is written and the save fails as cancelled; otherwise the content is
/// written, unchanged, to the picked path.
pub fn save_plan(picked: Option<String>, content: String) -> (r: Result<FileWrite, StoreError>)
    ensures
        picked is None <==> r is Err,
        picked is None ==> r == Err::<FileWrite, StoreError>(
            StoreError::DialogCancelled(Operation::Save),
        ),
        picked matches Some(p) ==> r == Ok::<FileWrite, StoreError>(
            FileWrite { path: p, content },
        ),
{
    match picked {
        Some(path) => Ok(FileWrite { path, content }),
        None => Err(StoreError::DialogCancelled(Operation::Save)),
    }
}

/// Decides a load once the chooser has closed: with no file picked the load
/// fails as cancelled; otherwise the picked path is read.
pub fn load_plan(picked: Option<String>) -> (r: Result<String, StoreError>)
    ensures
        picked is None <==> r is Err,
        picked is None ==> r == Err::<String, StoreError>(
            StoreError::DialogCancelled(Operation::Load),
        ),
        picked matches Some(p) ==> r == Ok::<String, StoreError>(p),
{
    match picked {
        Some(path) => Ok(path),
        None => Err(StoreError::DialogCancelled(Operation::Load)),
    }
}

} // verus!
