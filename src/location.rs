use vstd::prelude::*;
use vstd::string::StringExecFns;

verus! {

/// Where the document is kept.
#[derive(Clone, Copy, Debug, PartialEq, Eq, Structural)]
pub enum DataLocation {
    /// `todo.json` in the working directory.
    Local,
    /// `.todo.json` in the user's home directory.
    Home,
}

/// Why the document could not be read or written.
#[derive(Clone, Copy, Debug, PartialEq, Eq, Structural)]
pub enum StorageError {
    /// No local file exists and the home directory is unknown.
    NoHomeDirectory,
    /// The stored document could not be parsed.
    CorruptData,
    /// The file system refused a read or a write.
    IoError,
}

/// A local `todo.json` wins; otherwise the file in the home directory, if
/// the home directory is known.
pub fn resolve_location(local_exists: bool, home_known: bool) -> (r: Result<DataLocation, StorageError>)
    ensures
        local_exists ==> r == Ok::<DataLocation, StorageError>(DataLocation::Local),
        !local_exists && home_known ==> r == Ok::<DataLocation, StorageError>(DataLocation::Home),
        !local_exists && !home_known ==> r == Err::<DataLocation, StorageError>(StorageError::NoHomeDirectory),
{
    if local_exists {
        Ok(DataLocation::Local)
    } else if home_known {
        Ok(DataLocation::Home)
    } else {
        Err(StorageError::NoHomeDirectory)
    }
}

/// The title-bar label: global for the home file, else the name of the
/// working directory, else a generic local label.
pub open spec fn context_label(is_global: bool, dir_name: Option<Seq<char>>) -> Seq<char> {
    if is_global {
        "[global]: "@
    } else {
        match dir_name {
            Some(d) => "["@ + d + "]:"@,
            None => "[local]: "@,
        }
    }
}

/// The title-bar label for the document's location.
pub fn context_prefix(is_global: bool, dir_name: Option<&str>) -> (r: String)
    ensures
        r@ == context_label(is_global, match dir_name {
            Some(d) => Some(d@),
            None => None,
        }),
{
    if is_global {
        <String as StringExecFns>::from_str("[global]: ")
    } else {
        match dir_name {
            Some(d) => <String as StringExecFns>::from_str("[").concat(d).concat("]:"),
            None => <String as StringExecFns>::from_str("[local]: "),
        }
    }
}

} // verus!
