//! What loading a settings file comes to.
use vstd::prelude::*;

verus! {

/// The outcome of loading settings from a file.
#[derive(Debug, Clone, Copy, PartialEq, Eq)]
pub enum LoadPlan<S> {
    /// The file held valid settings: use them.
    UseStored(S),
    /// The file could not be read as settings: remove it, then use the defaults.
    RemoveFileThenUseDefault,
    /// There is no file: use the defaults.
    UseDefault,
}

/// Decides what loading comes to, given whether the settings file exists and,
/// if it was read, the settings parsed from it (`None` when reading or parsing
/// failed). A file that cannot be read as settings is removed, so that the
/// defaults are used from then on.
pub fn plan_load<S>(file_exists: bool, parsed: Option<S>) -> (plan: LoadPlan<S>)
    ensures
        !file_exists ==> plan == LoadPlan::<S>::UseDefault,
        file_exists ==> match parsed {
            Some(s) => plan == LoadPlan::UseStored(s),
            None => plan == LoadPlan::<S>::RemoveFileThenUseDefault,
        },
{
    if !file_exists {
        return LoadPlan::UseDefault;
    }
    match parsed {
        Some(s) => LoadPlan::UseStored(s),
        None => LoadPlan::RemoveFileThenUseDefault,
    }
}

} // verus!
