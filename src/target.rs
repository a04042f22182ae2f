use vstd::prelude::*;

use crate::error::WgError;

verus! {

/// What to do with the target directory before anything is written.
#[derive(Debug, Clone, Copy, PartialEq, Eq)]
pub enum DirAction {
    /// Nothing is there: create it with its missing parents.
    Create,
    /// Use the directory as it is; nothing in it is removed.
    Reuse,
}

/// Decides on the target from what is found there. An absent path is created;
/// a file is refused; a directory with entries is refused unless `force`,
/// which only lifts that check.
pub fn target_dir_action(path: &str, exists: bool, is_dir: bool, has_entries: bool, force: bool) -> (r:
    Result<DirAction, WgError>)
    ensures
        !exists ==> r == Ok::<DirAction, WgError>(DirAction::Create),
        exists && !is_dir ==> (r matches Err(WgError::NotADirectory(p)) && p@ == path@),
        exists && is_dir && has_entries && !force ==> (r matches Err(WgError::DirectoryNotEmpty(p))
            && p@ == path@),
        exists && is_dir && (!has_entries || force) ==> r == Ok::<DirAction, WgError>(
            DirAction::Reuse,
        ),
{
    if !exists {
        Ok(DirAction::Create)
    } else if !is_dir {
        Err(WgError::NotADirectory(String::from_str(path)))
    } else if has_entries && !force {
        Err(WgError::DirectoryNotEmpty(String::from_str(path)))
    } else {
        Ok(DirAction::Reuse)
    }
}

} // verus!
