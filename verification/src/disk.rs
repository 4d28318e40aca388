use vstd::prelude::*;

verus! {

/// `std::path::Path::exists` answered `reply` for `path` in this run.
///
/// This records where an answer came from, not what the disk holds. Its
/// definition is closed to this module, which proves nothing of it, so
/// everywhere else it holds only where the contract of `path_exists` gives it
/// for a call on `path` that returned `reply`. It assumes nothing of the disk:
/// a path may be answered both ways when the disk changes between two calls.
pub closed spec fn replied_exists(path: Seq<char>, reply: bool) -> bool {
    true
}

/// `std::path::Path::is_dir` answered `reply` for `path` in this run.
///
/// Like `replied_exists`, it holds outside this module only where the
/// contract of `path_is_dir` gives it for a call on `path` that returned
/// `reply`, and it assumes nothing of the disk.
pub closed spec fn replied_is_dir(path: Seq<char>, reply: bool) -> bool {
    true
}

} // verus!
