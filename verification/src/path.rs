use vstd::prelude::*;
use vstd::string::*;

use crate::disk::{replied_exists, replied_is_dir};
use crate::text::views;

verus! {

/// What `std::path::Path::join` gives for `base` and `name`, as text, on the
/// target that this crate is built for.
pub uninterp spec fn joined(base: Seq<char>, name: Seq<char>) -> Seq<char>;

/// What `std::path::Path::parent` gives for `path`, as text.
pub uninterp spec fn parent_of(path: Seq<char>) -> Option<Seq<char>>;

/// Calls `std::path::Path::join`: `name` appended to `base` as a path.
/// The contract only names the result (`joined`); the separator and the
/// handling of an absolute `name` are left to std.
#[verifier::external_body]
pub(crate) fn path_join(base: &str, name: &str) -> (r: String)
    ensures
        r@ == joined(base@, name@),
{
    std::path::Path::new(base).join(name).to_string_lossy().into_owned()
}

/// Calls `std::path::Path::parent`: the path without its final component,
/// `None` for the empty path and for a path that ends in a root or a prefix.
/// The contract names the result (`parent_of`) and states what std documents:
/// a parent is the path without a component, so it is shorter, and the empty
/// path has none.
#[verifier::external_body]
fn path_parent(path: &str) -> (r: Option<String>)
    ensures
        match r {
            Some(p) => parent_of(path@) == Some(p@) && p@.len() < path@.len(),
            None => parent_of(path@) is None,
        },
        path@.len() == 0 ==> r is None,
{
    match std::path::Path::new(path).parent() {
        Some(p) => Some(p.to_string_lossy().into_owned()),
        None => None,
    }
}

/// Calls `std::path::Path::exists`: whether something is on disk at `path`.
/// What is on disk changes, so the contract does not say which answer comes;
/// it records the answer given for `path` (`replied_exists`), so that what the
/// callers decide can be traced back to the answers of the disk.
#[verifier::external_body]
pub(crate) fn path_exists(path: &str) -> (r: bool)
    ensures
        replied_exists(path@, r),
{
    std::path::Path::new(path).exists()
}

/// Calls `std::path::Path::is_dir`: whether a directory is on disk at `path`.
/// What is on disk changes, so the contract does not say which answer comes;
/// it records the answer given for `path` (`replied_is_dir`).
#[verifier::external_body]
pub(crate) fn path_is_dir(path: &str) -> (r: bool)
    ensures
        replied_is_dir(path@, r),
{
    std::path::Path::new(path).is_dir()
}

/// The directory `k` steps above `dir`: `dir` itself for `k == 0`, then its
/// parent, the parent's parent, and so on; `None` once there is no parent.
pub open spec fn ancestor(dir: Seq<char>, k: nat) -> Option<Seq<char>>
    decreases k,
{
    if k == 0 {
        Some(dir)
    } else {
        match ancestor(dir, (k - 1) as nat) {
            Some(d) => parent_of(d),
            None => None,
        }
    }
}

/// The candidate task files of a directory: the directory joined with each
/// of the names, in order.
pub open spec fn candidate_files(dir: Seq<char>, names: Seq<Seq<char>>) -> Seq<Seq<char>> {
    names.map_values(|n: Seq<char>| joined(dir, n))
}

/// The index of the first `true` of `marks`, if any.
pub open spec fn first_true(marks: Seq<bool>) -> Option<int>
    decreases marks.len(),
{
    if marks.len() == 0 {
        None
    } else if marks[0] {
        Some(0)
    } else {
        match first_true(marks.drop_first()) {
            Some(i) => Some(i + 1),
            None => None,
        }
    }
}

/// The first of `items` whose mark is `true`, if any.
pub open spec fn picked(items: Seq<Seq<char>>, marks: Seq<bool>) -> Option<Seq<char>> {
    match first_true(marks) {
        Some(i) => Some(items[i]),
        None => None,
    }
}

/// The text of an optional string.
pub open spec fn opt_view(o: Option<String>) -> Option<Seq<char>> {
    match o {
        Some(s) => Some(s@),
        None => None,
    }
}

/// `dirs` is the whole chain of `dir` and its ancestors, nearest first: the
/// `k`-th entry is `k` steps above `dir`, and the chain stops where a
/// directory has no parent.
pub open spec fn is_ancestor_chain(dir: Seq<char>, dirs: Seq<Seq<char>>) -> bool {
    &&& forall|k: int| 0 <= k < dirs.len() ==> ancestor(dir, k as nat) == Some(#[trigger] dirs[k])
    &&& ancestor(dir, dirs.len()) is None
}

/// Which paths exist on a disk, as a predicate on paths.
pub open spec fn marks_on(paths: Seq<Seq<char>>, on_disk: spec_fn(Seq<char>) -> bool) -> Seq<bool> {
    paths.map_values(|p: Seq<char>| on_disk(p))
}

/// The task file of `dir` on a disk where exactly the paths `on_disk` holds
/// for exist: the first candidate, in the order of the names, that exists.
#[verifier::opaque]
pub closed spec fn nurfile_in(
    dir: Seq<char>,
    names: Seq<Seq<char>>,
    on_disk: spec_fn(Seq<char>) -> bool,
) -> Option<Seq<char>> {
    picked(candidate_files(dir, names), marks_on(candidate_files(dir, names), on_disk))
}

/// For each of `dirs`, whether it holds a task file on the disk `on_disk`.
pub open spec fn project_marks(
    dirs: Seq<Seq<char>>,
    names: Seq<Seq<char>>,
    on_disk: spec_fn(Seq<char>) -> bool,
) -> Seq<bool> {
    dirs.map_values(|d: Seq<char>| nurfile_in(d, names, on_disk) is Some)
}

/// The project among `dirs` on the disk `on_disk`: the first of them, nearest
/// first, that holds a task file.
pub open spec fn project_among(
    dirs: Seq<Seq<char>>,
    names: Seq<Seq<char>>,
    on_disk: spec_fn(Seq<char>) -> bool,
) -> Option<Seq<char>> {
    picked(dirs, project_marks(dirs, names, on_disk))
}

/// `answers` are the replies of a search that asks about `n` paths in turn
/// and stops at the first "yes": all replies but the last are "no", and the
/// last is "yes" unless all `n` paths were asked about.
pub open spec fn probe_record(answers: Seq<bool>, n: nat) -> bool {
    &&& answers.len() <= n
    &&& forall|j: int| 0 <= j < answers.len() - 1 ==> !#[trigger] answers[j]
    &&& answers.len() == n || (answers.len() > 0 && answers[answers.len() - 1])
}

/// The disk `on_disk` gives the replies `answers` about the first paths of
/// `paths`.
pub open spec fn disk_agrees(
    paths: Seq<Seq<char>>,
    answers: Seq<bool>,
    on_disk: spec_fn(Seq<char>) -> bool,
) -> bool {
    forall|j: int| 0 <= j < answers.len() ==> #[trigger] answers[j] == on_disk(paths[j])
}

/// `path_exists` gave the replies `answers` for the first paths of `paths`.
pub open spec fn answers_given(paths: Seq<Seq<char>>, answers: Seq<bool>) -> bool {
    forall|j: int| 0 <= j < answers.len() ==> replied_exists(paths[j], #[trigger] answers[j])
}

/// `r` is what the search of `dir` for a task file under `names` gives for
/// the replies that `path_exists` gave: the first candidate whose reply was
/// "exists", asked in the order of the names; and on any disk that gives
/// those replies, it is that disk's task file of `dir`.
pub open spec fn nurfile_found(dir: Seq<char>, names: Seq<Seq<char>>, r: Option<Seq<char>>) -> bool {
    exists|answers: Seq<bool>|
        {
            &&& probe_record(answers, names.len())
            &&& answers_given(candidate_files(dir, names), answers)
            &&& r == picked(candidate_files(dir, names), answers)
            &&& forall|on_disk: spec_fn(Seq<char>) -> bool|
                #[trigger] disk_agrees(candidate_files(dir, names), answers, on_disk) ==> r
                    == nurfile_in(dir, names, on_disk)
        }
}

/// For each directory searched, whether its search found a task file, given
/// the replies `replies[j]` of the disk for the `j`-th directory.
pub open spec fn dir_answers(
    dirs: Seq<Seq<char>>,
    names: Seq<Seq<char>>,
    replies: Seq<Seq<bool>>,
) -> Seq<bool> {
    Seq::new(replies.len(), |j: int| picked(candidate_files(dirs[j], names), replies[j]) is Some)
}

/// The disk `on_disk` gives the replies `replies[j]` in the search of each
/// directory `dirs[j]`.
pub open spec fn search_agrees(
    dirs: Seq<Seq<char>>,
    names: Seq<Seq<char>>,
    replies: Seq<Seq<bool>>,
    on_disk: spec_fn(Seq<char>) -> bool,
) -> bool {
    forall|j: int|
        0 <= j < replies.len() ==> disk_agrees(
            candidate_files(dirs[j], names),
            #[trigger] replies[j],
            on_disk,
        )
}

/// `r` is what the search for the project of `cwd` gives for the replies
/// that `path_exists` gave: the directories of the ancestor chain of `cwd`
/// are searched nearest first until one holds a task file, and that one is
/// the result; and on any disk that gives those replies, it is that disk's
/// project among the ancestors of `cwd`.
pub open spec fn project_found(cwd: Seq<char>, names: Seq<Seq<char>>, r: Option<Seq<char>>) -> bool {
    exists|dirs: Seq<Seq<char>>, replies: Seq<Seq<bool>>|
        {
            &&& is_ancestor_chain(cwd, dirs)
            &&& forall|j: int|
                0 <= j < replies.len() ==> probe_record(#[trigger] replies[j], names.len())
            &&& forall|j: int|
                0 <= j < replies.len() ==> answers_given(
                    candidate_files(dirs[j], names),
                    #[trigger] replies[j],
                )
            &&& probe_record(dir_answers(dirs, names, replies), dirs.len())
            &&& r == picked(dirs, dir_answers(dirs, names, replies))
            &&& forall|on_disk: spec_fn(Seq<char>) -> bool|
                #[trigger] search_agrees(dirs, names, replies, on_disk) ==> r == project_among(
                    dirs,
                    names,
                    on_disk,
                )
        }
}

/// Replies that stop at the first "yes" pick what the full replies pick.
pub proof fn lemma_record_picks_same(items: Seq<Seq<char>>, answers: Seq<bool>, full: Seq<bool>)
    requires
        probe_record(answers, full.len()),
        full.len() == items.len(),
        forall|j: int| 0 <= j < answers.len() ==> answers[j] == full[j],
    ensures
        picked(items, answers) == picked(items, full),
{
    lemma_first_true(answers);
    lemma_first_true(full);
    if answers.len() > 0 && answers[answers.len() - 1] {
        let k = answers.len() - 1;
        assert forall|j: int| 0 <= j < k implies !full[j] by {
            assert(!answers[j]);
        }
        lemma_first_true_at(full, k);
        lemma_first_true_at(answers, k);
    } else {
        assert(answers.len() == full.len());
        assert(answers =~= full);
    }
}

/// `first_true` picks the first `true`, and there is none exactly when it
/// picks nothing.
pub proof fn lemma_first_true(marks: Seq<bool>)
    ensures
        first_true(marks) matches Some(i) ==> 0 <= i < marks.len() && marks[i] && forall|j: int|
            0 <= j < i ==> !marks[j],
        first_true(marks) is None <==> forall|j: int| 0 <= j < marks.len() ==> !marks[j],
    decreases marks.len(),
{
    if marks.len() > 0 && !marks[0] {
        let rest = marks.drop_first();
        lemma_first_true(rest);
        assert forall|j: int| 0 <= j < rest.len() implies rest[j] == marks[j + 1] by {}
        if let Some(i) = first_true(rest) {
            assert(first_true(marks) == Some(i + 1));
            assert(rest[i] == marks[i + 1]);
            assert forall|j: int| 0 <= j < i + 1 implies !marks[j] by {
                if j > 0 {
                    assert(rest[j - 1] == marks[j]);
                }
            }
        }
        if first_true(marks) is None {
            assert forall|j: int| 0 <= j < marks.len() implies !marks[j] by {
                if j > 0 {
                    assert(rest[j - 1] == marks[j]);
                }
            }
        }
    }
}

/// The first `true` is at `i` when `marks[i]` holds and nothing before it.
pub proof fn lemma_first_true_at(marks: Seq<bool>, i: int)
    requires
        0 <= i < marks.len(),
        marks[i],
        forall|j: int| 0 <= j < i ==> !marks[j],
    ensures
        first_true(marks) == Some(i),
{
    lemma_first_true(marks);
    if let Some(k) = first_true(marks) {
        assert(!(k < i));
        assert(!(i < k));
    }
}

/// The task file of a directory is the first candidate, in the order of the
/// names, that is on disk; there is none exactly when no candidate is.
pub proof fn lemma_nurfile_is_first_on_disk(
    dir: Seq<char>,
    names: Seq<Seq<char>>,
    on_disk: spec_fn(Seq<char>) -> bool,
)
    ensures
        match nurfile_in(dir, names, on_disk) {
            Some(f) => exists|i: int|
                0 <= i < names.len() && f == joined(dir, names[i]) && on_disk(f) && forall|j: int|
                    0 <= j < i ==> !on_disk(#[trigger] joined(dir, names[j])),
            None => forall|i: int| 0 <= i < names.len() ==> !on_disk(#[trigger] joined(dir, names[i])),
        },
{
    reveal(nurfile_in);
    let cands = candidate_files(dir, names);
    let marks = marks_on(cands, on_disk);
    lemma_first_true(marks);
    assert(marks.len() == names.len());
    assert forall|i: int| 0 <= i < names.len() implies marks[i] == on_disk(
        #[trigger] joined(dir, names[i]),
    ) by {
        assert(cands[i] == joined(dir, names[i]));
    }
    match first_true(marks) {
        Some(i) => {
            assert(cands[i] == joined(dir, names[i]));
            assert(nurfile_in(dir, names, on_disk) == Some(joined(dir, names[i])));
            assert forall|j: int| 0 <= j < i implies !on_disk(#[trigger] joined(dir, names[j])) by {
                assert(!marks[j]);
            }
            assert(on_disk(joined(dir, names[i])));
        },
        None => {
            assert forall|i: int| 0 <= i < names.len() implies !on_disk(
                #[trigger] joined(dir, names[i]),
            ) by {
                assert(!marks[i]);
            }
        },
    }
}


/// The project among directories is the first of them, nearest first, that
/// holds a task file; there is none exactly when none of them holds one.
pub proof fn lemma_project_is_nearest(
    dirs: Seq<Seq<char>>,
    names: Seq<Seq<char>>,
    on_disk: spec_fn(Seq<char>) -> bool,
)
    ensures
        match project_among(dirs, names, on_disk) {
            Some(p) => exists|k: int|
                0 <= k < dirs.len() && dirs[k] == p && nurfile_in(p, names, on_disk) is Some
                    && forall|j: int| 0 <= j < k ==> nurfile_in(#[trigger] dirs[j], names, on_disk) is None,
            None => forall|j: int|
                0 <= j < dirs.len() ==> nurfile_in(#[trigger] dirs[j], names, on_disk) is None,
        },
{
    let marks = project_marks(dirs, names, on_disk);
    lemma_first_true(marks);
    assert(marks.len() == dirs.len());
    assert forall|j: int| 0 <= j < dirs.len() implies marks[j] == (nurfile_in(
        #[trigger] dirs[j],
        names,
        on_disk,
    ) is Some) by {}
    match first_true(marks) {
        Some(k) => {
            assert(project_among(dirs, names, on_disk) == Some(dirs[k]));
            assert(marks[k]);
            assert forall|j: int| 0 <= j < k implies nurfile_in(
                #[trigger] dirs[j],
                names,
                on_disk,
            ) is None by {
                assert(!marks[j]);
            }
        },
        None => {
            assert forall|j: int| 0 <= j < dirs.len() implies nurfile_in(
                #[trigger] dirs[j],
                names,
                on_disk,
            ) is None by {
                assert(!marks[j]);
            }
        },
    }
}

/// Searching again from the project that a search found finds the same
/// project.
pub proof fn lemma_search_again_finds_the_project(
    cwd: Seq<char>,
    dirs: Seq<Seq<char>>,
    names: Seq<Seq<char>>,
    on_disk: spec_fn(Seq<char>) -> bool,
    project: Seq<char>,
    project_dirs: Seq<Seq<char>>,
)
    requires
        is_ancestor_chain(cwd, dirs),
        project_among(dirs, names, on_disk) == Some(project),
        is_ancestor_chain(project, project_dirs),
    ensures
        project_among(project_dirs, names, on_disk) == Some(project),
{
    lemma_project_is_nearest(dirs, names, on_disk);
    assert(ancestor(project, 0) == Some(project));
    assert(project_dirs.len() > 0);
    assert(project_dirs[0] == project);
    let marks = project_marks(project_dirs, names, on_disk);
    assert(marks[0]);
    lemma_first_true_at(marks, 0);
}

/// More names never lose a project: searching with names that include all
/// of `names` finds the same project or a nearer one.
pub proof fn lemma_more_names_find_same_or_nearer(
    dirs: Seq<Seq<char>>,
    names: Seq<Seq<char>>,
    more_names: Seq<Seq<char>>,
    on_disk: spec_fn(Seq<char>) -> bool,
)
    requires
        forall|i: int| 0 <= i < names.len() ==> more_names.contains(#[trigger] names[i]),
        project_among(dirs, names, on_disk) is Some,
    ensures
        exists|i: int, j: int|
            #![trigger dirs[i], dirs[j]]
            0 <= j <= i < dirs.len() && project_among(dirs, names, on_disk) == Some(dirs[i])
                && project_among(dirs, more_names, on_disk) == Some(dirs[j]),
{
    let marks = project_marks(dirs, names, on_disk);
    let more_marks = project_marks(dirs, more_names, on_disk);
    lemma_first_true(marks);
    lemma_first_true(more_marks);
    let i = first_true(marks)->0;
    let d = dirs[i];
    assert(marks[i]);
    assert(nurfile_in(d, names, on_disk) is Some);
    lemma_nurfile_is_first_on_disk(d, names, on_disk);
    lemma_nurfile_is_first_on_disk(d, more_names, on_disk);
    let ia = choose|ia: int|
        0 <= ia < names.len() && nurfile_in(d, names, on_disk) == Some(joined(d, names[ia]))
            && on_disk(joined(d, names[ia])) && forall|j: int|
            0 <= j < ia ==> !on_disk(#[trigger] joined(d, names[j]));
    assert(more_names.contains(names[ia]));
    let ib = choose|ib: int| 0 <= ib < more_names.len() && more_names[ib] == names[ia];
    assert(on_disk(joined(d, more_names[ib])));
    assert(nurfile_in(d, more_names, on_disk) is Some);
    assert(more_marks[i]);
    let j = first_true(more_marks)->0;
    assert(j <= i);
    assert(project_among(dirs, names, on_disk) == Some(dirs[i]));
    assert(project_among(dirs, more_names, on_disk) == Some(dirs[j]));
}

/// Searching a directory under two lists of names, one after the other, is
/// searching under the first and, where that finds nothing, under the second.
pub proof fn lemma_names_one_after_the_other(
    dir: Seq<char>,
    first: Seq<Seq<char>>,
    second: Seq<Seq<char>>,
    on_disk: spec_fn(Seq<char>) -> bool,
)
    ensures
        nurfile_in(dir, first + second, on_disk) == (if nurfile_in(dir, first, on_disk) is Some {
            nurfile_in(dir, first, on_disk)
        } else {
            nurfile_in(dir, second, on_disk)
        }),
{
    reveal(nurfile_in);
    let both = first + second;
    let cands = candidate_files(dir, both);
    let marks = marks_on(cands, on_disk);
    lemma_nurfile_is_first_on_disk(dir, first, on_disk);
    lemma_nurfile_is_first_on_disk(dir, second, on_disk);
    lemma_first_true(marks);
    assert forall|i: int| 0 <= i < both.len() implies marks[i] == on_disk(joined(dir, both[i])) by {
        assert(cands[i] == joined(dir, both[i]));
    }
    assert forall|i: int| 0 <= i < first.len() implies both[i] == first[i] by {}
    assert forall|i: int| 0 <= i < second.len() implies both[first.len() + i] == second[i] by {}
    if let Some(f) = nurfile_in(dir, first, on_disk) {
        let ia = choose|ia: int|
            0 <= ia < first.len() && f == joined(dir, first[ia]) && on_disk(f) && forall|j: int|
                0 <= j < ia ==> !on_disk(#[trigger] joined(dir, first[j]));
        assert forall|j: int| 0 <= j < ia implies !marks[j] by {
            assert(both[j] == first[j]);
        }
        lemma_first_true_at(marks, ia);
        assert(cands[ia] == joined(dir, both[ia]));
    } else if let Some(f) = nurfile_in(dir, second, on_disk) {
        let ib = choose|ib: int|
            0 <= ib < second.len() && f == joined(dir, second[ib]) && on_disk(f) && forall|j: int|
                0 <= j < ib ==> !on_disk(#[trigger] joined(dir, second[j]));
        let k = first.len() + ib;
        assert forall|j: int| 0 <= j < k implies !marks[j] by {
            if j < first.len() {
                assert(both[j] == first[j]);
            } else {
                assert(both[j] == second[j - first.len()]);
            }
        }
        assert(both[k] == second[ib]);
        lemma_first_true_at(marks, k);
        assert(cands[k] == joined(dir, both[k]));
    } else {
        assert forall|j: int| 0 <= j < both.len() implies !marks[j] by {
            if j < first.len() {
                assert(both[j] == first[j]);
            } else {
                assert(both[j] == second[j - first.len()]);
            }
        }
    }
}

/// `path_exists` answered "does not exist" for every candidate task file of
/// `dir`.
pub open spec fn answered_absent(dir: Seq<char>, names: Seq<Seq<char>>) -> bool {
    forall|i: int| 0 <= i < names.len() ==> replied_exists(#[trigger] joined(dir, names[i]), false)
}

/// `path_exists` answered "exists" for the `i`-th candidate task file of
/// `dir`, and "does not exist" for each candidate before it.
pub open spec fn answered_first_at(dir: Seq<char>, names: Seq<Seq<char>>, i: int) -> bool {
    &&& 0 <= i < names.len()
    &&& replied_exists(joined(dir, names[i]), true)
    &&& forall|j: int| 0 <= j < i ==> replied_exists(#[trigger] joined(dir, names[j]), false)
}

/// The task file `r` of `dir` is what the disk answered: a candidate that
/// `path_exists` answered "exists" for after "does not exist" for each
/// candidate before it, or none when it answered "does not exist" for all.
pub open spec fn nurfile_answered(dir: Seq<char>, names: Seq<Seq<char>>, r: Option<Seq<char>>) -> bool {
    match r {
        Some(f) => exists|i: int| answered_first_at(dir, names, i) && f == joined(dir, names[i]),
        None => answered_absent(dir, names),
    }
}

/// `path_exists` answered "exists" for a candidate task file of `dirs[k]`,
/// and "does not exist" for every candidate of each directory before it.
pub open spec fn answered_project_at(dirs: Seq<Seq<char>>, names: Seq<Seq<char>>, k: int) -> bool {
    &&& 0 <= k < dirs.len()
    &&& exists|i: int| answered_first_at(dirs[k], names, i)
    &&& forall|j: int| 0 <= j < k ==> answered_absent(#[trigger] dirs[j], names)
}

/// The project `r` among `dirs` is what the disk answered: the first of them
/// with a candidate answered "exists", or none when every candidate of
/// every one of them was answered "does not exist".
pub open spec fn project_answered_among(dirs: Seq<Seq<char>>, names: Seq<Seq<char>>, r: Option<Seq<char>>) -> bool {
    match r {
        Some(d) => exists|k: int| #[trigger] answered_project_at(dirs, names, k) && dirs[k] == d,
        None => forall|j: int| 0 <= j < dirs.len() ==> answered_absent(#[trigger] dirs[j], names),
    }
}

/// The project `r` of `cwd` is what the disk answered: a directory of the
/// whole ancestor chain of `cwd` that holds a candidate answered "exists",
/// where every nearer directory had all its candidates answered "does not
/// exist"; or none, when every directory of the chain up to the root had all
/// its candidates answered "does not exist".
pub open spec fn project_answered(cwd: Seq<char>, names: Seq<Seq<char>>, r: Option<Seq<char>>) -> bool {
    exists|dirs: Seq<Seq<char>>|
        #[trigger] is_ancestor_chain(cwd, dirs) && project_answered_among(dirs, names, r)
}

/// Replies of `path_exists` that stop at the first "exists" pick the task
/// file that the disk answered.
pub proof fn lemma_replies_pick_answered(dir: Seq<char>, names: Seq<Seq<char>>, answers: Seq<bool>)
    requires
        probe_record(answers, names.len()),
        answers_given(candidate_files(dir, names), answers),
    ensures
        nurfile_answered(dir, names, picked(candidate_files(dir, names), answers)),
{
    let cands = candidate_files(dir, names);
    lemma_first_true(answers);
    assert forall|j: int| 0 <= j < answers.len() implies replied_exists(
        #[trigger] joined(dir, names[j]),
        answers[j],
    ) by {
        assert(cands[j] == joined(dir, names[j]));
    }
    match first_true(answers) {
        Some(i) => {
            assert(cands[i] == joined(dir, names[i]));
            assert forall|j: int| 0 <= j < i implies replied_exists(
                #[trigger] joined(dir, names[j]),
                false,
            ) by {
                assert(!answers[j]);
            }
            assert(answered_first_at(dir, names, i));
        },
        None => {
            if answers.len() != names.len() {
                assert(answers[answers.len() - 1]);
            }
            assert forall|i: int| 0 <= i < names.len() implies replied_exists(
                #[trigger] joined(dir, names[i]),
                false,
            ) by {
                assert(!answers[i]);
            }
        },
    }
}

/// The task file that a search of a directory finds is a candidate that
/// `path_exists` answered "exists" for, after it answered "does not exist"
/// for each candidate before it; the search finds none only when
/// `path_exists` answered "does not exist" for every candidate.
pub proof fn lemma_found_nurfile_answered(dir: Seq<char>, names: Seq<Seq<char>>, r: Option<Seq<char>>)
    requires
        nurfile_found(dir, names, r),
    ensures
        nurfile_answered(dir, names, r),
{
    let answers = choose|answers: Seq<bool>|
        {
            &&& probe_record(answers, names.len())
            &&& answers_given(candidate_files(dir, names), answers)
            &&& r == picked(candidate_files(dir, names), answers)
            &&& forall|on_disk: spec_fn(Seq<char>) -> bool|
                #[trigger] disk_agrees(candidate_files(dir, names), answers, on_disk) ==> r
                    == nurfile_in(dir, names, on_disk)
        };
    lemma_replies_pick_answered(dir, names, answers);
}

/// The project that a search finds is the nearest directory, from the working
/// directory up through all its ancestors, that `path_exists` answered holds
/// a task file, every nearer directory having had all its candidates answered
/// "does not exist"; the search finds none only when that was answered for
/// every directory up to the root.
pub proof fn lemma_found_project_answered(cwd: Seq<char>, names: Seq<Seq<char>>, r: Option<Seq<char>>)
    requires
        project_found(cwd, names, r),
    ensures
        project_answered(cwd, names, r),
{
    let (dirs, replies) = choose|dirs: Seq<Seq<char>>, replies: Seq<Seq<bool>>|
        {
            &&& is_ancestor_chain(cwd, dirs)
            &&& forall|j: int|
                0 <= j < replies.len() ==> probe_record(#[trigger] replies[j], names.len())
            &&& forall|j: int|
                0 <= j < replies.len() ==> answers_given(
                    candidate_files(dirs[j], names),
                    #[trigger] replies[j],
                )
            &&& probe_record(dir_answers(dirs, names, replies), dirs.len())
            &&& r == picked(dirs, dir_answers(dirs, names, replies))
            &&& forall|on_disk: spec_fn(Seq<char>) -> bool|
                #[trigger] search_agrees(dirs, names, replies, on_disk) ==> r == project_among(
                    dirs,
                    names,
                    on_disk,
                )
        };
    let marks = dir_answers(dirs, names, replies);
    lemma_first_true(marks);
    assert forall|j: int| 0 <= j < marks.len() implies nurfile_answered(
        dirs[j],
        names,
        picked(candidate_files(dirs[j], names), replies[j]),
    ) by {
        assert(probe_record(replies[j], names.len()));
        assert(answers_given(candidate_files(dirs[j], names), replies[j]));
        lemma_replies_pick_answered(dirs[j], names, replies[j]);
    }
    match first_true(marks) {
        Some(k) => {
            assert(marks[k]);
            let here = picked(candidate_files(dirs[k], names), replies[k]);
            assert(here is Some);
            assert(nurfile_answered(dirs[k], names, here));
            assert(exists|i: int| answered_first_at(dirs[k], names, i));
            assert forall|j: int| 0 <= j < k implies answered_absent(#[trigger] dirs[j], names) by {
                assert(!marks[j]);
                assert(nurfile_answered(
                    dirs[j],
                    names,
                    picked(candidate_files(dirs[j], names), replies[j]),
                ));
            }
            assert(r == Some(dirs[k]));
            assert(answered_project_at(dirs, names, k));
            assert(project_answered_among(dirs, names, r));
            assert(is_ancestor_chain(cwd, dirs));
            assert(project_answered(cwd, names, r));
        },
        None => {
            if marks.len() != dirs.len() {
                assert(marks[marks.len() - 1]);
            }
            assert forall|j: int| 0 <= j < dirs.len() implies answered_absent(#[trigger] dirs[j], names) by {
                assert(!marks[j]);
                assert(nurfile_answered(
                    dirs[j],
                    names,
                    picked(candidate_files(dirs[j], names), replies[j]),
                ));
            }
            assert(project_answered_among(dirs, names, r));
            assert(is_ancestor_chain(cwd, dirs));
            assert(project_answered(cwd, names, r));
        },
    }
}

/// The index of the first `true` of `marks`, if any.
pub fn first_marked(marks: &Vec<bool>) -> (r: Option<usize>)
    ensures
        match r {
            Some(i) => first_true(marks@) == Some(i as int),
            None => first_true(marks@) is None,
        },
{
    let mut i: usize = 0;
    while i < marks.len()
        invariant
            i <= marks.len(),
            forall|j: int| 0 <= j < i ==> !marks@[j],
        decreases marks.len() - i,
    {
        if marks[i] {
            proof {
                lemma_first_true_at(marks@, i as int);
            }
            return Some(i);
        }
        i = i + 1;
    }
    proof {
        lemma_first_true(marks@);
    }
    None
}

/// The first of `items` whose mark is `true`, if any.
pub fn pick_first(items: &Vec<String>, marks: &Vec<bool>) -> (r: Option<String>)
    requires
        marks.len() <= items.len(),
    ensures
        opt_view(r) == picked(views(items@), marks@),
{
    proof {
        lemma_first_true(marks@);
    }
    match first_marked(marks) {
        Some(i) => Some(items[i].clone()),
        None => None,
    }
}

/// The candidate task files of `dir`: `dir` joined with each of `names`, in
/// the order of the names.
pub fn nurfile_candidates(dir: &str, names: &Vec<String>) -> (r: Vec<String>)
    ensures
        views(r@) == candidate_files(dir@, views(names@)),
{
    let mut r: Vec<String> = Vec::new();
    let mut i: usize = 0;
    while i < names.len()
        invariant
            i <= names.len(),
            views(r@) == candidate_files(dir@, views(names@)).take(i as int),
        decreases names.len() - i,
    {
        let ghost before = r@;
        let c = path_join(dir, names[i].as_str());
        r.push(c);
        proof {
            assert(r@ == before.push(c));
            assert(views(r@) =~= views(before).push(c@));
            assert(views(names@)[i as int] == names@[i as int]@);
            assert(candidate_files(dir@, views(names@))[i as int] == c@);
            assert(views(r@) =~= candidate_files(dir@, views(names@)).take(i + 1));
        }
        i = i + 1;
    }
    proof {
        assert(candidate_files(dir@, views(names@)).take(names.len() as int) =~= candidate_files(
            dir@,
            views(names@),
        ));
    }
    r
}

/// `dir` and all its ancestors, nearest first, up to the one that has no
/// parent.
pub fn ancestor_dirs(dir: &str) -> (r: Vec<String>)
    ensures
        is_ancestor_chain(dir@, views(r@)),
{
    let mut dirs: Vec<String> = Vec::new();
    let mut current: Option<String> = Some(String::from_str(dir));
    let ghost mut k: nat = 0;
    while current.is_some()
        invariant
            dirs@.len() == k,
            forall|j: int| 0 <= j < k ==> ancestor(dir@, j as nat) == Some(#[trigger] views(dirs@)[j]),
            ancestor(dir@, k) == opt_view(current),
        decreases
            match current {
                Some(p) => p@.len() + 1,
                None => 0,
            },
    {
        let path = match current {
            Some(p) => p,
            None => String::new(),
        };
        let next = path_parent(path.as_str());
        let ghost before = dirs@;
        let ghost p = path@;
        dirs.push(path);
        current = next;
        proof {
            assert(views(dirs@) =~= views(before).push(p));
            assert(ancestor(dir@, k + 1) == parent_of(p));
            k = k + 1;
        }
    }
    dirs
}

/// Looks in `project_path` for the first of `nurfile_names` that exists
/// there and returns its path.
///
/// Each candidate is asked of the disk, in the order of the names, until one
/// exists; the replies are gathered and the result is picked from them by
/// `pick_first`. What the disk replies is not known beforehand, so the
/// contract states the result for the replies that `path_exists` gave
/// (`nurfile_found`, `nurfile_answered`): the first candidate answered
/// "exists", after "does not exist" for each candidate before it, or none
/// when every candidate was answered "does not exist"; and, while the disk
/// does not change, the first candidate on that disk (`nurfile_in`).
pub fn find_nurfile(project_path: &str, nurfile_names: &Vec<String>) -> (r: Option<String>)
    ensures
        nurfile_found(project_path@, views(nurfile_names@), opt_view(r)),
        nurfile_answered(project_path@, views(nurfile_names@), opt_view(r)),
        r matches Some(f) ==> candidate_files(project_path@, views(nurfile_names@)).contains(f@),
        nurfile_names@.len() == 0 ==> r is None,
{
    let candidates = nurfile_candidates(project_path, nurfile_names);
    let ghost cands = candidate_files(project_path@, views(nurfile_names@));
    let mut answers: Vec<bool> = Vec::new();
    let mut found = false;
    let mut i: usize = 0;
    while i < candidates.len() && !found
        invariant
            i <= candidates.len(),
            views(candidates@) == cands,
            cands == candidate_files(project_path@, views(nurfile_names@)),
            cands.len() == nurfile_names@.len(),
            answers@.len() == i,
            answers_given(cands, answers@),
            forall|j: int| 0 <= j < i - 1 ==> !#[trigger] answers@[j],
            found ==> i > 0 && answers@[i - 1],
            !found ==> forall|j: int| 0 <= j < i ==> !#[trigger] answers@[j],
        decreases candidates.len() - i,
    {
        let exists = path_exists(candidates[i].as_str());
        proof {
            assert(candidates@[i as int]@ == cands[i as int]);
        }
        let ghost before = answers@;
        answers.push(exists);
        proof {
            assert forall|j: int| 0 <= j < answers@.len() implies replied_exists(
                cands[j],
                #[trigger] answers@[j],
            ) by {
                if j < i {
                    assert(answers@[j] == before[j]);
                }
            }
        }
        found = exists;
        i = i + 1;
    }
    let r = pick_first(&candidates, &answers);
    proof {
        let a = answers@;
        assert(probe_record(a, cands.len()));
        assert forall|on_disk: spec_fn(Seq<char>) -> bool|
            #[trigger] disk_agrees(cands, a, on_disk) implies opt_view(r) == nurfile_in(
            project_path@,
            views(nurfile_names@),
            on_disk,
        ) by {
            reveal(nurfile_in);
            lemma_record_picks_same(cands, a, marks_on(cands, on_disk));
        }
        assert(probe_record(a, views(nurfile_names@).len()) && opt_view(r) == picked(cands, a));
        lemma_first_true(a);
        if let Some(k) = first_true(a) {
            assert(cands.contains(cands[k]));
        }
        lemma_found_nurfile_answered(project_path@, views(nurfile_names@), opt_view(r));
    }
    r
}

/// Walks up from `cwd` through its parents and returns the first directory
/// that holds one of `nurfile_names`, or `None` when no directory up to the
/// root holds one.
///
/// The directories of the ancestor chain of `cwd` are searched, nearest
/// first, until one holds a task file; whether each held one is gathered and
/// the result is picked from that by `pick_first`. What the disk replies is
/// not known beforehand, so the contract states the result for the replies
/// that `path_exists` gave (`project_found`, `project_answered`): the first
/// directory of the whole ancestor chain with a candidate answered "exists",
/// every nearer one having had all its candidates answered "does not exist",
/// or none when that was answered for every directory up to the root; and,
/// while the disk does not change, the nearest directory holding a task file
/// on that disk (`project_among`).
pub fn find_project_path(cwd: &str, nurfile_names: &Vec<String>) -> (r: Option<String>)
    ensures
        project_found(cwd@, views(nurfile_names@), opt_view(r)),
        project_answered(cwd@, views(nurfile_names@), opt_view(r)),
        r matches Some(d) ==> exists|k: nat| ancestor(cwd@, k) == Some(d@),
        nurfile_names@.len() == 0 ==> r is None,
{
    let dirs = ancestor_dirs(cwd);
    let ghost chain = views(dirs@);
    let ghost names = views(nurfile_names@);
    let ghost mut replies: Seq<Seq<bool>> = Seq::empty();
    let mut answers: Vec<bool> = Vec::new();
    let mut found = false;
    let mut i: usize = 0;
    while i < dirs.len() && !found
        invariant
            i <= dirs.len(),
            views(dirs@) == chain,
            names == views(nurfile_names@),
            is_ancestor_chain(cwd@, chain),
            replies.len() == i,
            answers@ == dir_answers(chain, names, replies),
            forall|j: int| 0 <= j < i ==> probe_record(#[trigger] replies[j], names.len()),
            forall|j: int, on_disk: spec_fn(Seq<char>) -> bool|
                0 <= j < i && #[trigger] disk_agrees(
                    candidate_files(chain[j], names),
                    replies[j],
                    on_disk,
                ) ==> picked(candidate_files(chain[j], names), replies[j]) == nurfile_in(
                    chain[j],
                    names,
                    on_disk,
                ),
            forall|j: int|
                0 <= j < i ==> answers_given(candidate_files(chain[j], names), #[trigger] replies[j]),
            names.len() == 0 ==> forall|j: int| 0 <= j < i ==> !#[trigger] answers@[j],
            forall|j: int| 0 <= j < i - 1 ==> !#[trigger] answers@[j],
            found ==> i > 0 && answers@[i - 1],
            !found ==> forall|j: int| 0 <= j < i ==> !#[trigger] answers@[j],
        decreases dirs.len() - i,
    {
        let here = find_nurfile(dirs[i].as_str(), nurfile_names);
        let holds = here.is_some();
        proof {
            let d = chain[i as int];
            assert(dirs@[i as int]@ == d);
            let reply = choose|reply: Seq<bool>|
                {
                    &&& probe_record(reply, names.len())
                    &&& answers_given(candidate_files(d, names), reply)
                    &&& opt_view(here) == picked(candidate_files(d, names), reply)
                    &&& forall|on_disk: spec_fn(Seq<char>) -> bool|
                        #[trigger] disk_agrees(candidate_files(d, names), reply, on_disk)
                            ==> opt_view(here) == nurfile_in(d, names, on_disk)
                };
            let old_replies = replies;
            replies = replies.push(reply);
            assert forall|j: int| 0 <= j < old_replies.len() implies replies[j] == old_replies[j] by {}
            assert(dir_answers(chain, names, replies) =~= dir_answers(
                chain,
                names,
                old_replies,
            ).push(holds));
        }
        answers.push(holds);
        found = holds;
        i = i + 1;
    }
    let r = pick_first(&dirs, &answers);
    proof {
        let a = answers@;
        assert(probe_record(a, chain.len()));
        assert forall|on_disk: spec_fn(Seq<char>) -> bool|
            #[trigger] search_agrees(chain, names, replies, on_disk) implies opt_view(r)
            == project_among(chain, names, on_disk) by {
            let full = project_marks(chain, names, on_disk);
            assert forall|j: int| 0 <= j < a.len() implies a[j] == full[j] by {
                assert(disk_agrees(candidate_files(chain[j], names), replies[j], on_disk));
            }
            lemma_record_picks_same(chain, a, full);
        }
        lemma_first_true(a);
        if let Some(k) = first_true(a) {
            assert(ancestor(cwd@, k as nat) == Some(chain[k]));
        }
        assert(project_found(cwd@, names, opt_view(r)));
        lemma_found_project_answered(cwd@, names, opt_view(r));
    }
    r
}

} // verus!
