//! The change filter: does a batch of filesystem events concern the one
//! document being served?
//!
//! The watcher observes the document's parent directory (watching a single
//! file directly is unreliable: many editors replace a file by
//! write-to-temp-then-rename, which an OS watch can report as delete+create),
//! so each event carries the path of *some* entry under that directory. A
//! batch is relevant exactly when one of its events names the watched file —
//! compared by the filename component only. The comparison is pure and total:
//! a path with no extractable filename component matches nothing.

use vstd::prelude::*;
use vstd::string::StrSliceExecFns;

use crate::cache::InnerState;

verus! {

/// What kind of filesystem activity an event reports. The filter treats all
/// kinds alike (an editor may report a save as remove-plus-create), but the
/// kind is kept so a caller can tell them apart.
#[derive(Clone, Copy, Debug, PartialEq, Eq, Structural)]
pub enum ChangeKind {
    /// An entry appeared.
    Created,
    /// An entry's contents or metadata changed.
    Modified,
    /// An entry disappeared.
    Removed,
    /// Anything else the OS reports.
    Other,
}

/// One filesystem event of a change batch: the path it concerns and what
/// happened there.
#[derive(Clone, Debug)]
pub struct ChangeEvent {
    /// The path of the entry the event concerns, with `/` separating
    /// components.
    pub path: String,
    /// What kind of activity the event reports.
    pub kind: ChangeKind,
}

/// The text after the last `/` of a path (the whole path when it has no
/// `/`).
pub open spec fn name_component(path: Seq<char>) -> Seq<char>
    decreases path.len(),
{
    if path.len() == 0 {
        Seq::empty()
    } else if path.last() == '/' {
        Seq::empty()
    } else {
        name_component(path.drop_last()).push(path.last())
    }
}

/// The filename component of a path: the text after the last `/`, unless
/// that text is empty or one of the relative components `.` and `..`, which
/// name no file.
pub open spec fn file_name_text(path: Seq<char>) -> Option<Seq<char>> {
    let c = name_component(path);
    if c.len() == 0 || c == "."@ || c == ".."@ {
        None
    } else {
        Some(c)
    }
}

proof fn lemma_name_component_is_tail(path: Seq<char>, start: int)
    requires
        0 <= start <= path.len(),
        forall|j: int| start <= j < path.len() ==> path[j] != '/',
        start > 0 ==> path[start - 1] == '/',
    ensures
        name_component(path) == path.subrange(start, path.len() as int),
    decreases path.len(),
{
    if start == path.len() {
        assert(name_component(path) =~= path.subrange(start, path.len() as int));
    } else {
        assert(path.last() != '/');
        lemma_name_component_is_tail(path.drop_last(), start);
        assert(path.drop_last().subrange(start, path.drop_last().len() as int) =~= path.subrange(
            start,
            path.len() - 1,
        ));
        assert(path.subrange(start, path.len() - 1).push(path.last()) =~= path.subrange(
            start,
            path.len() as int,
        ));
    }
}

/// Extracts the filename component of a path, or nothing when the path has
/// none. Total: no path, however malformed, is an error.
pub fn file_name_of(path: &str) -> (r: Option<String>)
    ensures
        match r {
            Some(name) => file_name_text(path@) == Some(name@),
            None => file_name_text(path@) is None,
        },
{
    let n = path.unicode_len();
    let mut start: usize = n;
    loop
        invariant
            start <= n,
            n == path@.len(),
            forall|j: int| start <= j < n ==> path@[j] != '/',
        ensures
            start <= n,
            n == path@.len(),
            forall|j: int| start <= j < n ==> path@[j] != '/',
            start > 0 ==> path@[start - 1] == '/',
        decreases start,
    {
        if start == 0 {
            break;
        }
        if path.get_char(start - 1) == '/' {
            break;
        }
        start = start - 1;
    }
    proof {
        lemma_name_component_is_tail(path@, start as int);
        reveal_strlit(".");
        reveal_strlit("..");
    }
    let len = n - start;
    if len == 0 {
        return None;
    }
    if len == 1 && path.get_char(start) == '.' {
        proof {
            assert(name_component(path@) =~= "."@);
        }
        return None;
    }
    if len == 2 && path.get_char(start) == '.' && path.get_char(start + 1) == '.' {
        proof {
            assert(name_component(path@) =~= ".."@);
        }
        return None;
    }
    let name = path.substring_char(start, n).to_owned();
    proof {
        assert(name@ != "."@ && name@ != ".."@) by {
            if name@ == "."@ {
                assert(name@.len() == 1 && name@[0] == '.');
            }
            if name@ == ".."@ {
                assert(name@.len() == 2 && name@[0] == '.' && name@[1] == '.');
            }
        }
    }
    Some(name)
}

/// The text of a path up to and including its last `/` (empty when the path
/// has none).
pub open spec fn dir_part(path: Seq<char>) -> Seq<char>
    decreases path.len(),
{
    if path.len() == 0 {
        Seq::empty()
    } else if path.last() == '/' {
        path
    } else {
        dir_part(path.drop_last())
    }
}

/// The parent directory of a path: the text before its last `/`, with a lone
/// leading `/` kept. A path without `/` has no parent.
pub open spec fn parent_dir_text(path: Seq<char>) -> Option<Seq<char>> {
    let d = dir_part(path);
    if d.len() == 0 {
        None
    } else if d.len() == 1 {
        Some(d)
    } else {
        Some(d.drop_last())
    }
}

proof fn lemma_dir_part_is_head(path: Seq<char>, start: int)
    requires
        0 <= start <= path.len(),
        forall|j: int| start <= j < path.len() ==> path[j] != '/',
        start > 0 ==> path[start - 1] == '/',
    ensures
        dir_part(path) == path.subrange(0, start),
    decreases path.len(),
{
    if start == path.len() {
        assert(path.subrange(0, start) =~= path);
    } else {
        assert(path.last() != '/');
        lemma_dir_part_is_head(path.drop_last(), start);
        assert(path.drop_last().subrange(0, start) =~= path.subrange(0, start));
    }
}

/// Resolves the parent directory of a path — what the watcher observes,
/// since the document itself is found again by filename. Total: a path with
/// no parent yields nothing rather than an error.
pub fn parent_dir_of(path: &str) -> (r: Option<String>)
    ensures
        match r {
            Some(dir) => parent_dir_text(path@) == Some(dir@),
            None => parent_dir_text(path@) is None,
        },
{
    let n = path.unicode_len();
    let mut start: usize = n;
    loop
        invariant
            start <= n,
            n == path@.len(),
            forall|j: int| start <= j < n ==> path@[j] != '/',
        ensures
            start <= n,
            n == path@.len(),
            forall|j: int| start <= j < n ==> path@[j] != '/',
            start > 0 ==> path@[start - 1] == '/',
        decreases start,
    {
        if start == 0 {
            break;
        }
        if path.get_char(start - 1) == '/' {
            break;
        }
        start = start - 1;
    }
    proof {
        lemma_dir_part_is_head(path@, start as int);
    }
    if start == 0 {
        return None;
    }
    if start == 1 {
        let root = "/".to_owned();
        proof {
            reveal_strlit("/");
            assert(dir_part(path@) =~= "/"@);
        }
        return Some(root);
    }
    let dir = path.substring_char(0, start - 1).to_owned();
    proof {
        assert(dir@ =~= dir_part(path@).drop_last());
    }
    Some(dir)
}

/// Holds when one event names the watched file, by filename component.
pub open spec fn event_names_target(ev: ChangeEvent, target: Seq<char>) -> bool {
    file_name_text(ev.path@) == Some(target)
}

/// Holds when any event of the batch names the watched file.
pub open spec fn batch_names_target(batch: Seq<ChangeEvent>, target: Seq<char>) -> bool {
    exists|i: int| 0 <= i < batch.len() && event_names_target(#[trigger] batch[i], target)
}

/// Decides whether a change batch concerns the watched file: true iff some
/// event of the batch names `target`, comparing filename components only.
pub fn batch_matches(batch: &Vec<ChangeEvent>, target: &str) -> (b: bool)
    ensures
        b == batch_names_target(batch@, target@),
{
    let target_name: String = target.to_owned();
    let mut i: usize = 0;
    while i < batch.len()
        invariant
            i <= batch.len(),
            target_name@ == target@,
            forall|j: int| 0 <= j < i ==> !event_names_target(#[trigger] batch@[j], target@),
        decreases batch.len() - i,
    {
        match file_name_of(batch[i].path.as_str()) {
            Some(name) => {
                if name == target_name {
                    return true;
                }
            },
            None => {},
        }
        i = i + 1;
    }
    false
}

/// Inspects a change batch and, when it concerns the watched file, sets the
/// change marker on the cache. Returns whether the batch was relevant; the
/// published page is untouched either way.
pub fn filter_and_mark(batch: &Vec<ChangeEvent>, target: &str, state: &mut InnerState) -> (b: bool)
    ensures
        b == batch_names_target(batch@, target@),
        final(state).marker() == (old(state).marker() || b),
        final(state).page() == old(state).page(),
        final(state).path() == old(state).path(),
{
    let relevant = batch_matches(batch, target);
    if relevant {
        state.mark_changed();
    }
    relevant
}

} // verus!
