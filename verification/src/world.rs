//! World folders: how one is told from another, and which one is active.

use vstd::prelude::*;

verus! {

/// The path of a world folder, used only to tell worlds apart.
///
/// Two identities name the same world exactly when their paths are the same
/// text.
#[derive(Clone, Debug)]
pub struct WorldIdentity {
    path: String,
}

impl View for WorldIdentity {
    type V = Seq<char>;

    closed spec fn view(&self) -> Seq<char> {
        self.path@
    }
}

impl WorldIdentity {
    pub fn new(path: String) -> (identity: WorldIdentity)
        ensures
            identity@ == path@,
    {
        WorldIdentity { path }
    }

    pub fn from_path(path: &str) -> (identity: WorldIdentity)
        ensures
            identity@ == path@,
    {
        WorldIdentity { path: path.to_owned() }
    }

    pub fn as_str(&self) -> (path: &str)
        ensures
            path@ == self@,
    {
        self.path.as_str()
    }

    pub fn same_world(&self, other: &WorldIdentity) -> (same: bool)
        ensures
            same == (self@ == other@),
    {
        self.path == other.path
    }

    pub fn duplicate(&self) -> (copy: WorldIdentity)
        ensures
            copy@ == self@,
    {
        WorldIdentity { path: self.path.clone() }
    }
}

impl PartialEq for WorldIdentity {
    fn eq(&self, other: &WorldIdentity) -> (same: bool) {
        self.path == other.path
    }
}

impl Eq for WorldIdentity {}

impl vstd::std_specs::cmp::PartialEqSpecImpl for WorldIdentity {
    open spec fn obeys_eq_spec() -> bool {
        true
    }

    open spec fn eq_spec(&self, other: &WorldIdentity) -> bool {
        self@ == other@
    }
}

/// One child of the watched folder.
#[derive(Clone, Debug)]
pub struct WorldCandidate {
    /// The child's path.
    pub path: String,
    /// When the child was last modified, in nanoseconds since the start of
    /// 1970, or `None` where that could not be read.
    pub modified: Option<i128>,
}

impl WorldCandidate {
    pub fn new(path: String, modified: Option<i128>) -> (candidate: WorldCandidate)
        ensures
            candidate.path@ == path@,
            candidate.modified == modified,
    {
        WorldCandidate { path, modified }
    }
}

/// What listing the watched folder gave.
#[derive(Clone, Debug)]
pub enum DirectoryListing {
    /// The folder could not be listed.
    Unreadable,
    /// The folder's children, in the order in which they were listed.
    Children(Vec<WorldCandidate>),
}

/// Why no world was selected.
#[derive(Clone, Copy, Debug, PartialEq, Eq, Structural)]
pub enum SelectionError {
    /// The folder has no child with a readable modification time.
    NoCandidates,
    /// The folder itself could not be listed.
    DirectoryUnreadable,
}

/// Among the first `upto` children, child `k` has a modification time and
/// none is newer; of several that are equally new, `k` is the one listed
/// last.
pub open spec fn leads(children: Seq<WorldCandidate>, upto: int, k: int) -> bool {
    &&& 0 <= k < upto <= children.len()
    &&& children[k].modified is Some
    &&& forall|j: int|
        0 <= j < upto && (#[trigger] children[j]).modified is Some ==> {
            &&& children[j].modified->0 <= children[k].modified->0
            &&& j > k ==> children[j].modified->0 < children[k].modified->0
        }
}

/// Some child has a readable modification time.
pub open spec fn has_candidate(children: Seq<WorldCandidate>) -> bool {
    exists|j: int| 0 <= j < children.len() && (#[trigger] children[j]).modified is Some
}

/// Child `k` is the active world: the most recently modified one, and the
/// last listed of those.
pub open spec fn is_active(children: Seq<WorldCandidate>, k: int) -> bool {
    leads(children, children.len() as int, k)
}

/// The place of the active world in the listing, if there is one.
pub open spec fn active_index(children: Seq<WorldCandidate>) -> Option<int> {
    if exists|k: int| is_active(children, k) {
        Some(choose|k: int| is_active(children, k))
    } else {
        None
    }
}

/// The path of the active world, or the reason why there is none.
pub open spec fn selection_of(listing: DirectoryListing) -> Result<Seq<char>, SelectionError> {
    match listing {
        DirectoryListing::Unreadable => Err(SelectionError::DirectoryUnreadable),
        DirectoryListing::Children(children) => match active_index(children@) {
            Some(k) => Ok(children@[k].path@),
            None => Err(SelectionError::NoCandidates),
        },
    }
}

/// At most one child is the active world.
pub proof fn active_world_is_unique(children: Seq<WorldCandidate>, a: int, b: int)
    requires
        is_active(children, a),
        is_active(children, b),
    ensures
        a == b,
{
    assert(children[a].modified is Some);
    assert(children[b].modified is Some);
}

/// There is an active world exactly when some child has a modification time.
pub proof fn active_world_exists(children: Seq<WorldCandidate>)
    ensures
        active_index(children) is Some <==> has_candidate(children),
        active_index(children) matches Some(k) ==> is_active(children, k),
{
    if has_candidate(children) {
        let k = lead_through(children, children.len() as int);
        assert(is_active(children, k));
    } else {
        assert forall|k: int| !is_active(children, k) by {
            if is_active(children, k) {
                assert(children[k].modified is Some);
            }
        }
    }
}

/// A leader among the first `upto` children, where one of them has a
/// modification time.
proof fn lead_through(children: Seq<WorldCandidate>, upto: int) -> (k: int)
    requires
        0 <= upto <= children.len(),
        exists|j: int| 0 <= j < upto && (#[trigger] children[j]).modified is Some,
    ensures
        leads(children, upto, k),
    decreases upto,
{
    let last = upto - 1;
    if exists|j: int| 0 <= j < last && (#[trigger] children[j]).modified is Some {
        let before = lead_through(children, last);
        if children[last].modified is Some && children[last].modified->0
            >= children[before].modified->0 {
            last
        } else {
            before
        }
    } else {
        assert(children[last].modified is Some);
        last
    }
}

/// Picks the active world out of a listing of the watched folder: the child
/// that was modified most recently. Children without a readable modification
/// time are passed over. Of several children modified at the same instant,
/// the one listed last is taken.
pub fn select_active_world(listing: &DirectoryListing) -> (selected: Result<
    WorldIdentity,
    SelectionError,
>)
    ensures
        match selected {
            Ok(world) => selection_of(*listing) == Ok::<Seq<char>, SelectionError>(world@),
            Err(error) => selection_of(*listing) == Err::<Seq<char>, SelectionError>(error),
        },
        selected is Ok <==> (listing matches DirectoryListing::Children(children) && has_candidate(
            children@,
        )),
{
    let children = match listing {
        DirectoryListing::Unreadable => {
            return Err(SelectionError::DirectoryUnreadable);
        },
        DirectoryListing::Children(children) => children,
    };
    let mut best: Option<usize> = None;
    let mut best_time: i128 = 0;
    let mut i: usize = 0;
    while i < children.len()
        invariant
            i <= children.len(),
            match best {
                Some(k) => leads(children@, i as int, k as int) && children[k as int].modified
                    == Some(best_time),
                None => forall|j: int| 0 <= j < i ==> (#[trigger] children[j]).modified is None,
            },
        decreases children.len() - i,
    {
        match children[i].modified {
            Some(time) => {
                if best.is_none() || time >= best_time {
                    best = Some(i);
                    best_time = time;
                }
            },
            None => {},
        }
        i = i + 1;
    }
    proof {
        active_world_exists(children@);
    }
    match best {
        Some(k) => {
            proof {
                active_world_is_unique(children@, k as int, active_index(children@)->0);
            }
            Ok(WorldIdentity { path: children[k].path.clone() })
        },
        None => Err(SelectionError::NoCandidates),
    }
}

} // verus!
