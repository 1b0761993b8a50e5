use vstd::prelude::*;

verus! {

/// One row of a tree-to-tree diff. A pure deletion has no new path.
#[derive(Debug)]
pub struct DeltaEntry {
    pub old_path: Option<String>,
    pub new_path: Option<String>,
}

/// What a run has to process: everything, or exactly a set of paths.
///
/// `Full` and an `Incremental` with no paths are different answers: the
/// first means nothing was compared, the second that nothing changed.
#[derive(Debug)]
pub enum ChangeSet {
    Full,
    Incremental(Vec<String>),
}

/// `p` is the new path of delta `d`.
pub open spec fn names_new_path(d: DeltaEntry, p: Seq<char>) -> bool {
    match d.new_path {
        Some(s) => s@ == p,
        None => false,
    }
}

/// The new paths named by the first `n` deltas.
pub open spec fn new_paths_upto(deltas: Seq<DeltaEntry>, n: int) -> Set<Seq<char>> {
    Set::new(|p: Seq<char>| exists|j: int| 0 <= j < n && #[trigger] names_new_path(deltas[j], p))
}

/// The new paths named by a diff.
pub open spec fn new_paths(deltas: Seq<DeltaEntry>) -> Set<Seq<char>> {
    new_paths_upto(deltas, deltas.len() as int)
}

/// The paths held in a sequence of strings.
pub open spec fn path_set(v: Seq<String>) -> Set<Seq<char>> {
    Set::new(|p: Seq<char>| exists|k: int| 0 <= k < v.len() && #[trigger] v[k]@ == p)
}

/// No path occurs twice.
pub open spec fn distinct_paths(v: Seq<String>) -> bool {
    forall|a: int, b: int| 0 <= a < v.len() && 0 <= b < v.len() && a != b ==> v[a]@ != v[b]@
}

/// A diff agrees with the two trees it compares: every new path lies in
/// the newer tree and every old path in the older one.
pub open spec fn diff_within(deltas: Seq<DeltaEntry>, from_tree: Set<Seq<char>>, to_tree: Set<Seq<char>>) -> bool {
    forall|j: int|
        0 <= j < deltas.len() ==> {
            &&& (#[trigger] deltas[j]).new_path matches Some(s) ==> to_tree.contains(s@)
            &&& deltas[j].old_path matches Some(s) ==> from_tree.contains(s@)
        }
}

/// Every path reported as changed between a checkpoint and head lies in
/// head's tree or in the checkpoint's tree.
pub proof fn lemma_changes_within_trees(
    deltas: Seq<DeltaEntry>,
    checkpoint_tree: Set<Seq<char>>,
    head_tree: Set<Seq<char>>,
)
    requires
        diff_within(deltas, checkpoint_tree, head_tree),
    ensures
        new_paths(deltas).subset_of(head_tree.union(checkpoint_tree)),
{
    assert forall|p: Seq<char>| new_paths(deltas).contains(p) implies head_tree.union(checkpoint_tree).contains(p) by {
        let j = choose|j: int| 0 <= j < deltas.len() && #[trigger] names_new_path(deltas[j], p);
        assert(deltas[j].new_path is Some);
    }
}

/// A file deleted between the checkpoint and head, present in the
/// checkpoint's tree and absent from head's, is never reported as changed.
pub proof fn lemma_deleted_not_reported(
    deltas: Seq<DeltaEntry>,
    checkpoint_tree: Set<Seq<char>>,
    head_tree: Set<Seq<char>>,
    p: Seq<char>,
)
    requires
        diff_within(deltas, checkpoint_tree, head_tree),
        checkpoint_tree.contains(p),
        !head_tree.contains(p),
    ensures
        !new_paths(deltas).contains(p),
{
    if new_paths(deltas).contains(p) {
        let j = choose|j: int| 0 <= j < deltas.len() && #[trigger] names_new_path(deltas[j], p);
        assert(deltas[j].new_path is Some);
    }
}

fn contains_path(v: &Vec<String>, p: &String) -> (r: bool)
    ensures
        r == path_set(v@).contains(p@),
{
    let mut k: usize = 0;
    while k < v.len()
        invariant
            k <= v.len(),
            forall|m: int| 0 <= m < k ==> v@[m]@ != p@,
        decreases v.len() - k,
    {
        if v[k] == *p {
            assert(path_set(v@).contains(p@) == (v@[k as int]@ == p@));
            return true;
        }
        k = k + 1;
    }
    false
}

impl ChangeSet {
    /// Well formed: an incremental set holds each path once.
    pub open spec fn wf(self) -> bool {
        match self {
            ChangeSet::Full => true,
            ChangeSet::Incremental(v) => distinct_paths(v@),
        }
    }

    /// The paths of an incremental set; empty for `Full`.
    pub open spec fn paths(self) -> Set<Seq<char>> {
        match self {
            ChangeSet::Full => Set::empty(),
            ChangeSet::Incremental(v) => path_set(v@),
        }
    }

    /// The incremental change set of a diff: the new path of every delta,
    /// each once. Pure deletions contribute nothing.
    pub fn from_deltas(deltas: &Vec<DeltaEntry>) -> (r: ChangeSet)
        ensures
            r is Incremental,
            r.wf(),
            r.paths() == new_paths(deltas@),
    {
        let mut out: Vec<String> = Vec::new();
        let mut i: usize = 0;
        while i < deltas.len()
            invariant
                i <= deltas.len(),
                distinct_paths(out@),
                path_set(out@) == new_paths_upto(deltas@, i as int),
            decreases deltas.len() - i,
        {
            let ghost before = out@;
            match &deltas[i].new_path {
                Some(p) => {
                    if !contains_path(&out, p) {
                        out.push(p.clone());
                        assert(out@[before.len() as int]@ == p@);
                        assert forall|q: Seq<char>| path_set(before).contains(q) implies
                            #[trigger] path_set(out@).contains(q) by {
                            let k = choose|k: int| 0 <= k < before.len() && #[trigger] before[k]@ == q;
                            assert(out@[k]@ == q);
                        }
                        assert(path_set(out@) =~= path_set(before).insert(p@));
                    } else {
                        assert(path_set(out@) =~= path_set(before).insert(p@));
                    }
                    assert(names_new_path(deltas@[i as int], p@));
                    assert(new_paths_upto(deltas@, i + 1) =~= new_paths_upto(deltas@, i as int).insert(p@));
                },
                None => {
                    assert(new_paths_upto(deltas@, i + 1) =~= new_paths_upto(deltas@, i as int));
                },
            }
            i = i + 1;
        }
        ChangeSet::Incremental(out)
    }

    /// `Full` where there is no checkpoint to compare against, else the
    /// incremental set of the diff from the checkpoint to head.
    pub fn compute(deltas: Option<&Vec<DeltaEntry>>) -> (r: ChangeSet)
        ensures
            r.wf(),
            deltas is None <==> r is Full,
            deltas matches Some(d) ==> r.paths() == new_paths(d@),
    {
        match deltas {
            None => ChangeSet::Full,
            Some(d) => ChangeSet::from_deltas(d),
        }
    }

    pub fn is_full(&self) -> (r: bool)
        ensures
            r == (*self is Full),
    {
        match self {
            ChangeSet::Full => true,
            ChangeSet::Incremental(_) => false,
        }
    }

    /// How many paths an incremental set holds; `None` for `Full`.
    pub fn len(&self) -> (r: Option<usize>)
        ensures
            match *self {
                ChangeSet::Full => r is None,
                ChangeSet::Incremental(v) => r == Some(v.len()),
            },
    {
        match self {
            ChangeSet::Full => None,
            ChangeSet::Incremental(v) => Some(v.len()),
        }
    }

    /// Whether an incremental set holds `path`; false for `Full`.
    pub fn contains(&self, path: &String) -> (r: bool)
        ensures
            r == self.paths().contains(path@),
    {
        match self {
            ChangeSet::Full => false,
            ChangeSet::Incremental(v) => contains_path(v, path),
        }
    }
}

} // verus!
