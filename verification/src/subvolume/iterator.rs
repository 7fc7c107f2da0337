//! Iteration over the subvolume hierarchy.
//!
//! The boundary's native iteration primitive is a live cursor that must be
//! advanced and explicitly released; it is tied to an open descriptor and
//! must never outlive a single call. The externally visible result is
//! therefore a fully materialized, ordered, finite sequence, rebuilt by a
//! fresh walk on each construction. The decision logic for one cursor step
//! lives here: it classifies the boundary's answer into "yield an entity by
//! path", "yield an entity by id", "normal end of sequence" or a failure,
//! rejecting illegal ids rather than yielding bad entities.

use vstd::prelude::*;

use crate::common;
use crate::error::code_err;
use crate::error::BtrfsUtilError;
use crate::error::GlueError;
use crate::subvolume::subvol::Subvolume;
use crate::subvolume::subvol::SubvolumeView;
use crate::subvolume::subvol::BTRFS_FS_TREE_OBJECTID;

verus! {

/// Subvolume iterator options.
#[derive(Clone, Copy, Debug, PartialEq, Eq, Structural)]
pub struct SubvolumeIteratorFlags {
    /// Iterate post-order: descendants before their parent. The default is
    /// pre-order, parent before descendants.
    pub post_order: bool,
}

impl SubvolumeIteratorFlags {
    /// The bit encoding the boundary expects for these flags: post-order is
    /// the lowest bit.
    pub open spec fn bits_spec(self) -> i32 {
        if self.post_order {
            1
        } else {
            0
        }
    }

    /// The bit encoding the boundary expects for these flags.
    pub fn bits(&self) -> (r: i32)
        ensures
            r == self.bits_spec(),
    {
        if self.post_order {
            1
        } else {
            0
        }
    }
}

/// What one cursor step asks for next: resolve the yielded path or id into
/// an entity, or stop because the walk is over.
#[derive(Debug)]
pub enum IterAction {
    /// The step yielded a path: look the entity up by it.
    LookupPath(Vec<u8>),
    /// The step yielded an id: look the entity up by it.
    LookupId(u64),
    /// The boundary signalled the normal end of the sequence.
    Stop,
}

/// Classify the boundary's answer to one cursor advance.
///
/// `code` is the status it reported, `cpath` the raw null-terminated path
/// bytes it yielded (absent when it returned a null reference), and `id` the
/// id it yielded. The reserved stop code is the normal end of the walk, not
/// an error. A null path together with a zero id breaks the boundary's own
/// protocol and is irrecoverable, so that answer is ruled out here rather
/// than wrapped as an ordinary error; a yielded id below the minimum legal
/// id is a data error.
pub fn classify_next(code: u32, cpath: Option<Vec<u8>>, id: u64) -> (r: Result<
    IterAction,
    BtrfsUtilError,
>)
    requires
        !(code == 0 && cpath is None && id == 0),
    ensures
        code == 1 ==> (r matches Ok(a) && a is Stop),
        code != 0 && code != 1 ==> r == Err::<IterAction, BtrfsUtilError>(code_err(code)),
        code == 0 ==> (cpath matches Some(c) ==> {
            if common::has_nul(c@) {
                r matches Ok(a) && (a matches IterAction::LookupPath(p) && common::cstr_prefix_ok(
                    c@,
                    p@,
                ))
            } else {
                r == Err::<IterAction, BtrfsUtilError>(BtrfsUtilError::Glue(GlueError::BadPath))
            }
        }),
        code == 0 && cpath is None && id < BTRFS_FS_TREE_OBJECTID ==> r == Err::<
            IterAction,
            BtrfsUtilError,
        >(BtrfsUtilError::Glue(GlueError::BadId(id))),
        code == 0 && cpath is None && id >= BTRFS_FS_TREE_OBJECTID ==> (r matches Ok(a)
            && a == IterAction::LookupId(id)),
{
    if code == 1 {
        return Ok(IterAction::Stop);
    }
    if let Err(e) = crate::error::check_code(code) {
        return Err(e);
    }
    match cpath {
        Some(c) => {
            let p = common::cstr_to_path(&c)?;
            Ok(IterAction::LookupPath(p))
        },
        None => {
            if id < BTRFS_FS_TREE_OBJECTID {
                Err(BtrfsUtilError::Glue(GlueError::BadId(id)))
            } else {
                Ok(IterAction::LookupId(id))
            }
        },
    }
}

/// A subvolume iterator: the fully materialized, ordered sequence of the
/// subvolumes a tree walk collected. Non-restartable; a fresh walk builds a
/// fresh value.
#[derive(Debug)]
pub struct SubvolumeIterator {
    items: Vec<Subvolume>,
}

impl View for SubvolumeIterator {
    type V = Seq<SubvolumeView>;

    closed spec fn view(&self) -> Seq<SubvolumeView> {
        self.items@.map_values(|sv: Subvolume| sv@)
    }
}

impl SubvolumeIterator {
    /// Wrap the subvolumes a completed walk collected, in the order they
    /// were yielded.
    pub fn new(items: Vec<Subvolume>) -> (r: Result<SubvolumeIterator, BtrfsUtilError>)
        ensures
            r matches Ok(it) && it@ == items@.map_values(|sv: Subvolume| sv@),
    {
        Ok(SubvolumeIterator { items })
    }

    /// How many subvolumes the walk yielded.
    pub fn len(&self) -> (r: usize)
        ensures
            r == self@.len(),
    {
        self.items.len()
    }

    /// The subvolume at position `i` of the walk, if any.
    pub fn nth(&self, i: usize) -> (r: Option<&Subvolume>)
        ensures
            i < self@.len() ==> (r matches Some(sv) && sv@ == self@[i as int]),
            i >= self@.len() ==> r is None,
    {
        if i < self.items.len() {
            Some(&self.items[i])
        } else {
            None
        }
    }

    /// The collected sequence, in walk order, consuming the iterator.
    pub fn into_vec(self) -> (r: Vec<Subvolume>)
        ensures
            r@.map_values(|sv: Subvolume| sv@) == self@,
    {
        self.items
    }
}

/// A model of a subvolume subtree: the id at its root and the subtrees
/// nested under it. It gives the walk orders their meaning.
pub ghost struct SubvolTree {
    /// The id of the subtree's root.
    pub id: u64,
    /// The subtrees nested directly under the root.
    pub children: Seq<SubvolTree>,
}

/// The ids a pre-order walk of the subtree yields: the root, then each child
/// subtree in turn.
pub open spec fn pre_order(t: SubvolTree) -> Seq<u64>
    decreases t, 1int, 0int,
{
    seq![t.id] + pre_order_from(t, 0)
}

/// The ids a pre-order walk yields for the child subtrees of `t` from
/// position `i` on.
pub open spec fn pre_order_from(t: SubvolTree, i: int) -> Seq<u64>
    decreases t, 0int, t.children.len() - i,
{
    if 0 <= i < t.children.len() {
        pre_order(t.children[i]) + pre_order_from(t, i + 1)
    } else {
        Seq::<u64>::empty()
    }
}

/// The ids a post-order walk of the subtree yields: each child subtree in
/// turn, then the root.
pub open spec fn post_order(t: SubvolTree) -> Seq<u64>
    decreases t, 1int, 0int,
{
    post_order_from(t, 0) + seq![t.id]
}

/// The ids a post-order walk yields for the child subtrees of `t` from
/// position `i` on.
pub open spec fn post_order_from(t: SubvolTree, i: int) -> Seq<u64>
    decreases t, 0int, t.children.len() - i,
{
    if 0 <= i < t.children.len() {
        post_order(t.children[i]) + post_order_from(t, i + 1)
    } else {
        Seq::<u64>::empty()
    }
}

/// Every id a child subtree's pre-order walk yields is yielded by the walk
/// of the children of `t` from position `i` on, for any child at or after
/// `i`.
proof fn lemma_pre_order_from_contains(t: SubvolTree, i: int, k: int, x: u64)
    requires
        0 <= i <= k < t.children.len(),
        pre_order(t.children[k]).contains(x),
    ensures
        pre_order_from(t, i).contains(x),
    decreases k - i,
{
    if i == k {
        let j = choose|j: int|
            0 <= j < pre_order(t.children[k]).len() && #[trigger] pre_order(t.children[k])[j]
                == x;
        assert(pre_order_from(t, i)[j] == x);
    } else {
        lemma_pre_order_from_contains(t, i + 1, k, x);
        let j = choose|j: int|
            0 <= j < pre_order_from(t, i + 1).len() && #[trigger] pre_order_from(t, i + 1)[j]
                == x;
        assert(pre_order_from(t, i)[pre_order(t.children[i]).len() + j] == x);
    }
}

/// As [`lemma_pre_order_from_contains`], for post-order walks.
proof fn lemma_post_order_from_contains(t: SubvolTree, i: int, k: int, x: u64)
    requires
        0 <= i <= k < t.children.len(),
        post_order(t.children[k]).contains(x),
    ensures
        post_order_from(t, i).contains(x),
    decreases k - i,
{
    if i == k {
        let j = choose|j: int|
            0 <= j < post_order(t.children[k]).len() && #[trigger] post_order(t.children[k])[j]
                == x;
        assert(post_order_from(t, i)[j] == x);
    } else {
        lemma_post_order_from_contains(t, i + 1, k, x);
        let j = choose|j: int|
            0 <= j < post_order_from(t, i + 1).len() && #[trigger] post_order_from(t, i + 1)[j]
                == x;
        assert(post_order_from(t, i)[post_order(t.children[i]).len() + j] == x);
    }
}

/// Pre-order yields the parent before its descendants: the subtree's root id
/// is the very first id of the walk, and every id any child subtree yields
/// comes strictly after it.
pub proof fn lemma_pre_order_parent_first(t: SubvolTree)
    ensures
        pre_order(t).len() > 0,
        pre_order(t)[0] == t.id,
        forall|k: int, x: u64|
            0 <= k < t.children.len() && #[trigger] pre_order(t.children[k]).contains(x)
                ==> pre_order(t).subrange(1, pre_order(t).len() as int).contains(x),
{
    assert(pre_order(t)[0] == t.id);
    assert forall|k: int, x: u64|
        0 <= k < t.children.len() && #[trigger] pre_order(t.children[k]).contains(
            x,
        ) implies pre_order(t).subrange(1, pre_order(t).len() as int).contains(x) by {
        lemma_pre_order_from_contains(t, 0, k, x);
        assert(pre_order(t).subrange(1, pre_order(t).len() as int) =~= pre_order_from(t, 0));
    }
}

/// Post-order yields the descendants before their parent: the subtree's root
/// id is the very last id of the walk, and every id any child subtree yields
/// comes strictly before it.
pub proof fn lemma_post_order_parent_last(t: SubvolTree)
    ensures
        post_order(t).len() > 0,
        post_order(t)[post_order(t).len() - 1] == t.id,
        forall|k: int, x: u64|
            0 <= k < t.children.len() && #[trigger] post_order(t.children[k]).contains(x)
                ==> post_order(t).subrange(0, post_order(t).len() - 1).contains(x),
{
    assert(post_order(t)[post_order(t).len() - 1] == t.id);
    assert forall|k: int, x: u64|
        0 <= k < t.children.len() && #[trigger] post_order(t.children[k]).contains(
            x,
        ) implies post_order(t).subrange(0, post_order(t).len() - 1).contains(x) by {
        lemma_post_order_from_contains(t, 0, k, x);
        assert(post_order(t).subrange(0, post_order(t).len() - 1) =~= post_order_from(t, 0));
    }
}

} // verus!
