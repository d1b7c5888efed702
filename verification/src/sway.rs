//! The JSON-over-subprocess compositor backend: normalizes the output list
//! and window tree that the compositor CLI emits.

use vstd::prelude::*;

use crate::monitor::FocalMonitor;
use crate::monitor::QueryFailure;
use crate::monitor::Rotation;
use crate::monitor::rotation_of_name;
use crate::slurp::SlurpGeom;

verus! {

/// A rectangle as the compositor reports it.
#[derive(Debug, Clone, Copy, PartialEq, Eq, Structural)]
pub struct Rect {
    pub x: i32,
    pub y: i32,
    pub width: i32,
    pub height: i32,
}

/// One output of the outputs query.
#[derive(Debug)]
pub struct GetOutput {
    pub name: String,
    pub rect: Rect,
    pub scale_mil: u32,
    pub transform: String,
    pub focused: bool,
}

/// One node of the window tree; the `visible` flag is reported only on
/// leaf (window) nodes.
#[derive(Debug)]
pub struct GetTreeWindowNode {
    pub rect: Rect,
    pub nodes: Vec<GetTreeWindowNode>,
    pub visible: Option<bool>,
}

/// The leaves of a window tree, left to right.
pub open spec fn leaf_nodes_spec(n: GetTreeWindowNode) -> Seq<GetTreeWindowNode>
    decreases n, 1int, 0int,
{
    if n.nodes@.len() == 0 {
        seq![n]
    } else {
        leaf_nodes_children(n, 0)
    }
}

/// The leaves of the subtrees rooted at children `i` onward of `n`.
pub open spec fn leaf_nodes_children(n: GetTreeWindowNode, i: int) -> Seq<GetTreeWindowNode>
    decreases n, 0int, n.nodes@.len() - i,
{
    if 0 <= i < n.nodes@.len() {
        leaf_nodes_spec(n.nodes@[i]) + leaf_nodes_children(n, i + 1)
    } else {
        Seq::empty()
    }
}

/// The nodes a sequence of references points at.
pub open spec fn deref_all(s: Seq<&GetTreeWindowNode>) -> Seq<GetTreeWindowNode> {
    s.map_values(|p: &GetTreeWindowNode| *p)
}

impl GetTreeWindowNode {
    /// Collects all leaf nodes, left to right.
    pub fn leaf_nodes(&self) -> (r: Vec<&GetTreeWindowNode>)
        ensures
            deref_all(r@) == leaf_nodes_spec(*self),
        decreases *self,
    {
        let mut acc: Vec<&GetTreeWindowNode> = Vec::new();
        if self.nodes.len() == 0 {
            acc.push(self);
            proof {
                assert(deref_all(acc@) =~= leaf_nodes_spec(*self));
            }
        } else {
            let mut i: usize = 0;
            while i < self.nodes.len()
                invariant
                    0 <= i <= self.nodes@.len(),
                    self.nodes@.len() > 0,
                    leaf_nodes_children(*self, 0) =~= deref_all(acc@) + leaf_nodes_children(
                        *self,
                        i as int,
                    ),
                decreases self.nodes@.len() - i,
            {
                proof {
                    assert(decreases_to!(*self => self.nodes@[i as int]));
                }
                let mut sub = (&self.nodes[i]).leaf_nodes();
                let ghost old_acc = acc@;
                let ghost sub_view = sub@;
                acc.append(&mut sub);
                proof {
                    assert(deref_all(acc@) =~= deref_all(old_acc) + deref_all(sub_view));
                }
                i = i + 1;
            }
            proof {
                assert(leaf_nodes_children(*self, self.nodes@.len() as int)
                    =~= Seq::<GetTreeWindowNode>::empty());
                assert(deref_all(acc@) =~= leaf_nodes_children(*self, 0));
            }
        }
        acc
    }
}

/// The geometry of a reported rectangle.
pub open spec fn rect_geom(r: Rect) -> SlurpGeom {
    SlurpGeom { x: r.x, y: r.y, w: r.width, h: r.height }
}

/// The geometries of the visible windows among a sequence of leaves.
pub open spec fn visible_geoms_of(ls: Seq<GetTreeWindowNode>) -> Seq<SlurpGeom>
    decreases ls.len(),
{
    if ls.len() == 0 {
        Seq::empty()
    } else {
        visible_geoms_of(ls.drop_last()) + (if ls.last().visible == Option::Some(true) {
            seq![rect_geom(ls.last().rect)]
        } else {
            Seq::empty()
        })
    }
}

/// The normalized monitor an output denotes, unless its transform name
/// falls outside the rotation table.
pub open spec fn sway_monitor_spec(o: GetOutput) -> Option<FocalMonitor> {
    match rotation_of_name(o.transform@) {
        Option::Some(rot) => Option::Some(
            FocalMonitor {
                name: o.name,
                x: o.rect.x,
                y: o.rect.y,
                w: o.rect.width,
                h: o.rect.height,
                scale_mil: o.scale_mil,
                rotation: rot,
            },
        ),
        Option::None => Option::None,
    }
}

/// Every output normalized, in order; defined only when every transform
/// name is in the rotation table.
pub open spec fn sway_all_spec(outs: Seq<GetOutput>) -> Option<Seq<FocalMonitor>>
    decreases outs.len(),
{
    if outs.len() == 0 {
        Option::Some(Seq::empty())
    } else {
        match (sway_all_spec(outs.drop_last()), sway_monitor_spec(outs.last())) {
            (Option::Some(ms), Option::Some(m)) => Option::Some(ms + seq![m]),
            _ => Option::None,
        }
    }
}

proof fn lemma_sway_all_none(outs: Seq<GetOutput>, i: int)
    requires
        0 <= i < outs.len(),
        sway_monitor_spec(outs[i]) is None,
    ensures
        sway_all_spec(outs) is None,
    decreases outs.len(),
{
    if i < outs.len() - 1 {
        assert(outs.drop_last()[i] == outs[i]);
        lemma_sway_all_none(outs.drop_last(), i);
    }
}

/// Index of the first output at or after `i` that reports itself focused,
/// or the length of the list.
pub open spec fn find_focused_from(outs: Seq<GetOutput>, i: int) -> int
    decreases outs.len() - i,
{
    if i < 0 || i >= outs.len() {
        i
    } else if outs[i].focused {
        i
    } else {
        find_focused_from(outs, i + 1)
    }
}

fn to_focal_monitor(o: &GetOutput) -> (r: Result<FocalMonitor, QueryFailure>)
    ensures
        match sway_monitor_spec(*o) {
            Option::Some(m) => r == Ok::<FocalMonitor, QueryFailure>(m),
            Option::None => r == Err::<FocalMonitor, QueryFailure>(
                QueryFailure::UnsupportedTransform,
            ),
        },
{
    match Rotation::from_name(o.transform.as_str()) {
        Some(rot) => Ok(
            FocalMonitor {
                name: o.name.clone(),
                x: o.rect.x,
                y: o.rect.y,
                w: o.rect.width,
                h: o.rect.height,
                scale_mil: o.scale_mil,
                rotation: rot,
            },
        ),
        None => Err(QueryFailure::UnsupportedTransform),
    }
}

/// The JSON-over-subprocess backend.
pub struct SwayMonitors;

impl SwayMonitors {
    /// Normalizes the reported outputs; an unknown transform name on any
    /// of them is fatal for the query.
    pub fn all(outputs: &Vec<GetOutput>) -> (r: Result<Vec<FocalMonitor>, QueryFailure>)
        ensures
            match r {
                Ok(ms) => sway_all_spec(outputs@) == Option::Some(ms@),
                Err(e) => sway_all_spec(outputs@) is None && e
                    == QueryFailure::UnsupportedTransform,
            },
    {
        let mut acc: Vec<FocalMonitor> = Vec::new();
        let mut i: usize = 0;
        while i < outputs.len()
            invariant
                0 <= i <= outputs@.len(),
                sway_all_spec(outputs@.take(i as int)) == Option::Some(acc@),
            decreases outputs@.len() - i,
        {
            match to_focal_monitor(&outputs[i]) {
                Ok(m) => {
                    acc.push(m);
                    proof {
                        assert(outputs@.take(i + 1 as int).drop_last() =~= outputs@.take(i as int));
                        assert(outputs@.take(i + 1 as int).last() == outputs@[i as int]);
                    }
                },
                Err(e) => {
                    proof {
                        lemma_sway_all_none(outputs@, i as int);
                    }
                    return Err(e);
                },
            }
            i = i + 1;
        }
        proof {
            assert(outputs@.take(outputs@.len() as int) =~= outputs@);
        }
        Ok(acc)
    }

    /// Normalizes the first output that reports itself focused; no such
    /// output is fatal for the query.
    pub fn focused(outputs: &Vec<GetOutput>) -> (r: Result<FocalMonitor, QueryFailure>)
        ensures
            ({
                let j = find_focused_from(outputs@, 0);
                if j < outputs@.len() {
                    match sway_monitor_spec(outputs@[j]) {
                        Option::Some(m) => r == Ok::<FocalMonitor, QueryFailure>(m),
                        Option::None => r == Err::<FocalMonitor, QueryFailure>(
                            QueryFailure::UnsupportedTransform,
                        ),
                    }
                } else {
                    r == Err::<FocalMonitor, QueryFailure>(QueryFailure::NoFocusedMonitor)
                }
            }),
    {
        let n = outputs.len();
        let mut idx: usize = 0;
        while idx < n
            invariant
                0 <= idx <= n == outputs@.len(),
                find_focused_from(outputs@, 0) == find_focused_from(outputs@, idx as int),
            ensures
                idx <= n,
                find_focused_from(outputs@, 0) == idx as int,
            decreases n - idx,
        {
            if outputs[idx].focused {
                break ;
            }
            idx = idx + 1;
        }
        if idx >= n {
            return Err(QueryFailure::NoFocusedMonitor);
        }
        to_focal_monitor(&outputs[idx])
    }

    /// Geometries of all visible windows: the leaves of the window tree
    /// whose `visible` flag is reported true. An empty list is a valid
    /// degraded answer, distinct from a failed query.
    pub fn window_geoms(tree: &GetTreeWindowNode) -> (r: Vec<SlurpGeom>)
        ensures
            r@ == visible_geoms_of(leaf_nodes_spec(*tree)),
    {
        let leaves = tree.leaf_nodes();
        let mut r: Vec<SlurpGeom> = Vec::new();
        let mut i: usize = 0;
        while i < leaves.len()
            invariant
                0 <= i <= leaves@.len(),
                deref_all(leaves@) == leaf_nodes_spec(*tree),
                r@ == visible_geoms_of(deref_all(leaves@).take(i as int)),
            decreases leaves@.len() - i,
        {
            let node = leaves[i];
            match node.visible {
                Some(true) => {
                    r.push(
                        SlurpGeom {
                            x: node.rect.x,
                            y: node.rect.y,
                            w: node.rect.width,
                            h: node.rect.height,
                        },
                    );
                },
                _ => {},
            }
            proof {
                assert(deref_all(leaves@).take(i + 1 as int).drop_last() =~= deref_all(
                    leaves@,
                ).take(i as int));
                assert(deref_all(leaves@).take(i + 1 as int).last() == deref_all(
                    leaves@,
                )[i as int]);
                assert(deref_all(leaves@)[i as int] == *leaves@[i as int]);
            }
            i = i + 1;
        }
        proof {
            assert(deref_all(leaves@).take(leaves@.len() as int) =~= deref_all(leaves@));
        }
        r
    }
}

} // verus!
