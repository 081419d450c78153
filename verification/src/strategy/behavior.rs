//! Behavior trees: the tri-state result, the node variants and the rules by
//! which the two composites evaluate their children.

use super::situation::RobotSituation;
use crate::types::PlayerId;
use vstd::prelude::*;
use vstd::string::StringExecFns;

mod actions;
pub mod guarantees;

pub use actions::{
    has_arrived, move_to_outcome, shoot_outcome, shot_quality_too_low, MoveToAction, ShootAction,
};

verus! {

/// What a node reports after one tick.
pub enum NodeResult {
    /// The node's goal is met for this tick.
    Success,
    /// The node gave up; the text says why and is meant for people only.
    Failure(String),
    /// The node is under way and wants to be ticked again.
    Running,
}

/// A [`NodeResult`] with its reason read as a sequence of characters.
pub enum Outcome {
    Success,
    Failure(Seq<char>),
    Running,
}

impl View for NodeResult {
    type V = Outcome;

    open spec fn view(&self) -> Outcome {
        match self {
            NodeResult::Success => Outcome::Success,
            NodeResult::Failure(reason) => Outcome::Failure(reason@),
            NodeResult::Running => Outcome::Running,
        }
    }
}

/// What a tree is handed for one tick: whose tree it is and what that agent
/// currently sees.
pub struct BehaviorContext {
    pub robot_id: PlayerId,
    pub situation: RobotSituation,
}

/// Tries its children in order, from the first, on every tick; the first
/// child that does not fail decides.
pub struct SelectNode {
    pub children: Vec<Node>,
}

/// Works through its children in order and remembers, from one tick to the
/// next, which child it has reached.
pub struct SequenceNode {
    pub children: Vec<Node>,
    /// Index of the child to tick next.
    pub current_child: usize,
}

/// An empty selector, to be filled through its `children`.
pub fn select() -> (node: SelectNode)
    ensures
        node.children@ == Seq::<Node>::empty(),
{
    SelectNode { children: Vec::new() }
}

/// An empty sequence with its cursor at the start, to be filled through its
/// `children`.
pub fn sequence() -> (node: SequenceNode)
    ensures
        node.children@ == Seq::<Node>::empty(),
        node.current_child == 0,
{
    SequenceNode { children: Vec::new(), current_child: 0 }
}

/// A node under construction.
pub struct BehaviorBuilder<N: BehaviorNode> {
    node: N,
    _phantom: core::marker::PhantomData<N>,
}

/// Any node of a tree.
pub enum Node {
    Select(SelectNode),
    Sequence(SequenceNode),
    MoveTo(MoveToAction),
    Shoot(ShootAction),
}

/// A tree as a mathematical value: the shape, the parameters of the leaves
/// and the cursor of every sequence.
pub enum Tree {
    Select { children: Seq<Tree> },
    Sequence { children: Seq<Tree>, current_child: int },
    MoveTo { target: crate::types::Vec2, tolerance: u32 },
    Shoot { min_shot_quality: u16 },
}

/// The reason a selector gives when none of its children succeeded.
pub open spec fn all_children_failed() -> Seq<char> {
    "All children failed"@
}

/// One tick of a tree on a snapshot: the tree afterwards and the outcome.
pub open spec fn tick_tree(tree: Tree, s: RobotSituation) -> (Tree, Outcome)
    decreases tree, 0nat,
{
    match tree {
        Tree::Select { children } => {
            let (after, outcome) = tick_select(children, 0, s);
            (Tree::Select { children: after }, outcome)
        },
        Tree::Sequence { children, current_child } => {
            let (after, cursor, outcome) = tick_sequence(children, current_child, s);
            (Tree::Sequence { children: after, current_child: cursor }, outcome)
        },
        Tree::MoveTo { target, tolerance } => (tree, move_to_outcome(target, tolerance, s)),
        Tree::Shoot { min_shot_quality } => (tree, shoot_outcome(min_shot_quality, s)),
    }
}

/// A selector's pass over `children`, starting at index `from`: children are
/// ticked in order until one does not fail, and that one's outcome is the
/// selector's. Children behind it are left as they were.
pub open spec fn tick_select(children: Seq<Tree>, from: int, s: RobotSituation) -> (
    Seq<Tree>,
    Outcome,
)
    decreases children, children.len() - from,
{
    if 0 <= from < children.len() {
        let (child, outcome) = tick_tree(children[from], s);
        if outcome is Failure {
            let (after, last) = tick_select(children, from + 1, s);
            (after.update(from, child), last)
        } else {
            (children.update(from, child), outcome)
        }
    } else {
        (children, Outcome::Failure(all_children_failed()))
    }
}

/// A sequence's pass over `children`, starting at the cursor `from`: the
/// children afterwards, the cursor afterwards and the outcome. A child that
/// succeeds hands over to the next one within the same tick; a child that is
/// running keeps the cursor on itself; a child that fails, or the end of the
/// list, puts the cursor back to the first child.
pub open spec fn tick_sequence(children: Seq<Tree>, from: int, s: RobotSituation) -> (
    Seq<Tree>,
    int,
    Outcome,
)
    decreases children, children.len() - from,
{
    if 0 <= from < children.len() {
        let (child, outcome) = tick_tree(children[from], s);
        match outcome {
            Outcome::Success => {
                let (after, cursor, last) = tick_sequence(children, from + 1, s);
                (after.update(from, child), cursor, last)
            },
            Outcome::Running => (children.update(from, child), from, outcome),
            Outcome::Failure(_) => (children.update(from, child), 0, outcome),
        }
    } else {
        (children, 0, Outcome::Success)
    }
}

/// The mathematical tree that a node stands for.
pub open spec fn tree_of(node: Node) -> Tree
    decreases node,
{
    match node {
        Node::Select(n) => Tree::Select { children: trees_of(n.children@) },
        Node::Sequence(n) => Tree::Sequence {
            children: trees_of(n.children@),
            current_child: n.current_child as int,
        },
        Node::MoveTo(a) => Tree::MoveTo { target: a.target, tolerance: a.tolerance },
        Node::Shoot(a) => Tree::Shoot { min_shot_quality: a.min_shot_quality },
    }
}

/// The trees that a list of nodes stands for, in the same order.
pub open spec fn trees_of(nodes: Seq<Node>) -> Seq<Tree>
    decreases nodes,
{
    Seq::new(
        nodes.len(),
        |i: int|
            if 0 <= i < nodes.len() {
                tree_of(nodes[i])
            } else {
                arbitrary()
            },
    )
}

/// Anything that can be ticked as a behavior tree.
pub trait BehaviorNode {
    /// The tree this value stands for.
    spec fn tree(&self) -> Tree;

    /// Evaluates the node once on the snapshot in `ctx`. The node afterwards
    /// and the result are those of [`tick_tree`]; the context is not changed.
    fn tick(&mut self, ctx: &mut BehaviorContext) -> (result: NodeResult)
        ensures
            (final(self).tree(), result@) == tick_tree(old(self).tree(), old(ctx).situation),
            *final(ctx) == *old(ctx),
    ;
}

/// Replacing a child that a selector's pass has already left behind does not
/// disturb the pass.
proof fn lemma_select_skips_prefix(
    children: Seq<Tree>,
    from: int,
    k: int,
    t: Tree,
    s: RobotSituation,
)
    requires
        0 <= k < from,
        k < children.len(),
    ensures
        tick_select(children, from, s).0.len() == children.len(),
        tick_select(children.update(k, t), from, s) == (
            tick_select(children, from, s).0.update(k, t),
            tick_select(children, from, s).1,
        ),
    decreases children.len() - from,
{
    if 0 <= from < children.len() {
        let (child, outcome) = tick_tree(children[from], s);
        if outcome is Failure {
            lemma_select_skips_prefix(children, from + 1, k, t, s);
            let after = tick_select(children, from + 1, s).0;
            assert(after.update(k, t).update(from, child) =~= after.update(from, child).update(
                k,
                t,
            ));
        } else {
            assert(children.update(k, t).update(from, child) =~= children.update(
                from,
                child,
            ).update(k, t));
        }
    } else {
        assert(tick_select(children.update(k, t), from, s).0 =~= children.update(k, t));
    }
}

/// Replacing a child that lies before a sequence's cursor does not disturb
/// the pass.
pub(crate) proof fn lemma_sequence_skips_prefix(
    children: Seq<Tree>,
    from: int,
    k: int,
    t: Tree,
    s: RobotSituation,
)
    requires
        0 <= k < from,
        k < children.len(),
    ensures
        tick_sequence(children, from, s).0.len() == children.len(),
        tick_sequence(children.update(k, t), from, s) == (
            tick_sequence(children, from, s).0.update(k, t),
            tick_sequence(children, from, s).1,
            tick_sequence(children, from, s).2,
        ),
    decreases children.len() - from,
{
    if 0 <= from < children.len() {
        let (child, outcome) = tick_tree(children[from], s);
        if outcome is Success {
            lemma_sequence_skips_prefix(children, from + 1, k, t, s);
            let after = tick_sequence(children, from + 1, s).0;
            assert(after.update(k, t).update(from, child) =~= after.update(from, child).update(
                k,
                t,
            ));
        } else {
            assert(children.update(k, t).update(from, child) =~= children.update(
                from,
                child,
            ).update(k, t));
        }
    } else {
        assert(tick_sequence(children.update(k, t), from, s).0 =~= children.update(k, t));
    }
}

impl BehaviorNode for SelectNode {
    open spec fn tree(&self) -> Tree {
        Tree::Select { children: trees_of(self.children@) }
    }

    fn tick(&mut self, ctx: &mut BehaviorContext) -> (result: NodeResult)
        decreases *old(self),
    {
        let ghost before = trees_of(self.children@);
        let ghost s = ctx.situation;
        let mut i: usize = 0;
        while i < self.children.len()
            invariant
                i <= self.children.len(),
                self.children.len() == old(self).children.len(),
                forall|j: int| i <= j < self.children.len() ==> self.children@[j] == old(self).children@[j],
                *ctx == *old(ctx),
                s == old(ctx).situation,
                before == trees_of(old(self).children@),
                tick_select(before, 0, s) == tick_select(trees_of(self.children@), i as int, s),
            decreases self.children.len() - i,
        {
            let ghost current = trees_of(self.children@);
            proof {
                vstd::std_specs::vec::axiom_vec_index_decreases(old(self).children, i as int);
            }
            let outcome = self.children[i].tick(ctx);
            proof {
                let child = tree_of(self.children@[i as int]);
                assert(trees_of(self.children@) =~= current.update(i as int, child));
                assert(tick_tree(current[i as int], s) == (child, outcome@));
                if outcome@ is Failure {
                    lemma_select_skips_prefix(current, i + 1, i as int, child, s);
                } else {
                    assert(tick_select(current, i as int, s) == (
                        current.update(i as int, child),
                        outcome@,
                    ));
                }
            }
            match outcome {
                NodeResult::Success => return NodeResult::Success,
                NodeResult::Running => return NodeResult::Running,
                NodeResult::Failure(_) => {},
            }
            i += 1;
        }
        NodeResult::Failure(String::from_str("All children failed"))
    }
}

impl BehaviorNode for SequenceNode {
    open spec fn tree(&self) -> Tree {
        Tree::Sequence {
            children: trees_of(self.children@),
            current_child: self.current_child as int,
        }
    }

    fn tick(&mut self, ctx: &mut BehaviorContext) -> (result: NodeResult)
        decreases *old(self),
    {
        let ghost before = self.tree();
        let ghost s = ctx.situation;
        while self.current_child < self.children.len()
            invariant
                self.children.len() == old(self).children.len(),
                forall|j: int|
                    self.current_child <= j < self.children.len() ==> self.children@[j] == old(
                        self,
                    ).children@[j],
                *ctx == *old(ctx),
                s == old(ctx).situation,
                before == old(self).tree(),
                tick_tree(before, s) == tick_tree(self.tree(), s),
            decreases self.children.len() - self.current_child,
        {
            let i = self.current_child;
            let ghost current = trees_of(self.children@);
            proof {
                vstd::std_specs::vec::axiom_vec_index_decreases(old(self).children, i as int);
            }
            let outcome = self.children[i].tick(ctx);
            proof {
                let child = tree_of(self.children@[i as int]);
                assert(trees_of(self.children@) =~= current.update(i as int, child));
                assert(tick_tree(current[i as int], s) == (child, outcome@));
                if outcome@ is Success {
                    lemma_sequence_skips_prefix(current, i + 1, i as int, child, s);
                } else {
                    assert(tick_sequence(current, i as int, s) == (
                        current.update(i as int, child),
                        if outcome@ is Running {
                            i as int
                        } else {
                            0
                        },
                        outcome@,
                    ));
                }
            }
            match outcome {
                NodeResult::Success => {
                    self.current_child += 1;
                },
                NodeResult::Running => return NodeResult::Running,
                NodeResult::Failure(reason) => {
                    self.current_child = 0;
                    return NodeResult::Failure(reason);
                },
            }
        }
        self.current_child = 0;
        NodeResult::Success
    }
}

impl BehaviorNode for Node {
    open spec fn tree(&self) -> Tree {
        tree_of(*self)
    }

    fn tick(&mut self, ctx: &mut BehaviorContext) -> (result: NodeResult)
        decreases *old(self),
    {
        match self {
            Node::Select(n) => n.tick(ctx),
            Node::Sequence(n) => n.tick(ctx),
            Node::MoveTo(a) => a.tick(ctx),
            Node::Shoot(a) => a.tick(ctx),
        }
    }
}

} // verus!
