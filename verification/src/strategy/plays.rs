//! Ready-made conditions and trees, and the coordinator that ticks one tree
//! per managed agent.

use super::behavior::guarantees::{
    select_takes_first_non_failure, sequence_follows_child_at_cursor,
};
use super::behavior::{
    move_to_outcome, select, sequence, tick_tree, tree_of, trees_of, BehaviorContext,
    BehaviorNode, MoveToAction, Node, Outcome, SelectNode, ShootAction, Tree,
};
use super::situation::{
    Condition, DebugColor, DebugVisualization, Predicate, RobotSituation, Situation,
};
use crate::types::{PlayerId, Vec2};
use vstd::prelude::*;

verus! {

/// The condition of having the ball.
#[derive(Debug, Clone, Copy)]
pub struct HasBall;

impl Condition for HasBall {
    open spec fn well_behaved(&self) -> bool {
        true
    }

    open spec fn holds(&self, s: RobotSituation) -> bool {
        s.has_ball
    }

    fn test(&self, s: &RobotSituation) -> (answer: bool) {
        s.has_ball
    }
}

/// The condition of being unmarked with a shot quality above 700
/// thousandths.
#[derive(Debug, Clone, Copy)]
pub struct GoodShotOpportunity;

impl Condition for GoodShotOpportunity {
    open spec fn well_behaved(&self) -> bool {
        true
    }

    open spec fn holds(&self, s: RobotSituation) -> bool {
        s.shot_quality > 700 && !s.is_marked
    }

    fn test(&self, s: &RobotSituation) -> (answer: bool) {
        s.shot_quality > 700 && !s.is_marked
    }
}

/// The condition of knowing of at least one teammate.
#[derive(Debug, Clone, Copy)]
pub struct TeammateHasBall;

impl Condition for TeammateHasBall {
    open spec fn well_behaved(&self) -> bool {
        true
    }

    open spec fn holds(&self, s: RobotSituation) -> bool {
        s.teammates_positions@.len() > 0
    }

    fn test(&self, s: &RobotSituation) -> (answer: bool) {
        s.teammates_positions.len() > 0
    }
}

/// Holds of the agent that has the ball.
pub fn has_ball() -> (r: Situation<HasBall>)
    ensures
        r@ == (Predicate {
            holds: |s: RobotSituation| s.has_ball,
            description: "has_ball"@,
            visualization: None,
        }),
{
    Situation::new(HasBall, "has_ball")
}

/// The drawing hint of [`good_shot_opportunity`]: a half-transparent green
/// circle of one metre radius.
pub open spec fn good_shot_hint() -> DebugVisualization {
    DebugVisualization::Circle { radius: 1000, color: DebugColor { r: 0, g: 1000, b: 0, a: 500 } }
}

/// Holds of an unmarked agent whose shot quality is above 700 thousandths.
pub fn good_shot_opportunity() -> (r: Situation<GoodShotOpportunity>)
    ensures
        r@ == (Predicate {
            holds: |s: RobotSituation| s.shot_quality > 700 && !s.is_marked,
            description: "good_shot_opportunity"@,
            visualization: Some(good_shot_hint()),
        }),
{
    Situation::new(GoodShotOpportunity, "good_shot_opportunity").with_visualization(
        DebugVisualization::Circle {
            radius: 1000,
            color: DebugColor { r: 0, g: 1000, b: 0, a: 500 },
        },
    )
}

/// Holds of an agent that knows of at least one teammate.
pub fn teammate_has_ball() -> (r: Situation<TeammateHasBall>)
    ensures
        r@ == (Predicate {
            holds: |s: RobotSituation| s.teammates_positions@.len() > 0,
            description: "teammate_has_ball"@,
            visualization: None,
        }),
{
    Situation::new(TeammateHasBall, "teammate_has_ball")
}

/// A sequence whose only step is one leaf.
pub open spec fn single_step(leaf: Tree) -> Tree {
    Tree::Sequence { children: seq![leaf], current_child: 0 }
}

/// The striker's tree: shoot when the chance is at least 700 thousandths,
/// otherwise move to the scoring position one metre ahead of the centre.
pub open spec fn striker_tree() -> Tree {
    Tree::Select {
        children: seq![
            single_step(Tree::Shoot { min_shot_quality: 700 }),
            single_step(Tree::MoveTo { target: Vec2 { x: 1000, y: 0 }, tolerance: 100 }),
        ],
    }
}

/// The support attacker's tree: move to the support position, and once
/// there, to the centre spot.
pub open spec fn support_attacker_tree() -> Tree {
    Tree::Select {
        children: seq![
            single_step(Tree::MoveTo { target: Vec2 { x: -500i32, y: 500 }, tolerance: 100 }),
            single_step(Tree::MoveTo { target: Vec2 { x: 0, y: 0 }, tolerance: 100 }),
        ],
    }
}

fn single_step_of(leaf: Node) -> (node: Node)
    ensures
        tree_of(node) == single_step(tree_of(leaf)),
{
    let mut seq = sequence();
    seq.children.push(leaf);
    assert(trees_of(seq.children@) =~= seq![tree_of(leaf)]);
    Node::Sequence(seq)
}

/// The primary scoring threat.
pub fn create_striker(player_id: PlayerId) -> (tree: SelectNode)
    ensures
        tree.tree() == striker_tree(),
{
    let mut select = select();
    let shoot_sequence = single_step_of(Node::Shoot(ShootAction { min_shot_quality: 700 }));
    let support_sequence = single_step_of(
        Node::MoveTo(MoveToAction { target: Vec2::new(1000, 0), tolerance: 100 }),
    );
    select.children.push(shoot_sequence);
    select.children.push(support_sequence);
    assert(trees_of(select.children@) =~= striker_tree()->Select_children);
    select
}

/// The attacker that helps to create scoring chances.
pub fn create_support_attacker(player_id: PlayerId) -> (tree: SelectNode)
    ensures
        tree.tree() == support_attacker_tree(),
{
    let mut select = select();
    let support_sequence = single_step_of(
        Node::MoveTo(MoveToAction { target: Vec2::new(-500, 500), tolerance: 100 }),
    );
    let pass_sequence = single_step_of(
        Node::MoveTo(MoveToAction { target: Vec2::new(0, 0), tolerance: 100 }),
    );
    select.children.push(support_sequence);
    select.children.push(pass_sequence);
    assert(trees_of(select.children@) =~= support_attacker_tree()->Select_children);
    select
}

/// On every snapshot the striker's tree shoots if the chance is good enough
/// and otherwise reports how the move to the scoring position stands; the
/// tree itself is left as it was.
pub proof fn striker_shoots_or_moves(s: RobotSituation)
    ensures
        tick_tree(striker_tree(), s) == (
            striker_tree(),
            if s.shot_quality >= 700 {
                Outcome::Success
            } else {
                move_to_outcome(Vec2 { x: 1000, y: 0 }, 100, s)
            },
        ),
{
    let shoot = Tree::Shoot { min_shot_quality: 700 };
    let walk = Tree::MoveTo { target: Vec2 { x: 1000, y: 0 }, tolerance: 100 };
    lemma_single_step(shoot, s);
    lemma_single_step(walk, s);
    let children = striker_tree()->Select_children;
    if s.shot_quality >= 700 {
        select_takes_first_non_failure(children, 0, s);
    } else {
        select_takes_first_non_failure(children, 1, s);
    }
    assert(tick_tree(striker_tree(), s).0->Select_children =~= children);
}

/// On every snapshot the support attacker's tree reports how the move to the
/// support position stands; the tree itself is left as it was.
pub proof fn support_attacker_moves(s: RobotSituation)
    ensures
        tick_tree(support_attacker_tree(), s) == (
            support_attacker_tree(),
            move_to_outcome(Vec2 { x: -500i32, y: 500 }, 100, s),
        ),
{
    let walk = Tree::MoveTo { target: Vec2 { x: -500i32, y: 500 }, tolerance: 100 };
    lemma_single_step(walk, s);
    let children = support_attacker_tree()->Select_children;
    select_takes_first_non_failure(children, 0, s);
    assert(tick_tree(support_attacker_tree(), s).0->Select_children =~= children);
}

/// A one-step sequence of a leaf reports what the leaf reports and keeps
/// its cursor at the start.
proof fn lemma_single_step(leaf: Tree, s: RobotSituation)
    requires
        leaf is MoveTo || leaf is Shoot,
    ensures
        tick_tree(single_step(leaf), s) == (single_step(leaf), tick_tree(leaf, s).1),
{
    let children = seq![leaf];
    sequence_follows_child_at_cursor(children, 0, s);
    assert(children.update(0, leaf) =~= children);
}

/// The team's plan as a mathematical value: who plays which role, and the
/// tree of each role.
pub struct Plan {
    pub striker_id: PlayerId,
    pub support_id: PlayerId,
    pub striker: Tree,
    pub support: Tree,
}

/// Owns one tree per managed agent and ticks each of them once per frame.
pub struct TeamStrategy {
    striker_id: PlayerId,
    support_id: PlayerId,
    striker: Node,
    support: Node,
}

impl View for TeamStrategy {
    type V = Plan;

    closed spec fn view(&self) -> Plan {
        Plan {
            striker_id: self.striker_id,
            support_id: self.support_id,
            striker: self.striker.tree(),
            support: self.support.tree(),
        }
    }
}

impl TeamStrategy {
    /// A strategy for a striker and a support attacker, each with a fresh
    /// tree of its role.
    pub fn new(striker_id: PlayerId, support_id: PlayerId) -> (r: Self)
        ensures
            r@ == (Plan {
                striker_id,
                support_id,
                striker: striker_tree(),
                support: support_attacker_tree(),
            }),
    {
        Self {
            striker_id,
            support_id,
            striker: Node::Select(create_striker(striker_id)),
            support: Node::Select(create_support_attacker(support_id)),
        }
    }

    /// Ticks each agent's tree once, on that agent's own snapshot. The
    /// results are not kept.
    pub fn update(&mut self, striker_situation: RobotSituation, support_situation: RobotSituation)
        ensures
            final(self)@ == (Plan {
                striker: tick_tree(old(self)@.striker, striker_situation).0,
                support: tick_tree(old(self)@.support, support_situation).0,
                ..old(self)@
            }),
    {
        let mut striker_ctx = BehaviorContext {
            robot_id: self.striker_id,
            situation: striker_situation,
        };
        let mut support_ctx = BehaviorContext {
            robot_id: self.support_id,
            situation: support_situation,
        };
        self.striker.tick(&mut striker_ctx);
        self.support.tick(&mut support_ctx);
    }

    /// The striker's identity.
    pub fn striker_id(&self) -> (id: PlayerId)
        ensures
            id == self@.striker_id,
    {
        self.striker_id
    }

    /// The support attacker's identity.
    pub fn support_id(&self) -> (id: PlayerId)
        ensures
            id == self@.support_id,
    {
        self.support_id
    }

    /// The striker's tree.
    pub fn striker(&self) -> (node: &Node)
        ensures
            node.tree() == self@.striker,
    {
        &self.striker
    }

    /// The support attacker's tree.
    pub fn support(&self) -> (node: &Node)
        ensures
            node.tree() == self@.support,
    {
        &self.support
    }
}

} // verus!
