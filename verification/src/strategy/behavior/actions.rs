//! Leaf actions: the nodes that look at the snapshot and decide.

use super::{BehaviorContext, BehaviorNode, NodeResult, Outcome, Tree};
use crate::strategy::situation::RobotSituation;
use crate::types::Vec2;
use vstd::prelude::*;
use vstd::string::StringExecFns;

verus! {

/// Walk to a point and report arrival.
pub struct MoveToAction {
    pub target: Vec2,
    /// How close to the target counts as having arrived, in millimetres.
    pub tolerance: u32,
}

/// Take a shot if the chance is good enough.
pub struct ShootAction {
    /// The least shot quality, in thousandths, at which the shot is taken.
    pub min_shot_quality: u16,
}

/// The reason a [`ShootAction`] gives when it declines to shoot.
pub open spec fn shot_quality_too_low() -> Seq<char> {
    "Shot quality too low"@
}

/// Whether `position` lies within `tolerance` of `target`, the boundary
/// included. Distances are compared by their squares, which is exact.
pub open spec fn has_arrived(target: Vec2, tolerance: u32, position: Vec2) -> bool {
    target.distance_squared(position) <= tolerance * tolerance
}

/// What a move-to action reports: `Success` on arrival, `Running` before.
pub open spec fn move_to_outcome(target: Vec2, tolerance: u32, s: RobotSituation) -> Outcome {
    if has_arrived(target, tolerance, s.position) {
        Outcome::Success
    } else {
        Outcome::Running
    }
}

/// What a shoot action reports: `Success` when the snapshot's shot quality
/// reaches the threshold, `Failure` below it.
pub open spec fn shoot_outcome(min_shot_quality: u16, s: RobotSituation) -> Outcome {
    if s.shot_quality >= min_shot_quality {
        Outcome::Success
    } else {
        Outcome::Failure(shot_quality_too_low())
    }
}

impl BehaviorNode for MoveToAction {
    open spec fn tree(&self) -> Tree {
        Tree::MoveTo { target: self.target, tolerance: self.tolerance }
    }

    fn tick(&mut self, ctx: &mut BehaviorContext) -> (result: NodeResult)
        ensures
            *final(self) == *old(self),
            result@ == move_to_outcome(old(self).target, old(self).tolerance, old(ctx).situation),
            has_arrived(old(self).target, old(self).tolerance, old(ctx).situation.position)
                ==> result is Success,
            !has_arrived(old(self).target, old(self).tolerance, old(ctx).situation.position)
                ==> result is Running,
    {
        let dx: i128 = self.target.x as i128 - ctx.situation.position.x as i128;
        let dy: i128 = self.target.y as i128 - ctx.situation.position.y as i128;
        let reach: i128 = self.tolerance as i128;
        assert(0 <= dx * dx <= 0x1_0000_0000_0000_0000) by (nonlinear_arith)
            requires
                -0x1_0000_0000 <= dx <= 0x1_0000_0000,
        ;
        assert(0 <= dy * dy <= 0x1_0000_0000_0000_0000) by (nonlinear_arith)
            requires
                -0x1_0000_0000 <= dy <= 0x1_0000_0000,
        ;
        assert(0 <= reach * reach <= 0x1_0000_0000_0000_0000) by (nonlinear_arith)
            requires
                0 <= reach <= 0x1_0000_0000,
        ;
        if dx * dx + dy * dy <= reach * reach {
            NodeResult::Success
        } else {
            NodeResult::Running
        }
    }
}

impl BehaviorNode for ShootAction {
    open spec fn tree(&self) -> Tree {
        Tree::Shoot { min_shot_quality: self.min_shot_quality }
    }

    fn tick(&mut self, ctx: &mut BehaviorContext) -> (result: NodeResult)
        ensures
            *final(self) == *old(self),
            result@ == shoot_outcome(old(self).min_shot_quality, old(ctx).situation),
            result is Success <==> old(ctx).situation.shot_quality >= old(self).min_shot_quality,
            !(result is Success) ==> result@ == Outcome::Failure(shot_quality_too_low()),
    {
        if ctx.situation.shot_quality >= self.min_shot_quality {
            NodeResult::Success
        } else {
            NodeResult::Failure(String::from_str("Shot quality too low"))
        }
    }
}

} // verus!
