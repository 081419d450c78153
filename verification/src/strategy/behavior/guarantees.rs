//! Facts about ticking that hold of every tree and every snapshot.

use super::{
    all_children_failed, has_arrived, shot_quality_too_low, tick_select, tick_sequence,
    tick_tree, Outcome, Tree,
};
use crate::strategy::situation::RobotSituation;
use crate::types::Vec2;
use vstd::prelude::*;

verus! {

/// A move-to action succeeds exactly when the agent is within the tolerance
/// of the target, a distance equal to the tolerance included; otherwise it
/// is running. It never fails and never changes.
pub proof fn move_to_reports_arrival(target: Vec2, tolerance: u32, s: RobotSituation)
    ensures
        tick_tree(Tree::MoveTo { target, tolerance }, s).0 == (Tree::MoveTo { target, tolerance }),
        has_arrived(target, tolerance, s.position) ==> tick_tree(
            Tree::MoveTo { target, tolerance },
            s,
        ).1 == Outcome::Success,
        !has_arrived(target, tolerance, s.position) ==> tick_tree(
            Tree::MoveTo { target, tolerance },
            s,
        ).1 == Outcome::Running,
        target.distance_squared(s.position) == tolerance * tolerance ==> tick_tree(
            Tree::MoveTo { target, tolerance },
            s,
        ).1 == Outcome::Success,
{
}

/// A shoot action succeeds exactly when the shot quality is at least the
/// threshold, a quality equal to the threshold included; otherwise it fails
/// for the reason [`shot_quality_too_low`]. It is never running and never
/// changes.
pub proof fn shoot_reports_threshold(min_shot_quality: u16, s: RobotSituation)
    ensures
        tick_tree(Tree::Shoot { min_shot_quality }, s).0 == (Tree::Shoot { min_shot_quality }),
        s.shot_quality >= min_shot_quality <==> tick_tree(Tree::Shoot { min_shot_quality }, s).1
            == Outcome::Success,
        s.shot_quality < min_shot_quality <==> tick_tree(Tree::Shoot { min_shot_quality }, s).1
            == Outcome::Failure(shot_quality_too_low()),
        s.shot_quality == min_shot_quality ==> tick_tree(Tree::Shoot { min_shot_quality }, s).1
            == Outcome::Success,
{
}

/// A selector's pass from `from` on, when child `i` is the first from there
/// that does not fail.
proof fn lemma_select_pass(children: Seq<Tree>, from: int, i: int, s: RobotSituation)
    requires
        0 <= from <= i < children.len(),
        forall|j: int| from <= j < i ==> tick_tree(children[j], s).1 is Failure,
        !(tick_tree(children[i], s).1 is Failure),
    ensures
        tick_select(children, from, s).1 == tick_tree(children[i], s).1,
        tick_select(children, from, s).0.len() == children.len(),
        forall|j: int|
            from <= j <= i ==> (#[trigger] tick_select(children, from, s).0[j]) == tick_tree(
                children[j],
                s,
            ).0,
        forall|j: int|
            0 <= j < children.len() && !(from <= j <= i) ==> (#[trigger] tick_select(
                children,
                from,
                s,
            ).0[j]) == children[j],
    decreases i - from,
{
    if from < i {
        lemma_select_pass(children, from + 1, i, s);
    }
}

/// A selector reports what its first child that does not fail reports. The
/// children up to that one have been ticked; those behind it are untouched.
pub proof fn select_takes_first_non_failure(children: Seq<Tree>, i: int, s: RobotSituation)
    requires
        0 <= i < children.len(),
        forall|j: int| 0 <= j < i ==> tick_tree(children[j], s).1 is Failure,
        tick_tree(children[i], s).1 is Success || tick_tree(children[i], s).1 is Running,
    ensures
        tick_tree(Tree::Select { children }, s).1 == tick_tree(children[i], s).1,
        tick_tree(Tree::Select { children }, s).0 is Select,
        tick_tree(Tree::Select { children }, s).0->Select_children.len() == children.len(),
        forall|j: int|
            0 <= j <= i ==> (#[trigger] tick_tree(
                Tree::Select { children },
                s,
            ).0->Select_children[j]) == tick_tree(children[j], s).0,
        forall|j: int|
            i < j < children.len() ==> (#[trigger] tick_tree(
                Tree::Select { children },
                s,
            ).0->Select_children[j]) == children[j],
{
    lemma_select_pass(children, 0, i, s);
}

/// A selector all of whose children fail reports failure itself, for the
/// reason [`all_children_failed`], after ticking every child.
pub proof fn select_fails_when_all_fail(children: Seq<Tree>, s: RobotSituation)
    requires
        forall|j: int| 0 <= j < children.len() ==> tick_tree(children[j], s).1 is Failure,
    ensures
        tick_tree(Tree::Select { children }, s).1 == Outcome::Failure(all_children_failed()),
        tick_tree(Tree::Select { children }, s).0 is Select,
        tick_tree(Tree::Select { children }, s).0->Select_children.len() == children.len(),
        forall|j: int|
            0 <= j < children.len() ==> (#[trigger] tick_tree(
                Tree::Select { children },
                s,
            ).0->Select_children[j]) == tick_tree(children[j], s).0,
{
    lemma_select_all_fail(children, 0, s);
}

proof fn lemma_select_all_fail(children: Seq<Tree>, from: int, s: RobotSituation)
    requires
        0 <= from <= children.len(),
        forall|j: int| from <= j < children.len() ==> tick_tree(children[j], s).1 is Failure,
    ensures
        tick_select(children, from, s).1 == Outcome::Failure(all_children_failed()),
        tick_select(children, from, s).0.len() == children.len(),
        forall|j: int|
            from <= j < children.len() ==> (#[trigger] tick_select(children, from, s).0[j])
                == tick_tree(children[j], s).0,
        forall|j: int|
            0 <= j < from ==> (#[trigger] tick_select(children, from, s).0[j]) == children[j],
    decreases children.len() - from,
{
    if from < children.len() {
        lemma_select_all_fail(children, from + 1, s);
    }
}

/// A selector without children fails on every snapshot.
pub proof fn empty_select_fails(s: RobotSituation)
    ensures
        tick_tree(Tree::Select { children: Seq::empty() }, s) == (
            Tree::Select { children: Seq::empty() },
            Outcome::Failure(all_children_failed()),
        ),
{
}

/// A sequence without children succeeds on every snapshot, wherever its
/// cursor stood, and its cursor is at the start afterwards.
pub proof fn empty_sequence_succeeds(current_child: int, s: RobotSituation)
    ensures
        tick_tree(Tree::Sequence { children: Seq::empty(), current_child }, s) == (
            Tree::Sequence { children: Seq::empty(), current_child: 0 },
            Outcome::Success,
        ),
{
}

/// What a sequence does with the child under its cursor: on success it goes
/// on with the next child in the same tick, on running it stops with the
/// cursor where it is, on failure it stops with the cursor back at the start.
pub proof fn sequence_follows_child_at_cursor(
    children: Seq<Tree>,
    current_child: int,
    s: RobotSituation,
)
    requires
        0 <= current_child < children.len(),
    ensures
        ({
            let (child, outcome) = tick_tree(children[current_child], s);
            let ticked = children.update(current_child, child);
            let whole = tick_tree(Tree::Sequence { children, current_child }, s);
            &&& outcome is Success ==> whole == tick_tree(
                Tree::Sequence { children: ticked, current_child: current_child + 1 },
                s,
            )
            &&& outcome is Running ==> whole == (
                Tree::Sequence { children: ticked, current_child },
                Outcome::Running,
            )
            &&& outcome is Failure ==> whole == (
                Tree::Sequence { children: ticked, current_child: 0 },
                outcome,
            )
        }),
{
    let (child, outcome) = tick_tree(children[current_child], s);
    if outcome is Success {
        super::lemma_sequence_skips_prefix(children, current_child + 1, current_child, child, s);
    }
}

/// A sequence's pass from `from` on, when child `k` is the first from there
/// that does not succeed.
proof fn lemma_sequence_pass(children: Seq<Tree>, from: int, k: int, s: RobotSituation)
    requires
        0 <= from <= k < children.len(),
        forall|j: int| from <= j < k ==> tick_tree(children[j], s).1 is Success,
        !(tick_tree(children[k], s).1 is Success),
    ensures
        tick_sequence(children, from, s).2 == tick_tree(children[k], s).1,
        tick_sequence(children, from, s).1 == if tick_tree(children[k], s).1 is Running {
            k
        } else {
            0
        },
        tick_sequence(children, from, s).0.len() == children.len(),
        forall|j: int|
            from <= j <= k ==> (#[trigger] tick_sequence(children, from, s).0[j]) == tick_tree(
                children[j],
                s,
            ).0,
        forall|j: int|
            0 <= j < children.len() && !(from <= j <= k) ==> (#[trigger] tick_sequence(
                children,
                from,
                s,
            ).0[j]) == children[j],
    decreases k - from,
{
    if from < k {
        lemma_sequence_pass(children, from + 1, k, s);
    }
}

proof fn lemma_sequence_all_succeed(children: Seq<Tree>, from: int, s: RobotSituation)
    requires
        0 <= from <= children.len(),
        forall|j: int| from <= j < children.len() ==> tick_tree(children[j], s).1 is Success,
    ensures
        tick_sequence(children, from, s).2 == Outcome::Success,
        tick_sequence(children, from, s).1 == 0,
        tick_sequence(children, from, s).0.len() == children.len(),
        forall|j: int|
            from <= j < children.len() ==> (#[trigger] tick_sequence(children, from, s).0[j])
                == tick_tree(children[j], s).0,
        forall|j: int|
            0 <= j < from ==> (#[trigger] tick_sequence(children, from, s).0[j]) == children[j],
    decreases children.len() - from,
{
    if from < children.len() {
        lemma_sequence_all_succeed(children, from + 1, s);
    }
}

/// A sequence reports what the first child from its cursor on that does not
/// succeed reports. If that child is running the cursor rests on it,
/// otherwise the cursor is back at the start. The children from the cursor
/// to that child have been ticked; all others are untouched.
pub proof fn sequence_stops_at_first_non_success(
    children: Seq<Tree>,
    current_child: int,
    k: int,
    s: RobotSituation,
)
    requires
        0 <= current_child <= k < children.len(),
        forall|j: int| current_child <= j < k ==> tick_tree(children[j], s).1 is Success,
        tick_tree(children[k], s).1 is Running || tick_tree(children[k], s).1 is Failure,
    ensures
        tick_tree(Tree::Sequence { children, current_child }, s).1 == tick_tree(children[k], s).1,
        tick_tree(Tree::Sequence { children, current_child }, s).0 is Sequence,
        tick_tree(Tree::Sequence { children, current_child }, s).0->Sequence_current_child
            == if tick_tree(children[k], s).1 is Running {
            k
        } else {
            0
        },
        tick_tree(Tree::Sequence { children, current_child }, s).0->Sequence_children.len()
            == children.len(),
        forall|j: int|
            current_child <= j <= k ==> (#[trigger] tick_tree(
                Tree::Sequence { children, current_child },
                s,
            ).0->Sequence_children[j]) == tick_tree(children[j], s).0,
        forall|j: int|
            0 <= j < children.len() && !(current_child <= j <= k) ==> (#[trigger] tick_tree(
                Tree::Sequence { children, current_child },
                s,
            ).0->Sequence_children[j]) == children[j],
{
    lemma_sequence_pass(children, current_child, k, s);
}

/// A sequence all of whose children from the cursor on succeed reports
/// success, after ticking each of them, and its cursor is back at the start.
pub proof fn sequence_succeeds_when_rest_succeeds(
    children: Seq<Tree>,
    current_child: int,
    s: RobotSituation,
)
    requires
        0 <= current_child <= children.len(),
        forall|j: int|
            current_child <= j < children.len() ==> tick_tree(children[j], s).1 is Success,
    ensures
        tick_tree(Tree::Sequence { children, current_child }, s).1 == Outcome::Success,
        tick_tree(Tree::Sequence { children, current_child }, s).0 is Sequence,
        tick_tree(Tree::Sequence { children, current_child }, s).0->Sequence_current_child == 0,
        tick_tree(Tree::Sequence { children, current_child }, s).0->Sequence_children.len()
            == children.len(),
        forall|j: int|
            current_child <= j < children.len() ==> (#[trigger] tick_tree(
                Tree::Sequence { children, current_child },
                s,
            ).0->Sequence_children[j]) == tick_tree(children[j], s).0,
        forall|j: int|
            0 <= j < current_child ==> (#[trigger] tick_tree(
                Tree::Sequence { children, current_child },
                s,
            ).0->Sequence_children[j]) == children[j],
{
    lemma_sequence_all_succeed(children, current_child, s);
}

/// A sequence whose cursor lies outside its children succeeds without
/// ticking any of them, and its cursor is back at the start.
pub proof fn sequence_with_stray_cursor_succeeds(
    children: Seq<Tree>,
    current_child: int,
    s: RobotSituation,
)
    requires
        current_child < 0 || current_child >= children.len(),
    ensures
        tick_tree(Tree::Sequence { children, current_child }, s) == (
            Tree::Sequence { children, current_child: 0 },
            Outcome::Success,
        ),
{
}

/// A sequence of two children `[a, b]` that starts at `a`. If `a` succeeds,
/// `b` is ticked in the same tick and decides. If `a` is running, `b` is not
/// ticked and the cursor stays on `a`. If `a` fails, the sequence fails for
/// the same reason and the cursor is at the start.
pub proof fn sequence_of_two(a: Tree, b: Tree, s: RobotSituation)
    ensures
        ({
            let (a1, ra) = tick_tree(a, s);
            let (b1, rb) = tick_tree(b, s);
            let whole = tick_tree(Tree::Sequence { children: seq![a, b], current_child: 0 }, s);
            &&& ra is Success ==> whole == (
                Tree::Sequence {
                    children: seq![a1, b1],
                    current_child: if rb is Running {
                        1
                    } else {
                        0
                    },
                },
                rb,
            )
            &&& ra is Running ==> whole == (
                Tree::Sequence { children: seq![a1, b], current_child: 0 },
                Outcome::Running,
            )
            &&& ra is Failure ==> whole == (
                Tree::Sequence { children: seq![a1, b], current_child: 0 },
                ra,
            )
        }),
{
    let (a1, ra) = tick_tree(a, s);
    let (b1, rb) = tick_tree(b, s);
    let children = seq![a, b];
    sequence_follows_child_at_cursor(children, 0, s);
    assert(children.update(0, a1) =~= seq![a1, b]);
    if ra is Success {
        sequence_follows_child_at_cursor(seq![a1, b], 1, s);
        assert(seq![a1, b].update(1, b1) =~= seq![a1, b1]);
        if rb is Success {
            assert(tick_sequence(seq![a1, b1], 2, s) == (seq![a1, b1], 0int, Outcome::Success));
        }
    }
}

/// A sequence `[a, b]` whose first child is running for two ticks and
/// succeeds on the third reports running, running and then whatever `b`
/// reports on the third snapshot. `b` is not touched before `a` has
/// succeeded, and once the cursor rests on `b`, `a` is not ticked again.
pub proof fn sequence_resumes_where_it_stopped(
    a: Tree,
    b: Tree,
    s1: RobotSituation,
    s2: RobotSituation,
    s3: RobotSituation,
    s4: RobotSituation,
)
    requires
        tick_tree(a, s1).1 is Running,
        tick_tree(tick_tree(a, s1).0, s2).1 is Running,
        tick_tree(tick_tree(tick_tree(a, s1).0, s2).0, s3).1 is Success,
    ensures
        ({
            let a1 = tick_tree(a, s1).0;
            let a2 = tick_tree(a1, s2).0;
            let a3 = tick_tree(a2, s3).0;
            let (b3, rb) = tick_tree(b, s3);
            let (t1, r1) = tick_tree(
                Tree::Sequence { children: seq![a, b], current_child: 0 },
                s1,
            );
            let (t2, r2) = tick_tree(t1, s2);
            let (t3, r3) = tick_tree(t2, s3);
            let (t4, r4) = tick_tree(t3, s4);
            &&& r1 == Outcome::Running
            &&& t1 == Tree::Sequence { children: seq![a1, b], current_child: 0 }
            &&& r2 == Outcome::Running
            &&& t2 == Tree::Sequence { children: seq![a2, b], current_child: 0 }
            &&& r3 == rb
            &&& t3 == Tree::Sequence {
                children: seq![a3, b3],
                current_child: if rb is Running {
                    1
                } else {
                    0
                },
            }
            &&& rb is Running ==> r4 == tick_tree(b3, s4).1 && t4 is Sequence
                && t4->Sequence_children[0] == a3
        }),
{
    let a1 = tick_tree(a, s1).0;
    let a2 = tick_tree(a1, s2).0;
    let a3 = tick_tree(a2, s3).0;
    let (b3, rb) = tick_tree(b, s3);
    sequence_of_two(a, b, s1);
    sequence_of_two(a1, b, s2);
    sequence_of_two(a2, b, s3);
    if rb is Running {
        sequence_follows_child_at_cursor(seq![a3, b3], 1, s4);
        let b4 = tick_tree(b3, s4).0;
        let ticked = seq![a3, b3].update(1, b4);
        if tick_tree(b3, s4).1 is Success {
            assert(tick_sequence(ticked, 2, s4) == (ticked, 0int, Outcome::Success));
        }
    }
}

} // verus!
