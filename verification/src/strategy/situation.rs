//! What one agent knows about the world during one tick, and named
//! conditions over that knowledge.

use crate::types::{PlayerId, Team, Vec2};
use vstd::prelude::*;
use vstd::string::StringExecFns;

verus! {

/// The facts about the world that one agent's tree may consult during one
/// tick. A snapshot is rebuilt for every tick and never changed by the tree.
#[derive(Debug, Clone)]
pub struct RobotSituation {
    pub position: Vec2,
    pub velocity: Vec2,
    pub has_ball: bool,
    pub team: Team,
    /// Estimated quality of a shot at goal, in thousandths.
    pub shot_quality: u16,
    pub is_marked: bool,
    pub teammates_positions: Vec<(PlayerId, Vec2)>,
    pub opponents_positions: Vec<(PlayerId, Vec2)>,
}

/// A colour with an opacity; every channel is in thousandths.
#[derive(Debug, Clone, Copy)]
pub struct DebugColor {
    pub r: u16,
    pub g: u16,
    pub b: u16,
    pub a: u16,
}

/// How a condition may be drawn by a debugging overlay. It never influences
/// a decision.
#[derive(Debug, Clone)]
pub enum DebugVisualization {
    Circle { radius: u32, color: DebugColor },
    Line { start: Vec2, end: Vec2, color: DebugColor },
    Text { position: Vec2, content: String, color: DebugColor },
}

/// A named condition as a mathematical value: a total function from
/// snapshots to truth values, a description and an optional drawing hint.
#[verifier::ext_equal]
pub struct Predicate {
    pub holds: spec_fn(RobotSituation) -> bool,
    pub description: Seq<char>,
    pub visualization: Option<DebugVisualization>,
}

impl Predicate {
    /// Whether the condition holds of the snapshot.
    pub open spec fn evaluate(self, s: RobotSituation) -> bool {
        (self.holds)(s)
    }

    /// The conjunction of two conditions. Its description is the two
    /// descriptions joined by `AND` in parentheses; it has no drawing hint.
    pub open spec fn and(self, other: Predicate) -> Predicate {
        Predicate {
            holds: |s: RobotSituation| self.evaluate(s) && other.evaluate(s),
            description: "("@ + self.description + " AND "@ + other.description + ")"@,
            visualization: None,
        }
    }

    /// The disjunction of two conditions. Its description is the two
    /// descriptions joined by `OR` in parentheses; it has no drawing hint.
    pub open spec fn or(self, other: Predicate) -> Predicate {
        Predicate {
            holds: |s: RobotSituation| self.evaluate(s) || other.evaluate(s),
            description: "("@ + self.description + " OR "@ + other.description + ")"@,
            visualization: None,
        }
    }
}

/// A conjunction holds exactly where both operands hold, and a disjunction
/// exactly where at least one of them holds.
pub proof fn connectives_are_pointwise(p: Predicate, q: Predicate, s: RobotSituation)
    ensures
        p.and(q).evaluate(s) == (p.evaluate(s) && q.evaluate(s)),
        p.or(q).evaluate(s) == (p.evaluate(s) || q.evaluate(s)),
{
}

/// Conjunction and disjunction are associative: however three conditions
/// are grouped, the result holds of the same snapshots.
pub proof fn connectives_are_associative(p: Predicate, q: Predicate, r: Predicate)
    ensures
        p.and(q).and(r).holds == p.and(q.and(r)).holds,
        p.or(q).or(r).holds == p.or(q.or(r)).holds,
        forall|s: RobotSituation|
            #![trigger p.and(q).and(r).evaluate(s)]
            #![trigger p.and(q.and(r)).evaluate(s)]
            p.and(q).and(r).evaluate(s) == p.and(q.and(r)).evaluate(s),
        forall|s: RobotSituation|
            #![trigger p.or(q).or(r).evaluate(s)]
            #![trigger p.or(q.or(r)).evaluate(s)]
            p.or(q).or(r).evaluate(s) == p.or(q.or(r)).evaluate(s),
{
    assert(p.and(q).and(r).holds =~= p.and(q.and(r)).holds);
    assert(p.or(q).or(r).holds =~= p.or(q.or(r)).holds);
}

/// The description of a compound condition is made of its operands'
/// descriptions, the connective between them and parentheses around; a
/// compound condition has no drawing hint.
pub proof fn connectives_describe_themselves(p: Predicate, q: Predicate)
    ensures
        p.and(q).description == seq!['('] + p.description + seq![' ', 'A', 'N', 'D', ' ']
            + q.description + seq![')'],
        p.or(q).description == seq!['('] + p.description + seq![' ', 'O', 'R', ' ']
            + q.description + seq![')'],
        p.and(q).visualization is None,
        p.or(q).visualization is None,
{
    reveal_strlit("(");
    reveal_strlit(" AND ");
    reveal_strlit(" OR ");
    reveal_strlit(")");
    assert("("@ =~= seq!['(']);
    assert(")"@ =~= seq![')']);
    assert(" AND "@ =~= seq![' ', 'A', 'N', 'D', ' ']);
    assert(" OR "@ =~= seq![' ', 'O', 'R', ' ']);
}

/// Whether `condition` can be called on every snapshot and never gives two
/// different answers for the same snapshot.
pub open spec fn is_pure<F: Fn(&RobotSituation) -> bool>(condition: F) -> bool {
    &&& forall|s: &RobotSituation| call_requires(condition, (s,))
    &&& forall|s: &RobotSituation, a: bool, b: bool|
        call_ensures(condition, (s,), a) && call_ensures(condition, (s,), b) ==> a == b
}

/// The function that a pure `condition` computes: true of the snapshots on
/// which `condition` may answer `true`.
pub open spec fn meaning_of<F: Fn(&RobotSituation) -> bool>(condition: F) -> spec_fn(
    RobotSituation,
) -> bool {
    |s: RobotSituation| call_ensures(condition, (&s,), true)
}

/// A test that can be put to a snapshot. Every pure function from snapshots
/// to truth values is a condition, and so are the compounds [`And`] and
/// [`Or`] of conditions.
pub trait Condition {
    /// Whether the condition can be asked about every snapshot and always
    /// gives the same answer for the same snapshot.
    spec fn well_behaved(&self) -> bool;

    /// Whether the condition holds of the snapshot.
    spec fn holds(&self, s: RobotSituation) -> bool;

    /// Finds out whether the condition holds of the snapshot.
    fn test(&self, s: &RobotSituation) -> (answer: bool)
        requires
            self.well_behaved(),
        ensures
            answer == self.holds(*s),
    ;
}

impl<F: Fn(&RobotSituation) -> bool> Condition for F {
    open spec fn well_behaved(&self) -> bool {
        is_pure(*self)
    }

    open spec fn holds(&self, s: RobotSituation) -> bool {
        meaning_of(*self)(s)
    }

    fn test(&self, s: &RobotSituation) -> (answer: bool) {
        self(s)
    }
}

/// What it means for a function to be taken as a condition: it is well
/// behaved exactly when it is pure, and it holds where it may answer `true`.
pub proof fn functions_are_conditions<F: Fn(&RobotSituation) -> bool>(condition: F)
    ensures
        condition.well_behaved() == is_pure(condition),
        forall|s: RobotSituation| #[trigger] condition.holds(s) == meaning_of(condition)(s),
{
}

/// Holds where both operands hold. The right operand is only asked where
/// the left one holds.
#[derive(Debug, Clone)]
pub struct And<A, B> {
    pub left: A,
    pub right: B,
}

impl<A: Condition, B: Condition> Condition for And<A, B> {
    open spec fn well_behaved(&self) -> bool {
        self.left.well_behaved() && self.right.well_behaved()
    }

    open spec fn holds(&self, s: RobotSituation) -> bool {
        self.left.holds(s) && self.right.holds(s)
    }

    fn test(&self, s: &RobotSituation) -> (answer: bool) {
        self.left.test(s) && self.right.test(s)
    }
}

/// Holds where at least one operand holds. The right operand is only asked
/// where the left one does not hold.
#[derive(Debug, Clone)]
pub struct Or<A, B> {
    pub left: A,
    pub right: B,
}

impl<A: Condition, B: Condition> Condition for Or<A, B> {
    open spec fn well_behaved(&self) -> bool {
        self.left.well_behaved() && self.right.well_behaved()
    }

    open spec fn holds(&self, s: RobotSituation) -> bool {
        self.left.holds(s) || self.right.holds(s)
    }

    fn test(&self, s: &RobotSituation) -> (answer: bool) {
        self.left.test(s) || self.right.test(s)
    }
}

/// A named, composable test over a snapshot.
#[derive(Debug)]
pub struct Situation<F> where F: Condition {
    condition: F,
    description: String,
    visualization: Option<DebugVisualization>,
}

impl<F> View for Situation<F> where F: Condition {
    type V = Predicate;

    closed spec fn view(&self) -> Predicate {
        Predicate {
            holds: |s: RobotSituation| self.condition.holds(s),
            description: self.description@,
            visualization: self.visualization,
        }
    }
}

impl<F> Situation<F> where F: Condition {
    #[verifier::type_invariant]
    spec fn well_formed(self) -> bool {
        self.condition.well_behaved()
    }

    /// A condition with a description and without a drawing hint.
    pub fn new(condition: F, description: &str) -> (r: Self)
        requires
            condition.well_behaved(),
        ensures
            r@ == (Predicate {
                holds: |s: RobotSituation| condition.holds(s),
                description: description@,
                visualization: None,
            }),
    {
        Self { condition, description: String::from_str(description), visualization: None }
    }

    /// The same condition with a drawing hint attached.
    pub fn with_visualization(self, vis: DebugVisualization) -> (r: Self)
        ensures
            r@ == (Predicate { visualization: Some(vis), ..self@ }),
    {
        proof {
            use_type_invariant(&self);
        }
        let mut this = self;
        this.visualization = Some(vis);
        this
    }

    /// Whether the condition holds of `situation`.
    pub fn evaluate(&self, situation: &RobotSituation) -> (r: bool)
        ensures
            r == self@.evaluate(*situation),
    {
        proof {
            use_type_invariant(self);
        }
        self.condition.test(situation)
    }

    /// The condition's description.
    pub fn description(&self) -> (r: &str)
        ensures
            r@ == self@.description,
    {
        self.description.as_str()
    }

    /// The condition's drawing hint, if it has one.
    pub fn visualization(&self) -> (r: &Option<DebugVisualization>)
        ensures
            *r == self@.visualization,
    {
        &self.visualization
    }

    /// The condition that holds where both `self` and `other` hold.
    pub fn and<G>(self, other: Situation<G>) -> (r: Situation<And<F, G>>) where G: Condition
        ensures
            r@ == self@.and(other@),
    {
        proof {
            use_type_invariant(&self);
            use_type_invariant(&other);
        }
        let mut description = String::from_str("(");
        description.append(self.description.as_str());
        description.append(" AND ");
        description.append(other.description.as_str());
        description.append(")");
        Situation {
            condition: And { left: self.condition, right: other.condition },
            description,
            visualization: None,
        }
    }

    /// The condition that holds where `self` or `other` holds.
    pub fn or<G>(self, other: Situation<G>) -> (r: Situation<Or<F, G>>) where G: Condition
        ensures
            r@ == self@.or(other@),
    {
        proof {
            use_type_invariant(&self);
            use_type_invariant(&other);
        }
        let mut description = String::from_str("(");
        description.append(self.description.as_str());
        description.append(" OR ");
        description.append(other.description.as_str());
        description.append(")");
        Situation {
            condition: Or { left: self.condition, right: other.condition },
            description,
            visualization: None,
        }
    }
}

} // verus!
