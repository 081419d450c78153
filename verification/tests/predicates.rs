use soccer_strategy::strategy::plays::{
    good_shot_opportunity, has_ball, teammate_has_ball, GoodShotOpportunity, HasBall,
    TeammateHasBall,
};
use soccer_strategy::strategy::situation::{
    And, Condition, DebugColor, DebugVisualization, Or, RobotSituation, Situation,
};
use soccer_strategy::types::{PlayerId, Team, Vec2};

fn facts(has_ball: bool, shot_quality: u16, is_marked: bool) -> RobotSituation {
    RobotSituation {
        position: Vec2::new(0, 0),
        velocity: Vec2::zero(),
        has_ball,
        team: Team::Yellow,
        shot_quality,
        is_marked,
        teammates_positions: vec![],
        opponents_positions: vec![],
    }
}

fn every_case() -> Vec<RobotSituation> {
    let mut cases = Vec::new();
    for has_ball in [false, true] {
        for is_marked in [false, true] {
            for shot_quality in [0u16, 700, 701, 1000] {
                cases.push(facts(has_ball, shot_quality, is_marked));
            }
        }
    }
    cases
}

fn holds_ball(s: &RobotSituation) -> bool {
    s.has_ball
}

fn is_marked(s: &RobotSituation) -> bool {
    s.is_marked
}

fn shoots_well(s: &RobotSituation) -> bool {
    s.shot_quality > 700
}

#[test]
fn new_predicate_evaluates_its_function() {
    let p = Situation::new(|s: &RobotSituation| s.shot_quality >= 500, "decent_shot");
    assert!(p.evaluate(&facts(false, 500, false)));
    assert!(!p.evaluate(&facts(false, 499, false)));
    assert_eq!(p.description(), "decent_shot");
    assert!(p.visualization().is_none());
}

#[test]
fn evaluating_twice_gives_the_same_answer() {
    let p = Situation::new(holds_ball, "has_ball");
    let s = facts(true, 0, false);
    assert_eq!(p.evaluate(&s), p.evaluate(&s));
    assert!(p.evaluate(&s));
}

#[test]
fn with_visualization_attaches_the_hint_only() {
    let hint = DebugVisualization::Text {
        position: Vec2::new(10, 20),
        content: String::from("ball"),
        color: DebugColor { r: 1000, g: 0, b: 0, a: 1000 },
    };
    let p = Situation::new(holds_ball, "has_ball").with_visualization(hint);
    assert_eq!(p.description(), "has_ball");
    assert!(p.evaluate(&facts(true, 0, false)));
    assert!(!p.evaluate(&facts(false, 0, false)));
    match p.visualization() {
        Some(DebugVisualization::Text { position, content, color }) => {
            assert_eq!(*position, Vec2::new(10, 20));
            assert_eq!(content, "ball");
            assert_eq!((color.r, color.g, color.b, color.a), (1000, 0, 0, 1000));
        }
        _ => panic!("the hint must be the text that was attached"),
    }
}

#[test]
fn and_agrees_with_native_conjunction() {
    for s in every_case() {
        let both = Situation::new(holds_ball, "a").and(Situation::new(shoots_well, "b"));
        assert_eq!(both.evaluate(&s), holds_ball(&s) && shoots_well(&s));
    }
}

#[test]
fn or_agrees_with_native_disjunction() {
    for s in every_case() {
        let either = Situation::new(holds_ball, "a").or(Situation::new(shoots_well, "b"));
        assert_eq!(either.evaluate(&s), holds_ball(&s) || shoots_well(&s));
    }
}

#[test]
fn and_is_associative_on_every_case() {
    for s in every_case() {
        let left = Situation::new(holds_ball, "a")
            .and(Situation::new(is_marked, "b"))
            .and(Situation::new(shoots_well, "c"));
        let right = Situation::new(holds_ball, "a")
            .and(Situation::new(is_marked, "b").and(Situation::new(shoots_well, "c")));
        assert_eq!(left.evaluate(&s), right.evaluate(&s));
    }
}

#[test]
fn or_is_associative_on_every_case() {
    for s in every_case() {
        let left = Situation::new(holds_ball, "a")
            .or(Situation::new(is_marked, "b"))
            .or(Situation::new(shoots_well, "c"));
        let right = Situation::new(holds_ball, "a")
            .or(Situation::new(is_marked, "b").or(Situation::new(shoots_well, "c")));
        assert_eq!(left.evaluate(&s), right.evaluate(&s));
    }
}

#[test]
fn and_description_is_parenthesized() {
    let both = Situation::new(holds_ball, "A").and(Situation::new(shoots_well, "B"));
    assert_eq!(both.description(), "(A AND B)");
}

#[test]
fn or_description_is_parenthesized() {
    let either = Situation::new(holds_ball, "A").or(Situation::new(shoots_well, "B"));
    assert_eq!(either.description(), "(A OR B)");
}

#[test]
fn nested_descriptions_show_the_grouping() {
    let left = Situation::new(holds_ball, "a")
        .and(Situation::new(is_marked, "b"))
        .or(Situation::new(shoots_well, "c"));
    assert_eq!(left.description(), "((a AND b) OR c)");
    let right = Situation::new(holds_ball, "a")
        .and(Situation::new(is_marked, "b").or(Situation::new(shoots_well, "c")));
    assert_eq!(right.description(), "(a AND (b OR c))");
}

#[test]
fn compound_predicates_carry_no_visualization() {
    let hinted = good_shot_opportunity();
    assert!(hinted.visualization().is_some());
    let both = hinted.and(has_ball());
    assert!(both.visualization().is_none());
    let either = good_shot_opportunity().or(has_ball());
    assert!(either.visualization().is_none());
}

#[test]
fn and_asks_the_right_operand_only_where_the_left_holds() {
    let left = Situation::new(holds_ball, "left");
    let right = Situation::new(
        |s: &RobotSituation| {
            assert!(s.has_ball, "the right operand was asked although the left one is false");
            true
        },
        "right",
    );
    let both = left.and(right);
    assert!(!both.evaluate(&facts(false, 0, false)));
    assert!(both.evaluate(&facts(true, 0, false)));
}

#[test]
fn or_asks_the_right_operand_only_where_the_left_fails() {
    let left = Situation::new(holds_ball, "left");
    let right = Situation::new(
        |s: &RobotSituation| {
            assert!(!s.has_ball, "the right operand was asked although the left one is true");
            false
        },
        "right",
    );
    let either = left.or(right);
    assert!(either.evaluate(&facts(true, 0, false)));
    assert!(!either.evaluate(&facts(false, 0, false)));
}

#[test]
fn has_ball_predicate() {
    let p = has_ball();
    assert_eq!(p.description(), "has_ball");
    assert!(p.visualization().is_none());
    assert!(p.evaluate(&facts(true, 0, true)));
    assert!(!p.evaluate(&facts(false, 1000, false)));
}

#[test]
fn good_shot_opportunity_predicate() {
    let p = good_shot_opportunity();
    assert_eq!(p.description(), "good_shot_opportunity");
    assert!(p.evaluate(&facts(false, 701, false)));
    assert!(!p.evaluate(&facts(false, 700, false)));
    assert!(!p.evaluate(&facts(false, 900, true)));
    match p.visualization() {
        Some(DebugVisualization::Circle { radius, color }) => {
            assert_eq!(*radius, 1000);
            assert_eq!((color.r, color.g, color.b, color.a), (0, 1000, 0, 500));
        }
        _ => panic!("the hint must be a circle"),
    }
}

#[test]
fn teammate_has_ball_predicate() {
    let p = teammate_has_ball();
    assert_eq!(p.description(), "teammate_has_ball");
    assert!(p.visualization().is_none());
    let mut s = facts(false, 0, false);
    assert!(!p.evaluate(&s));
    s.teammates_positions.push((PlayerId(1), Vec2::new(5, 5)));
    assert!(p.evaluate(&s));
}

#[test]
fn ready_made_predicates_compose() {
    let p = has_ball().and(good_shot_opportunity()).or(teammate_has_ball());
    assert_eq!(p.description(), "((has_ball AND good_shot_opportunity) OR teammate_has_ball)");
    assert!(p.evaluate(&facts(true, 800, false)));
    assert!(!p.evaluate(&facts(true, 800, true)));
    let mut s = facts(false, 0, true);
    s.teammates_positions.push((PlayerId(2), Vec2::zero()));
    assert!(p.evaluate(&s));
}

#[test]
fn named_conditions_answer_directly() {
    let mut s = facts(true, 701, false);
    assert!(HasBall.test(&s));
    assert!(GoodShotOpportunity.test(&s));
    assert!(!TeammateHasBall.test(&s));
    s.has_ball = false;
    s.is_marked = true;
    s.teammates_positions.push((PlayerId(3), Vec2::new(1, 1)));
    assert!(!HasBall.test(&s));
    assert!(!GoodShotOpportunity.test(&s));
    assert!(TeammateHasBall.test(&s));
}

#[test]
fn functions_answer_as_conditions() {
    let s = facts(true, 10, false);
    assert!(holds_ball.test(&s));
    assert!(!shoots_well.test(&s));
    let at_least = |s: &RobotSituation| s.shot_quality >= 10;
    assert!(at_least.test(&s));
}

#[test]
fn compound_conditions_answer_like_their_connective() {
    for s in every_case() {
        let both = And { left: HasBall, right: GoodShotOpportunity };
        assert_eq!(both.test(&s), s.has_ball && s.shot_quality > 700 && !s.is_marked);
        let either = Or { left: HasBall, right: GoodShotOpportunity };
        assert_eq!(either.test(&s), s.has_ball || (s.shot_quality > 700 && !s.is_marked));
        let nested = Or { left: And { left: HasBall, right: is_marked }, right: shoots_well };
        assert_eq!(nested.test(&s), (s.has_ball && s.is_marked) || s.shot_quality > 700);
    }
}
