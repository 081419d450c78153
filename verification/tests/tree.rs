use soccer_strategy::strategy::behavior::{
    select, sequence, BehaviorContext, BehaviorNode, MoveToAction, Node, NodeResult,
    SequenceNode, ShootAction,
};
use soccer_strategy::strategy::situation::RobotSituation;
use soccer_strategy::types::{PlayerId, Team, Vec2};

fn snapshot(position: Vec2, shot_quality: u16) -> RobotSituation {
    RobotSituation {
        position,
        velocity: Vec2::zero(),
        has_ball: false,
        team: Team::Blue,
        shot_quality,
        is_marked: false,
        teammates_positions: vec![],
        opponents_positions: vec![],
    }
}

fn context(position: Vec2, shot_quality: u16) -> BehaviorContext {
    BehaviorContext { robot_id: PlayerId(7), situation: snapshot(position, shot_quality) }
}

fn shoot(min_shot_quality: u16) -> Node {
    Node::Shoot(ShootAction { min_shot_quality })
}

fn move_to(x: i32, y: i32, tolerance: u32) -> Node {
    Node::MoveTo(MoveToAction { target: Vec2::new(x, y), tolerance })
}

fn sequence_of(children: Vec<Node>) -> SequenceNode {
    let mut node = sequence();
    node.children = children;
    node
}

fn cursor_of(node: &Node) -> usize {
    match node {
        Node::Sequence(inner) => inner.current_child,
        _ => panic!("not a sequence"),
    }
}

fn failure_reason(result: NodeResult) -> String {
    match result {
        NodeResult::Failure(reason) => reason,
        NodeResult::Success => panic!("expected a failure, got success"),
        NodeResult::Running => panic!("expected a failure, got running"),
    }
}

#[test]
fn empty_selector_fails() {
    let mut node = select();
    let mut ctx = context(Vec2::new(0, 0), 0);
    assert_eq!(failure_reason(node.tick(&mut ctx)), "All children failed");
    assert!(node.children.is_empty());
}

#[test]
fn empty_sequence_succeeds() {
    let mut node = sequence();
    let mut ctx = context(Vec2::new(0, 0), 0);
    assert!(matches!(node.tick(&mut ctx), NodeResult::Success));
    assert_eq!(node.current_child, 0);
}

#[test]
fn empty_sequence_succeeds_from_any_cursor() {
    let mut node = SequenceNode { children: vec![], current_child: 5 };
    let mut ctx = context(Vec2::new(0, 0), 0);
    assert!(matches!(node.tick(&mut ctx), NodeResult::Success));
    assert_eq!(node.current_child, 0);
}

#[test]
fn sequence_with_cursor_past_the_end_succeeds_and_rewinds() {
    let mut node = SequenceNode { children: vec![shoot(900)], current_child: 1 };
    let mut ctx = context(Vec2::new(0, 0), 0);
    assert!(matches!(node.tick(&mut ctx), NodeResult::Success));
    assert_eq!(node.current_child, 0);
}

#[test]
fn selector_returns_first_success() {
    let mut node = select();
    node.children.push(shoot(900));
    node.children.push(shoot(700));
    node.children.push(move_to(5000, 0, 10));
    let mut ctx = context(Vec2::new(0, 0), 800);
    assert!(matches!(node.tick(&mut ctx), NodeResult::Success));
}

#[test]
fn selector_returns_first_running() {
    let mut node = select();
    node.children.push(shoot(900));
    node.children.push(move_to(5000, 0, 10));
    node.children.push(shoot(0));
    let mut ctx = context(Vec2::new(0, 0), 800);
    assert!(matches!(node.tick(&mut ctx), NodeResult::Running));
}

#[test]
fn selector_does_not_tick_children_behind_the_deciding_one() {
    // The third child would move its cursor to 1 if it were ticked.
    let witness = sequence_of(vec![move_to(0, 0, 10), move_to(5000, 0, 10)]);
    let mut node = select();
    node.children.push(shoot(900));
    node.children.push(move_to(5000, 0, 10));
    node.children.push(Node::Sequence(witness));
    let mut ctx = context(Vec2::new(0, 0), 100);
    assert!(matches!(node.tick(&mut ctx), NodeResult::Running));
    assert_eq!(cursor_of(&node.children[2]), 0);
}

#[test]
fn selector_ticks_failing_children_before_the_deciding_one() {
    // The first child fails at its second step, after succeeding at the
    // first; the failure puts its cursor back to the start.
    let first = SequenceNode { children: vec![shoot(0), shoot(900)], current_child: 1 };
    let mut node = select();
    node.children.push(Node::Sequence(first));
    node.children.push(shoot(0));
    let mut ctx = context(Vec2::new(0, 0), 100);
    assert!(matches!(node.tick(&mut ctx), NodeResult::Success));
    assert_eq!(cursor_of(&node.children[0]), 0);
}

#[test]
fn selector_fails_when_all_children_fail() {
    let mut node = select();
    node.children.push(shoot(900));
    node.children.push(shoot(950));
    let mut ctx = context(Vec2::new(0, 0), 100);
    assert_eq!(failure_reason(node.tick(&mut ctx)), "All children failed");
}

#[test]
fn selector_starts_from_the_first_child_every_tick() {
    let mut node = select();
    node.children.push(shoot(700));
    node.children.push(move_to(1000, 0, 100));
    let mut low = context(Vec2::new(0, 0), 200);
    assert!(matches!(node.tick(&mut low), NodeResult::Running));
    // The shot becomes viable: the first child takes over although the
    // second one was running.
    let mut high = context(Vec2::new(0, 0), 900);
    assert!(matches!(node.tick(&mut high), NodeResult::Success));
}

#[test]
fn sequence_ticks_second_child_in_the_same_tick_when_first_succeeds() {
    let mut node = sequence_of(vec![shoot(500), move_to(1000, 0, 100)]);
    let mut ctx = context(Vec2::new(0, 0), 800);
    assert!(matches!(node.tick(&mut ctx), NodeResult::Running));
    assert_eq!(node.current_child, 1);
}

#[test]
fn sequence_succeeds_when_every_child_succeeds() {
    let mut node = sequence_of(vec![shoot(500), move_to(1000, 0, 100)]);
    let mut ctx = context(Vec2::new(950, 0), 800);
    assert!(matches!(node.tick(&mut ctx), NodeResult::Success));
    assert_eq!(node.current_child, 0);
}

#[test]
fn sequence_stops_at_running_first_child() {
    // The second child would move its cursor if it were ticked.
    let witness = sequence_of(vec![shoot(0), move_to(9000, 0, 1)]);
    let mut node = sequence_of(vec![move_to(1000, 0, 100), Node::Sequence(witness)]);
    let mut ctx = context(Vec2::new(0, 0), 800);
    assert!(matches!(node.tick(&mut ctx), NodeResult::Running));
    assert_eq!(node.current_child, 0);
    assert_eq!(cursor_of(&node.children[1]), 0);
}

#[test]
fn sequence_fails_with_the_reason_of_its_first_child() {
    let mut node = sequence_of(vec![shoot(700), move_to(1000, 0, 100)]);
    let mut ctx = context(Vec2::new(0, 0), 100);
    assert_eq!(failure_reason(node.tick(&mut ctx)), "Shot quality too low");
    assert_eq!(node.current_child, 0);
}

#[test]
fn sequence_failure_rewinds_whatever_the_progress() {
    let mut node = sequence_of(vec![move_to(0, 0, 10), move_to(1000, 0, 10), shoot(700)]);
    let mut at_start = context(Vec2::new(0, 0), 100);
    assert!(matches!(node.tick(&mut at_start), NodeResult::Running));
    assert_eq!(node.current_child, 1);
    let mut arrived = context(Vec2::new(1000, 0), 100);
    assert_eq!(failure_reason(node.tick(&mut arrived)), "Shot quality too low");
    assert_eq!(node.current_child, 0);
}

#[test]
fn sequence_cursor_persists_across_ticks() {
    // A is running, running, then succeeds; B is a sequence whose cursor
    // shows whether it has been ticked.
    let b = sequence_of(vec![shoot(0), move_to(9000, 0, 1)]);
    let mut node = sequence_of(vec![move_to(1000, 0, 100), Node::Sequence(b)]);

    let mut first = context(Vec2::new(0, 0), 0);
    assert!(matches!(node.tick(&mut first), NodeResult::Running));
    assert_eq!(node.current_child, 0);
    assert_eq!(cursor_of(&node.children[1]), 0);

    let mut second = context(Vec2::new(500, 0), 0);
    assert!(matches!(node.tick(&mut second), NodeResult::Running));
    assert_eq!(node.current_child, 0);
    assert_eq!(cursor_of(&node.children[1]), 0);

    let mut third = context(Vec2::new(1000, 0), 0);
    assert!(matches!(node.tick(&mut third), NodeResult::Running));
    assert_eq!(node.current_child, 1);
    assert_eq!(cursor_of(&node.children[1]), 1);

    // A is not asked again: far from A's target the sequence still reports
    // what B reports.
    let mut fourth = context(Vec2::new(9000, 0), 0);
    assert!(matches!(node.tick(&mut fourth), NodeResult::Success));
    assert_eq!(node.current_child, 0);
}

#[test]
fn sequence_returns_result_of_second_child_after_first_finishes() {
    let mut node = sequence_of(vec![move_to(1000, 0, 100), shoot(700)]);
    let mut first = context(Vec2::new(0, 0), 100);
    assert!(matches!(node.tick(&mut first), NodeResult::Running));
    let mut second = context(Vec2::new(400, 0), 100);
    assert!(matches!(node.tick(&mut second), NodeResult::Running));
    let mut third = context(Vec2::new(1000, 0), 100);
    assert_eq!(failure_reason(node.tick(&mut third)), "Shot quality too low");
    assert_eq!(node.current_child, 0);
}

#[test]
fn tick_leaves_the_context_unchanged() {
    let mut node = select();
    node.children.push(shoot(700));
    node.children.push(move_to(1000, 0, 100));
    let mut ctx = context(Vec2::new(12, -34), 200);
    ctx.situation.teammates_positions.push((PlayerId(9), Vec2::new(1, 2)));
    let _ = node.tick(&mut ctx);
    assert_eq!(ctx.robot_id, PlayerId(7));
    assert_eq!(ctx.situation.position, Vec2::new(12, -34));
    assert_eq!(ctx.situation.shot_quality, 200);
    assert_eq!(ctx.situation.teammates_positions, vec![(PlayerId(9), Vec2::new(1, 2))]);
}

#[test]
fn nested_tree_ticks_through_node() {
    let inner = sequence_of(vec![shoot(300), shoot(600)]);
    let mut root = Node::Select({
        let mut outer = select();
        outer.children.push(Node::Sequence(inner));
        outer.children.push(move_to(0, 0, 0));
        outer
    });
    let mut ctx = context(Vec2::new(0, 0), 500);
    // The inner sequence fails at its second step; the move-to has arrived.
    assert!(matches!(root.tick(&mut ctx), NodeResult::Success));
}

#[test]
fn move_to_succeeds_within_tolerance() {
    let mut action = MoveToAction { target: Vec2::new(1000, 0), tolerance: 100 };
    let mut ctx = context(Vec2::new(950, 20), 0);
    assert!(matches!(action.tick(&mut ctx), NodeResult::Success));
}

#[test]
fn move_to_succeeds_exactly_at_tolerance() {
    let mut action = MoveToAction { target: Vec2::new(1000, 0), tolerance: 100 };
    let mut ctx = context(Vec2::new(900, 0), 0);
    assert!(matches!(action.tick(&mut ctx), NodeResult::Success));
    let mut diagonal = MoveToAction { target: Vec2::new(0, 0), tolerance: 5 };
    let mut on_circle = context(Vec2::new(3, -4), 0);
    assert!(matches!(diagonal.tick(&mut on_circle), NodeResult::Success));
}

#[test]
fn move_to_is_running_just_outside_tolerance() {
    let mut action = MoveToAction { target: Vec2::new(1000, 0), tolerance: 100 };
    let mut ctx = context(Vec2::new(899, 0), 0);
    assert!(matches!(action.tick(&mut ctx), NodeResult::Running));
    let mut diagonal = MoveToAction { target: Vec2::new(0, 0), tolerance: 5 };
    let mut outside = context(Vec2::new(3, 5), 0);
    assert!(matches!(diagonal.tick(&mut outside), NodeResult::Running));
}

#[test]
fn move_to_with_zero_tolerance_needs_the_exact_point() {
    let mut action = MoveToAction { target: Vec2::new(-7, 9), tolerance: 0 };
    let mut there = context(Vec2::new(-7, 9), 0);
    assert!(matches!(action.tick(&mut there), NodeResult::Success));
    let mut beside = context(Vec2::new(-7, 10), 0);
    assert!(matches!(action.tick(&mut beside), NodeResult::Running));
}

#[test]
fn move_to_handles_the_widest_coordinates() {
    let mut action = MoveToAction { target: Vec2::new(i32::MAX, i32::MAX), tolerance: u32::MAX };
    let mut far = context(Vec2::new(i32::MIN, i32::MIN), 0);
    // The distance is the square root of two times 4294967295.
    assert!(matches!(action.tick(&mut far), NodeResult::Running));
    let mut on_axis = context(Vec2::new(i32::MIN, i32::MAX), 0);
    assert!(matches!(action.tick(&mut on_axis), NodeResult::Success));
}

#[test]
fn shoot_succeeds_above_threshold() {
    let mut action = ShootAction { min_shot_quality: 700 };
    let mut ctx = context(Vec2::new(0, 0), 800);
    assert!(matches!(action.tick(&mut ctx), NodeResult::Success));
}

#[test]
fn shoot_succeeds_exactly_at_threshold() {
    let mut action = ShootAction { min_shot_quality: 700 };
    let mut ctx = context(Vec2::new(0, 0), 700);
    assert!(matches!(action.tick(&mut ctx), NodeResult::Success));
}

#[test]
fn shoot_fails_below_threshold() {
    let mut action = ShootAction { min_shot_quality: 700 };
    let mut ctx = context(Vec2::new(0, 0), 699);
    assert_eq!(failure_reason(action.tick(&mut ctx)), "Shot quality too low");
}
