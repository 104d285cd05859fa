use arith_learner::agent::{Task, CORRECT_REWARD, WRONG_REWARD};
use arith_learner::simulation::{Simulation, OPERAND_HIGH, OPERAND_LOW, WINDOW_SIZE};

#[test]
fn steps_stay_in_range() {
    let mut sim = Simulation::new(99);
    let mut operands = std::collections::HashSet::new();
    for _ in 0..300 {
        let r = sim.step();
        assert!(r.a >= OPERAND_LOW && r.a <= OPERAND_HIGH);
        assert!(r.b >= OPERAND_LOW && r.b <= OPERAND_HIGH);
        assert!((0..21).contains(&r.action));
        let expected = match sim.agent().task() {
            _ if r.evolved => r.reward,
            Task::Addition if r.action == r.a + r.b => CORRECT_REWARD,
            Task::Multiplication if r.action == r.a * r.b => CORRECT_REWARD,
            _ => WRONG_REWARD,
        };
        assert_eq!(r.reward, expected);
        assert!(sim.recent_rewards().len() <= WINDOW_SIZE);
        operands.insert((r.a, r.b));
    }
    assert!(operands.len() > 10);
}

#[test]
fn same_seed_same_run() {
    let mut x = Simulation::new(7);
    let mut y = Simulation::new(7);
    for _ in 0..200 {
        assert_eq!(x.step(), y.step());
    }
}

#[test]
fn window_slides_at_capacity() {
    let mut sim = Simulation::new(1);
    for _ in 0..60 {
        let r = sim.interact(1, 1, 0);
        assert!(!r.evolved);
        assert_eq!(r.reward, WRONG_REWARD);
    }
    assert_eq!(sim.recent_rewards().len(), 50);
    sim.interact(1, 1, 2);
    let w = sim.recent_rewards();
    assert_eq!(w.len(), 50);
    assert_eq!(w[49], CORRECT_REWARD);
    assert_eq!(w[0], WRONG_REWARD);
}

#[test]
fn full_window_of_correct_answers_evolves() {
    let mut sim = Simulation::new(3);
    for i in 0..49 {
        let r = sim.interact(3, 4, 7);
        assert!(!r.evolved);
        assert_eq!(sim.recent_rewards().len(), i + 1);
    }
    assert_eq!(sim.agent().value(3, 4, 7) > 0, true);
    let r = sim.interact(3, 4, 7);
    assert!(r.evolved);
    assert_eq!(r.reward, CORRECT_REWARD);
    assert_eq!(sim.agent().task(), Task::Multiplication);
    assert_eq!(sim.agent().exploration_rate(), 500_000);
    assert_eq!(sim.recent_rewards().len(), 0);
    assert_eq!(sim.agent().best_value(3, 4), 0);
    let r = sim.interact(3, 4, 7);
    assert_eq!(r.reward, WRONG_REWARD);
}

#[test]
fn window_at_threshold_does_not_evolve() {
    let mut sim = Simulation::new(4);
    // 45 right and 5 wrong: mean 0.89, short of 0.9.
    for _ in 0..5 {
        assert!(!sim.interact(2, 3, 1).evolved);
    }
    for _ in 0..45 {
        assert!(!sim.interact(2, 3, 5).evolved);
    }
    assert_eq!(sim.recent_rewards().len(), 50);
    assert_eq!(sim.agent().task(), Task::Addition);
    // Once four wrong remain in the window the mean is 0.912.
    assert!(sim.interact(2, 3, 5).evolved);
}
