use nub_cook::bound::Bound;
use nub_cook::supervise::{Order, Seen, Stage};

fn ms(millis: u64) -> Bound {
    Bound::from_millis(millis)
}

fn seen(exited: bool, stdout_drained: bool, stderr_drained: bool) -> Seen {
    Seen { exited, stdout_drained, stderr_drained }
}

#[test]
fn a_wedged_subprocess_is_abandoned_at_its_deadline() {
    let mut stage = Stage::start(ms(10), ms(200));
    let mut now = 10;
    let mut looks = 0;
    loop {
        let (next, order) = stage.look(ms(now), seen(false, false, false));
        looks += 1;
        stage = next;
        match order {
            Order::Sleep { millis } => {
                assert_eq!(millis, 25);
                now += millis;
            }
            Order::Abandon => break,
            _ => panic!("a running subprocess is neither drained nor collected"),
        }
    }
    assert_eq!(now, 210);
    assert_eq!(looks, 9);
}

#[test]
fn a_prompt_subprocess_has_its_output_taken_at_once() {
    let stage = Stage::start(ms(0), ms(10_000));
    let (stage, order) = stage.look(ms(3), seen(true, true, true));
    assert!(order == Order::Drain);
    let (_, order) = stage.look(ms(3), seen(true, true, true));
    assert!(order == Order::Collect { stdout: true, stderr: true });
}

#[test]
fn an_exit_at_the_deadline_still_counts() {
    let stage = Stage::start(ms(0), ms(100));
    let (_, order) = stage.look(ms(500), seen(true, false, false));
    assert!(order == Order::Drain);
}

#[test]
fn a_descendant_that_holds_the_pipes_is_felled_once_and_then_left() {
    let mut stage = Stage::Draining { until: None, felled: false };
    let mut now = 1_000;
    let mut felled = Vec::new();
    let taken = loop {
        let (next, order) = stage.look(ms(now), seen(true, true, false));
        stage = next;
        match order {
            Order::Sleep { millis } => {
                assert_eq!(millis, 5);
                now += millis;
            }
            Order::FellGroup => felled.push(now),
            Order::Collect { stdout, stderr } => break (stdout, stderr),
            _ => panic!("the subprocess has already exited"),
        }
    };
    assert_eq!(felled, [1_500]);
    assert_eq!(now, 2_000);
    assert_eq!(taken, (true, false));
}

#[test]
fn felling_the_group_lets_the_readers_finish() {
    let stage = Stage::Draining { until: Some(1_000_000), felled: false };
    let (stage, order) = stage.look(ms(1), seen(true, false, false));
    assert!(order == Order::FellGroup);
    let (_, order) = stage.look(ms(2), seen(true, true, true));
    assert!(order == Order::Collect { stdout: true, stderr: true });
}
