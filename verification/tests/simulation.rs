use time_algebra::{check_times, Dt, Linear, Timed, TimestampMismatch};

#[test]
fn dt_advance() {
    let mut dt = Dt::<f32>::sim_start(1.0 / 32.0);
    dt.advance();
    assert_eq!(dt.time(), dt.value());
}

#[test]
fn simple_sim() {
    let mut dt = Dt::<f32>::sim_start(1.0);
    let mut vel = Timed::<f32, f32>::sim_start(2.0);
    let mut pos = Timed::<f32, f32>::sim_start(1.0);

    for _i in 0..10 {
        // target comes from user input or animation, etc
        let target = Timed::new(10.0, &dt);

        let accel = target.sub(pos).unwrap();
        pos.integrate(&vel, &dt).unwrap();
        vel.integrate(&accel, &dt).unwrap();

        dt.advance();
    }

    assert_eq!((*pos.value(), *pos.time()), (74.0, 10.0));
    assert_eq!((*vel.value(), *vel.time()), (288.0, 10.0));
}

#[test]
fn simple_sim_target_ahead() {
    let mut dt = Dt::<f32>::sim_start(1.0 / 32.0);
    let mut vel = Timed::<f32, f32>::sim_start(2.0);
    let mut pos = Timed::<f32, f32>::sim_start(1.0);

    let mut target_last = Timed::<f32, f32>::sim_start(0.0);
    let mut target_last_valid = false;

    for _i in 0..10 {
        // target comes from user input or animation, etc
        let mut target = Timed::new(10.0, &dt);
        target.finished_update(&dt).unwrap();

        // compute acceleration. defaults to 0 at time 0 - only valid
        // on first simulation step!
        let mut accel = Timed::sim_start(0.0);
        if target_last_valid {
            accel = target_last.sub(pos).unwrap();
        }
        target_last_valid = true;
        target_last = target;

        pos.integrate(&vel, &dt).unwrap();
        vel.integrate(&accel, &dt).unwrap();

        dt.advance();

        // (pretend to) modify dt based on measured real time passed in last iteration
        dt = Timed::new(*dt.value() + 0.1, &dt);
    }
}

#[test]
fn simple_sim_in_integer_ticks() {
    let mut dt = Dt::<i64>::sim_start(1);
    let mut vel = Timed::<i64, i64>::sim_start(2);
    let mut pos = Timed::<i64, i64>::sim_start(1);
    for _i in 0..10 {
        let target = Timed::new(10, &dt);
        let accel = target.sub(pos).unwrap();
        pos.integrate(&vel, &dt).unwrap();
        vel.integrate(&accel, &dt).unwrap();
        dt.advance();
    }
    assert_eq!((*pos.value(), *pos.time()), (74, 10));
    assert_eq!((*vel.value(), *vel.time()), (288, 10));
    assert_eq!(*dt.time(), 10);
}

#[test]
fn sim_start_holds_at_zero() {
    assert_eq!(*Timed::<u8, f32>::sim_start(9).time(), 0.0);
    assert_eq!(*Timed::<f64, f64>::sim_start(-3.5).time(), 0.0);
    assert_eq!(*Timed::<&str, i64>::sim_start("payload").time(), 0);
    assert_eq!(*Timed::<(), u64>::sim_start(()).time(), 0);
    assert_eq!(*Timed::<u8, f32>::sim_start(9).value(), 9);
}

#[test]
fn new_copies_the_instant_of_the_reference() {
    let mut dt = Dt::<f32>::sim_start(0.25);
    dt.advance();
    dt.advance();
    dt.advance();
    assert_eq!(*dt.time(), 0.75);
    let label = Timed::new("label", &dt);
    assert_eq!((*label.value(), *label.time()), ("label", 0.75));
    let count = Timed::new(3u64, &label);
    assert_eq!((*count.value(), *count.time()), (3, 0.75));
    let pair = Timed::new((1.5f64, false), &count);
    assert_eq!(*pair.time(), 0.75);
}

#[test]
fn advance_adds_the_size_to_the_instant() {
    let mut dt = Dt::<i64>::sim_start(5);
    dt.advance();
    assert_eq!((*dt.value(), *dt.time()), (5, 5));
    dt.advance();
    assert_eq!((*dt.value(), *dt.time()), (5, 10));
    let mut back = Dt::<i64>::new(-3, &dt);
    back.advance();
    assert_eq!((*back.value(), *back.time()), (-3, 7));
    let mut fine = Dt::<f64>::sim_start(0.5);
    fine.advance();
    fine.advance();
    fine.advance();
    assert_eq!((*fine.value(), *fine.time()), (0.5, 1.5));
}

#[test]
fn integrate_takes_one_euler_step() {
    let mut dt = Dt::<i64>::sim_start(3);
    dt.advance();
    let mut pos = Timed::<i64, i64>::new(1, &dt);
    let vel = Timed::<i64, i64>::new(2, &dt);
    assert_eq!(pos.integrate(&vel, &dt), Ok(()));
    assert_eq!((*pos.value(), *pos.time()), (1 + 2 * 3, 3 + 3));
    assert_eq!((*vel.value(), *vel.time()), (2, 3));

    let half = Dt::<f32>::sim_start(0.5);
    let mut x = Timed::<f32, f32>::sim_start(10.0);
    let v = Timed::<f32, f32>::sim_start(-4.0);
    assert_eq!(x.integrate(&v, &half), Ok(()));
    assert_eq!((*x.value(), *x.time()), (8.0, 0.5));
}

#[test]
fn integrate_changes_nothing_on_a_mismatch() {
    let mut dt = Dt::<i64>::sim_start(2);
    let mut pos = Timed::<i64, i64>::sim_start(1);
    let vel = Timed::<i64, i64>::sim_start(5);
    dt.advance();

    // the step has moved on: value and derivative agree, the step does not
    assert_eq!(pos.integrate(&vel, &dt), Err(TimestampMismatch { left: 0, right: 2 }));
    assert_eq!((*pos.value(), *pos.time()), (1, 0));

    // the derivative is the first to be compared
    let late = Timed::<i64, i64>::new(5, &dt);
    let mut later = Dt::<i64>::new(2, &dt);
    later.advance();
    assert_eq!(pos.integrate(&late, &later), Err(TimestampMismatch { left: 0, right: 2 }));
    assert_eq!((*pos.value(), *pos.time()), (1, 0));
    let start = Dt::<i64>::sim_start(2);
    assert_eq!(pos.integrate(&late, &start), Err(TimestampMismatch { left: 0, right: 2 }));
    assert_eq!(pos.integrate(&vel, &later), Err(TimestampMismatch { left: 0, right: 4 }));
    assert_eq!((*pos.value(), *pos.time()), (1, 0));
}

#[test]
fn finished_update_stamps_ahead_or_changes_nothing() {
    let dt = Dt::<i64>::sim_start(4);
    let mut target = Dt::<i64>::new(10, &dt);
    assert_eq!(target.finished_update(&dt), Ok(()));
    assert_eq!((*target.value(), *target.time()), (10, 4));
    assert_eq!(target.finished_update(&dt), Err(TimestampMismatch { left: 4, right: 0 }));
    assert_eq!((*target.value(), *target.time()), (10, 4));
}

#[test]
fn a_value_stamped_ahead_meets_the_advanced_step() {
    let mut dt = Dt::<f32>::sim_start(1.0 / 32.0);
    let mut pos = Timed::<f32, f32>::sim_start(1.0);
    let vel = Timed::<f32, f32>::sim_start(2.0);
    let mut target = Timed::new(10.0, &dt);
    target.finished_update(&dt).unwrap();
    pos.integrate(&vel, &dt).unwrap();
    dt.advance();
    assert_eq!(check_times(&target, &dt), Ok(()));
    assert_eq!(check_times(&pos, &dt), Ok(()));
    assert_eq!(check_times(&pos, &target), Ok(()));
}

#[test]
fn check_times_compares_exactly() {
    let a = Timed::<u8, f64>::sim_start(1);
    let b = Timed::<&str, f64>::sim_start("other payload");
    assert_eq!(check_times(&a, &b), Ok(()));

    let mut tenth = Dt::<f64>::sim_start(0.1);
    let mut fifth = Dt::<f64>::sim_start(0.2);
    tenth.advance();
    tenth.advance();
    tenth.advance();
    fifth.advance();
    let by_tenth = Dt::<f64>::new(0.1, &tenth);
    let mut by_fifth = Dt::<f64>::new(0.1, &fifth);
    by_fifth.advance();
    // 0.1 + 0.1 + 0.1 and 0.2 + 0.1 are both 0.30000000000000004
    assert_eq!(check_times(&by_tenth, &by_fifth), Ok(()));
    let third = Dt::<f64>::sim_start(0.3);
    let mut direct = third;
    direct.advance();
    // 0.3 is not: no tolerance is applied
    assert_eq!(
        check_times(&by_tenth, &direct),
        Err(TimestampMismatch { left: 0.1 + 0.1 + 0.1, right: 0.3 })
    );
}

#[test]
fn an_instant_that_is_not_a_number_agrees_with_nothing() {
    let mut dt = Dt::<f32>::sim_start(f32::NAN);
    dt.advance();
    assert!(dt.time().is_nan());
    let copy = dt;
    assert!(check_times(&dt, &copy).is_err());
    assert!(dt.eq(&copy).is_err());
}

#[test]
fn a_scalar_scales_by_multiplication() {
    assert_eq!(Linear::mul(&3i64, 4i64), 12);
    assert_eq!(Linear::mul(&-2.5f32, 2.0f32), -5.0);
    assert_eq!(Linear::mul(&7u8, 0u8), 0);
}
