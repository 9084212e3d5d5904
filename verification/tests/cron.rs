use nocelium::cron::{
    after_fire, cron_message_id, cron_next_run, cron_step, next_run_of, CronStep, NextRun, load_task, upsert_task, find_task, timed_schedule, cron_schedule, settle_fired, CronTaskConfig, TaskLoad, cron_topic, due_tasks, earliest_task, interval_delay_secs, interval_overflows,
    parse_interval, parse_schedule, reload_due, task_id_from_topic, CronTask, FireOutcome, Moment, ScheduleError,
    TaskSchedule,
};

#[test]
fn intervals() {
    assert_eq!(parse_interval("30m"), Some(1800));
    assert_eq!(parse_interval("6h"), Some(21600));
    assert_eq!(parse_interval("1d"), Some(86400));
    assert_eq!(parse_interval("45s"), Some(45));
    assert_eq!(parse_interval("  2m \n"), Some(120));
    assert_eq!(parse_interval("+3s"), Some(3));
    assert_eq!(parse_interval(""), None);
    assert_eq!(parse_interval("m"), None);
    assert_eq!(parse_interval("5"), None);
    assert_eq!(parse_interval("5w"), None);
    assert_eq!(parse_interval("-5m"), None);
    assert_eq!(parse_interval("1 m"), None);
}

#[test]
fn interval_overflow_detection() {
    assert!(interval_overflows("18446744073709551615m"));
    assert!(!interval_overflows("18446744073709551615s"));
    assert!(!interval_overflows("hello"));
}

#[test]
fn schedules() {
    match parse_schedule("2026-04-01T09:00:00Z") {
        Ok(TaskSchedule::OneShot(m)) => assert_eq!(m, Moment { secs: 1775034000, nanos: 0 }),
        _ => panic!("expected one-shot"),
    }
    match parse_schedule("2026-04-01T11:00:00+02:00") {
        Ok(TaskSchedule::OneShot(m)) => assert_eq!(m.secs, 1775034000),
        _ => panic!("expected one-shot"),
    }
    assert!(matches!(parse_schedule("30m"), Ok(TaskSchedule::Interval(1800))));
    match parse_schedule("0 0 */6 * * *") {
        Ok(TaskSchedule::Cron(expression)) => assert_eq!(expression, "0 0 */6 * * *"),
        _ => panic!("expected a cron schedule"),
    }
    match parse_schedule("not a schedule") {
        Err(e) => {
            let ScheduleError::InvalidCron { expression, .. } = &e;
            assert_eq!(expression, "not a schedule");
            assert!(e.message().starts_with("Invalid cron expression 'not a schedule': "));
        }
        Ok(_) => panic!("expected error"),
    }
}

#[test]
fn task_topics() {
    assert_eq!(task_id_from_topic("cron/heartbeat"), Some("heartbeat".to_string()));
    assert_eq!(task_id_from_topic("cron/"), Some("".to_string()));
    assert_eq!(task_id_from_topic("cro"), None);
    assert_eq!(task_id_from_topic("notes/x"), None);
    assert_eq!(cron_topic("heartbeat"), "cron/heartbeat");
    assert_eq!(cron_message_id("t1", 1711540200), "cron-t1-1711540200");
}

#[test]
fn reload_rule() {
    assert!(reload_due(300, 3));
    assert!(!reload_due(299, 3));
    assert!(reload_due(0, 0));
}

fn task(id: &str, secs: i64, nanos: u32) -> CronTask {
    CronTask { id: id.into(), schedule: TaskSchedule::Interval(60), payload: "p".into(), next_run: Moment { secs, nanos } }
}

#[test]
fn choosing_tasks() {
    let tasks = vec![task("a", 100, 5), task("b", 50, 0), task("c", 100, 0)];
    assert_eq!(earliest_task(&tasks), Some(1));
    assert_eq!(earliest_task(&vec![]), None);
    assert_eq!(due_tasks(&tasks, Moment { secs: 100, nanos: 0 }), vec![1, 2]);
    assert_eq!(due_tasks(&tasks, Moment { secs: 10, nanos: 0 }), Vec::<usize>::new());
    assert_eq!(due_tasks(&tasks, Moment { secs: 200, nanos: 0 }), vec![0, 1, 2]);
}

#[test]
fn after_firing() {
    assert_eq!(after_fire(&TaskSchedule::OneShot(Moment { secs: 1, nanos: 0 })), FireOutcome::Remove);
    assert_eq!(after_fire(&TaskSchedule::Interval(1800)), FireOutcome::After(1800));
    assert_eq!(after_fire(&TaskSchedule::Interval(u64::MAX)), FireOutcome::After(60));
    assert_eq!(interval_delay_secs(9223372036854775), 9223372036854775);
    assert_eq!(interval_delay_secs(9223372036854776), 60);
    let sched = match parse_schedule("0 0 * * * *") {
        Ok(s) => s,
        Err(_) => panic!(),
    };
    assert_eq!(after_fire(&sched), FireOutcome::NextCronRun);
}

#[test]
fn next_runs() {
    let m = Moment { secs: 1775034000, nanos: 0 };
    assert_eq!(next_run_of(&TaskSchedule::OneShot(m)), NextRun::At(m));
    assert_eq!(next_run_of(&TaskSchedule::Interval(1800)), NextRun::FromNow(1800));
    assert_eq!(next_run_of(&TaskSchedule::Interval(u64::MAX)), NextRun::FromNow(60));
    assert_eq!(cron_next_run(Some(m)), NextRun::At(m));
    assert_eq!(cron_next_run(None), NextRun::FromNow(3600));
    let sched = match parse_schedule("0 0 * * * *") {
        Ok(s) => s,
        Err(_) => panic!(),
    };
    assert!(matches!(next_run_of(&sched), NextRun::At(_)));
}

#[test]
fn loop_steps() {
    assert_eq!(cron_step(&vec![], Moment { secs: 0, nanos: 0 }), CronStep::Idle);
    let tasks = vec![task("a", 100, 5), task("b", 50, 0), task("c", 100, 0)];
    assert_eq!(cron_step(&tasks, Moment { secs: 10, nanos: 0 }), CronStep::WaitFor(1));
    assert_eq!(cron_step(&tasks, Moment { secs: 50, nanos: 0 }), CronStep::Fire);
    assert_eq!(cron_step(&tasks, Moment { secs: 49, nanos: 999_999_999 }), CronStep::WaitFor(1));
}

fn config(schedule: &str, enabled: bool) -> CronTaskConfig {
    CronTaskConfig { schedule: schedule.into(), payload: "ping".into(), enabled }
}

#[test]
fn loading_tasks() {
    assert!(matches!(load_task(config("30m", false)), TaskLoad::Disabled));
    assert!(matches!(load_task(config("999999999999999999d", false)), TaskLoad::Disabled));
    match load_task(config("30m", true)) {
        TaskLoad::Ready { schedule: TaskSchedule::Interval(1800), payload } => assert_eq!(payload, "ping"),
        _ => panic!("expected a ready interval task"),
    }
    match load_task(config("every now and then", true)) {
        TaskLoad::Invalid(ScheduleError::InvalidCron { expression, .. }) => assert_eq!(expression, "every now and then"),
        _ => panic!("expected an invalid schedule"),
    }
}

#[test]
fn tasks_keyed_by_id() {
    let mut tasks = Vec::new();
    upsert_task(&mut tasks, task("a", 1, 0));
    upsert_task(&mut tasks, task("b", 2, 0));
    upsert_task(&mut tasks, task("a", 3, 0));
    assert_eq!(tasks.len(), 2);
    assert_eq!(tasks[0].id, "a");
    assert_eq!(tasks[0].next_run, Moment { secs: 3, nanos: 0 });
    assert_eq!(tasks[1].id, "b");
}

#[test]
fn finding_tasks() {
    let tasks = vec![task("a", 1, 0), task("b", 2, 0)];
    assert_eq!(find_task(&tasks, &"b".to_string()), Some(1));
    assert_eq!(find_task(&tasks, &"c".to_string()), None);
}

#[test]
fn schedule_choice() {
    let a = Some((1775034000i64, 0u32));
    let b = Some((5i64, 7u32));
    assert!(matches!(timed_schedule("x", a, b), Some(TaskSchedule::OneShot(Moment { secs: 1775034000, nanos: 0 }))));
    assert!(matches!(timed_schedule("x", None, b), Some(TaskSchedule::OneShot(Moment { secs: 5, nanos: 7 }))));
    assert!(matches!(timed_schedule("6h", None, None), Some(TaskSchedule::Interval(21600))));
    assert!(timed_schedule("0 0 * * * *", None, None).is_none());
    match cron_schedule("bad", Err("no good".to_string())) {
        Err(ScheduleError::InvalidCron { expression, reason }) => {
            assert_eq!(expression, "bad");
            assert_eq!(reason, "no good");
        }
        Ok(_) => panic!("expected error"),
    }
}

#[test]
fn settling_fired_tasks() {
    let one_shot = CronTask {
        id: "once".into(),
        schedule: TaskSchedule::OneShot(Moment { secs: 5, nanos: 0 }),
        payload: "p".into(),
        next_run: Moment { secs: 5, nanos: 0 },
    };
    let mut tasks = vec![task("a", 1, 0), one_shot, task("b", 2, 0)];
    assert!(settle_fired(&mut tasks, 1, Moment { secs: 9, nanos: 0 }));
    assert_eq!(tasks.len(), 2);
    assert_eq!(find_task(&tasks, &"once".to_string()), None);
    assert!(!settle_fired(&mut tasks, 0, Moment { secs: 70, nanos: 3 }));
    assert_eq!(tasks[0].id, "a");
    assert_eq!(tasks[0].next_run, Moment { secs: 70, nanos: 3 });
    assert_eq!(tasks[1].next_run, Moment { secs: 2, nanos: 0 });
}
