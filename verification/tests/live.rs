use osms::live::{
    process_activation, process_cancellation, process_movement, process_ntrod_event, Activation,
    Cancellation, EventType, MessageHeader, Movement, MovementAction, MovementEvent, MovementState,
    MvtBody, NrodError, NtrodTask, Record, Schedule, ScheduleMvt, Train, TrainFlag,
};
use osms::time::{Date, DateTime, Time};

fn stamp() -> DateTime {
    DateTime {
        date: Date { year: 2018, month: 3, day: 1 },
        time: Time { hour: 9, minute: 30, second: 15, nanosecond: 0 },
    }
}

fn activation() -> Activation {
    Activation {
        train_id: "722N43MW01".to_string(),
        train_uid: "W12345".to_string(),
        schedule_type: "P".to_string(),
        schedule_start_date: Date { year: 2018, month: 1, day: 1 },
        origin_dep_timestamp: stamp(),
        schedule_wtt_id: "2N43".to_string(),
    }
}

fn header() -> MessageHeader {
    MessageHeader {
        msg_type: "0001".to_string(),
        source_system_id: "TRUST".to_string(),
        original_data_source: "TSIA".to_string(),
    }
}

fn train(id: i32, sched: i32) -> Train {
    Train {
        id,
        parent_sched: sched,
        trust_id: "722N43MW01".to_string(),
        date: Date { year: 2018, month: 3, day: 1 },
        signalling_id: "2N43".to_string(),
        cancelled: false,
        terminated: false,
    }
}

fn movement(terminated: bool, offroute: bool, ev: EventType) -> Movement {
    Movement {
        train_id: "722N43MW01".to_string(),
        loc_stanox: "72410".to_string(),
        train_terminated: terminated,
        offroute_ind: offroute,
        event_type: ev,
        actual_timestamp: stamp(),
    }
}

fn smvt(id: i32, action: i32) -> ScheduleMvt {
    ScheduleMvt { id, parent_sched: 5, tiploc: "EUSTON".to_string(), action }
}

#[test]
fn ntrod_event_dispatch() {
    let r = Record { header: header(), body: MvtBody::Activation(activation()) };
    assert!(matches!(process_ntrod_event(r), Ok(NtrodTask::Activate(a)) if a.train_uid == "W12345"));
    let r = Record { header: header(), body: MvtBody::Cancellation(Cancellation { train_id: "X".to_string() }) };
    assert!(matches!(process_ntrod_event(r), Ok(NtrodTask::Cancel(c)) if c.train_id == "X"));
    let r = Record { header: header(), body: MvtBody::Movement(movement(false, false, EventType::Arrival)) };
    assert!(matches!(process_ntrod_event(r), Ok(NtrodTask::Move(_))));
    let r = Record { header: header(), body: MvtBody::Other };
    assert!(matches!(process_ntrod_event(r), Err(NrodError::UnimplementedMessageType)));
}

#[test]
fn activation_with_one_authoritative_schedule() {
    let scheds = vec![Schedule { id: 10 }, Schedule { id: 11 }, Schedule { id: 12 }];
    let t = process_activation(&activation(), &scheds, &vec![false, true, false]).unwrap();
    assert_eq!(t.id, -1);
    assert_eq!(t.parent_sched, 11);
    assert_eq!(t.trust_id, "722N43MW01");
    assert_eq!(t.date, Date { year: 2018, month: 3, day: 1 });
    assert_eq!(t.signalling_id, "2N43");
    assert!(!t.cancelled && !t.terminated);
}

#[test]
fn activation_refusals() {
    match process_activation(&activation(), &vec![], &vec![]) {
        Err(NrodError::ScheduleNotFound { uid, start_date, stp_indicator }) => {
            assert_eq!(uid, "W12345");
            assert_eq!(start_date, Date { year: 2018, month: 1, day: 1 });
            assert_eq!(stp_indicator, "P");
        }
        other => panic!("unexpected {:?}", other),
    }
    let scheds = vec![Schedule { id: 1 }, Schedule { id: 2 }, Schedule { id: 3 }];
    assert!(matches!(
        process_activation(&activation(), &scheds, &vec![true, false, true]),
        Err(NrodError::TwoAuthoritativeSchedules)
    ));
    assert!(matches!(
        process_activation(&activation(), &scheds, &vec![false, false, false]),
        Err(NrodError::NoAuthoritativeSchedules)
    ));
}

#[test]
fn cancellation_marks_trains() {
    let u = process_cancellation(&Cancellation { train_id: "722N43MW01".to_string() });
    assert_eq!(u.trust_id, "722N43MW01");
    assert_eq!(u.flag, TrainFlag::Cancelled);
}

#[test]
fn movement_records_matching_schedule_movements() {
    let m = movement(false, false, EventType::Arrival);
    let (s, a) = process_movement(&m, MovementState::Start, MovementEvent::Begin);
    assert!(matches!(a, MovementAction::FindTrains { ref trust_id } if trust_id == "722N43MW01"));
    let (s, a) = process_movement(&m, s, MovementEvent::Trains(vec![train(7, 5), train(8, 6)]));
    assert!(matches!(a, MovementAction::FindTiplocs { ref stanox } if stanox == "72410"));
    let (s, a) = process_movement(&m, s, MovementEvent::Tiplocs(vec!["EUSTON".to_string(), "EUSTONX".to_string()]));
    match a {
        MovementAction::FindScheduleMvts { parent_sched, tiploc } => {
            assert_eq!(parent_sched, 5);
            assert_eq!(tiploc, "EUSTON");
        }
        other => panic!("unexpected {:?}", other),
    }
    let mvts = vec![smvt(100, 1), smvt(101, 0), smvt(102, 2), smvt(103, 3)];
    let (s, a) = process_movement(&m, s, MovementEvent::ScheduleMvts(mvts));
    assert!(matches!(s, MovementState::Finished));
    match a {
        MovementAction::Record(ins) => {
            let ids: Vec<i32> = ins.iter().map(|t| t.parent_mvt).collect();
            assert_eq!(ids, vec![101, 102]);
            for t in &ins {
                assert_eq!(t.id, -1);
                assert_eq!(t.parent_train, 7);
                assert_eq!(t.time, Time { hour: 9, minute: 30, second: 15, nanosecond: 0 });
                assert_eq!(t.source, "TRUST");
            }
        }
        other => panic!("unexpected {:?}", other),
    }
}

#[test]
fn movement_event_kinds() {
    let mvts = || vec![smvt(1, 0), smvt(2, 1), smvt(3, 2)];
    let recorded = |ev: EventType| {
        let m = movement(false, false, ev);
        let state = MovementState::AwaitingScheduleMvts { train: train(7, 5) };
        match process_movement(&m, state, MovementEvent::ScheduleMvts(mvts())).1 {
            MovementAction::Record(ins) => ins.iter().map(|t| t.parent_mvt).collect::<Vec<i32>>(),
            _ => vec![],
        }
    };
    assert_eq!(recorded(EventType::Arrival), vec![1, 3]);
    assert_eq!(recorded(EventType::Departure), vec![2]);
    assert_eq!(recorded(EventType::Destination), vec![1]);
}

#[test]
fn terminated_train_off_route() {
    let m = movement(true, true, EventType::Departure);
    let (s, a) = process_movement(&m, MovementState::Start, MovementEvent::Begin);
    match a {
        MovementAction::Update(u) => {
            assert_eq!(u.trust_id, "722N43MW01");
            assert_eq!(u.flag, TrainFlag::Terminated);
        }
        other => panic!("unexpected {:?}", other),
    }
    assert!(s.accepts(&MovementEvent::Updated));
    assert!(!s.accepts(&MovementEvent::Begin));
    let (s, a) = process_movement(&m, s, MovementEvent::Updated);
    assert!(matches!(s, MovementState::Finished));
    assert!(matches!(a, MovementAction::Finish(Ok(()))));
}

#[test]
fn movement_outcomes_without_records() {
    let m = movement(false, false, EventType::Departure);
    let (_, a) = process_movement(&m, MovementState::AwaitingTrains, MovementEvent::Trains(vec![]));
    assert!(matches!(a, MovementAction::Finish(Err(NrodError::NoTrainFound(ref id))) if id == "722N43MW01"));
    let st = MovementState::AwaitingTiplocs { train: train(7, 5) };
    let (s, a) = process_movement(&m, st, MovementEvent::Tiplocs(vec![]));
    assert!(matches!(s, MovementState::Finished));
    assert!(matches!(a, MovementAction::Finish(Ok(()))));
    let st = MovementState::AwaitingScheduleMvts { train: train(7, 5) };
    let (_, a) = process_movement(&m, st, MovementEvent::ScheduleMvts(vec![smvt(1, 0), smvt(2, 2)]));
    assert!(matches!(a, MovementAction::Finish(Err(NrodError::NothingDone))));
}
