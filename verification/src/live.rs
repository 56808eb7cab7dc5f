//! Processing of live NROD train movement messages: which message kinds are
//! handled, how a train is activated against its schedules, and the
//! decisions taken while a movement report is recorded.
//!
//! The database work stays with the caller: each function here takes what
//! the caller read, and says what to write or what to read next.

use vstd::prelude::*;
use crate::time::{Date, DateTime, Time};

verus! {

/// The header of a movement message.
#[derive(Clone, Debug)]
pub struct MessageHeader {
    pub msg_type: String,
    pub source_system_id: String,
    pub original_data_source: String,
}

/// A train activation: a train has been set up to run on a schedule.
#[derive(Clone, Debug)]
pub struct Activation {
    /// The TRUST train ID.
    pub train_id: String,
    /// The schedule's train UID.
    pub train_uid: String,
    /// The schedule's STP indicator, as its one-letter code.
    pub schedule_type: String,
    /// The schedule's start date.
    pub schedule_start_date: Date,
    /// When the train departs its origin.
    pub origin_dep_timestamp: DateTime,
    /// The signalling ID (headcode) from the working timetable.
    pub schedule_wtt_id: String,
}

/// A train cancellation.
#[derive(Clone, Debug)]
pub struct Cancellation {
    pub train_id: String,
}

/// What a movement report records.
#[derive(Clone, Copy, Debug, PartialEq, Eq, Structural)]
pub enum EventType {
    Arrival,
    Departure,
    Destination,
}

/// A train movement report.
#[derive(Clone, Debug)]
pub struct Movement {
    pub train_id: String,
    /// The STANOX of the location reported.
    pub loc_stanox: String,
    pub train_terminated: bool,
    /// The train is off its planned route.
    pub offroute_ind: bool,
    pub event_type: EventType,
    pub actual_timestamp: DateTime,
}

/// The body of a movement message.
#[derive(Clone, Debug)]
pub enum MvtBody {
    Activation(Activation),
    Cancellation(Cancellation),
    Movement(Movement),
    /// Any other message kind (reinstatements, changes of origin, identity
    /// or location, unknown messages).
    Other,
}

/// A movement message.
#[derive(Clone, Debug)]
pub struct Record {
    pub header: MessageHeader,
    pub body: MvtBody,
}

/// A schedule that an activation may refer to.
#[derive(Clone, Copy, Debug, PartialEq, Eq, Structural)]
pub struct Schedule {
    pub id: i32,
}

/// A running train.
#[derive(Clone, Debug)]
pub struct Train {
    /// The row ID; `-1` for a train not stored yet.
    pub id: i32,
    /// The schedule the train runs on.
    pub parent_sched: i32,
    pub trust_id: String,
    pub date: Date,
    pub signalling_id: String,
    pub cancelled: bool,
    pub terminated: bool,
}

/// A movement of a schedule: a stop or pass at a TIPLOC. Its action is 0
/// for an arrival, 1 for a departure, 2 for a pass.
#[derive(Clone, Debug)]
pub struct ScheduleMvt {
    pub id: i32,
    pub parent_sched: i32,
    pub tiploc: String,
    pub action: i32,
}

/// A recorded movement of a train at one of its schedule's movements.
#[derive(Clone, Debug)]
pub struct TrainMvt {
    /// The row ID; `-1` for a movement not stored yet.
    pub id: i32,
    pub parent_train: i32,
    pub parent_mvt: i32,
    pub time: Time,
    pub source: String,
}

/// A flag set on every train with a given TRUST ID.
#[derive(Clone, Copy, Debug, PartialEq, Eq, Structural)]
pub enum TrainFlag {
    Cancelled,
    Terminated,
}

/// Sets a flag on the trains with a TRUST ID.
#[derive(Clone, Debug)]
pub struct TrainUpdate {
    pub trust_id: String,
    pub flag: TrainFlag,
}

/// Why a movement message was not processed.
#[derive(Clone, Debug)]
pub enum NrodError {
    /// No schedule matches the activation: its UID, start date and STP
    /// indicator.
    ScheduleNotFound { uid: String, start_date: Date, stp_indicator: String },
    /// More than one matching schedule is authoritative.
    TwoAuthoritativeSchedules,
    /// None of the matching schedules is authoritative.
    NoAuthoritativeSchedules,
    /// The message kind is not handled.
    UnimplementedMessageType,
    /// No train has the movement's TRUST ID.
    NoTrainFound(String),
    /// The movement matched none of the train's schedule movements.
    NothingDone,
}

/// A message to process, by kind.
#[derive(Clone, Debug)]
pub enum NtrodTask {
    Activate(Activation),
    Cancel(Cancellation),
    Move(Movement),
}

/// Chooses how a movement message is processed: activations,
/// cancellations and movements each have their processing; every other
/// kind is refused.
pub fn process_ntrod_event(r: Record) -> (res: Result<NtrodTask, NrodError>)
    ensures
        match r.body {
            MvtBody::Activation(a) => res == Ok::<NtrodTask, NrodError>(NtrodTask::Activate(a)),
            MvtBody::Cancellation(c) => res == Ok::<NtrodTask, NrodError>(NtrodTask::Cancel(c)),
            MvtBody::Movement(m) => res == Ok::<NtrodTask, NrodError>(NtrodTask::Move(m)),
            MvtBody::Other => res matches Err(NrodError::UnimplementedMessageType),
        },
{
    match r.body {
        MvtBody::Activation(a) => Ok(NtrodTask::Activate(a)),
        MvtBody::Cancellation(c) => Ok(NtrodTask::Cancel(c)),
        MvtBody::Movement(m) => Ok(NtrodTask::Move(m)),
        MvtBody::Other => Err(NrodError::UnimplementedMessageType),
    }
}

/// How many flags are set.
pub open spec fn count_true(s: Seq<bool>) -> nat
    decreases s.len(),
{
    if s.len() == 0 {
        0
    } else {
        count_true(s.drop_last()) + if s.last() {
            1nat
        } else {
            0nat
        }
    }
}

proof fn lemma_count_true_one(s: Seq<bool>, i: int, j: int)
    requires
        0 <= i < s.len(),
        0 <= j < s.len(),
        i != j,
        s[i],
        s[j],
    ensures
        count_true(s) >= 2,
    decreases s.len(),
{
    let k = s.len() - 1;
    if i == k || j == k {
        let other = if i == k { j } else { i };
        lemma_count_true_pos(s.drop_last(), other);
    } else {
        lemma_count_true_one(s.drop_last(), i, j);
    }
}

proof fn lemma_count_true_pos(s: Seq<bool>, i: int)
    requires
        0 <= i < s.len(),
        s[i],
    ensures
        count_true(s) >= 1,
    decreases s.len(),
{
    if i < s.len() - 1 {
        lemma_count_true_pos(s.drop_last(), i);
    }
}

proof fn lemma_count_true_none(s: Seq<bool>)
    requires
        forall|i: int| 0 <= i < s.len() ==> !s[i],
    ensures
        count_true(s) == 0,
    decreases s.len(),
{
    if s.len() > 0 {
        lemma_count_true_none(s.drop_last());
    }
}

proof fn lemma_count_true_only(s: Seq<bool>, i: int)
    requires
        0 <= i < s.len(),
        s[i],
        forall|j: int| 0 <= j < s.len() && j != i ==> !s[j],
    ensures
        count_true(s) == 1,
    decreases s.len(),
{
    if i == s.len() - 1 {
        lemma_count_true_none(s.drop_last());
    } else {
        lemma_count_true_only(s.drop_last(), i);
    }
}

/// Activates a train. `scheds` are the schedules that match the
/// activation's UID, STP indicator and start date; `authoritative[i]` tells
/// whether `scheds[i]` is the authoritative schedule on the train's date.
/// The train runs on the one authoritative schedule: with no matching
/// schedule, with none authoritative, or with several, the activation is
/// refused. The train returned is new (not stored yet), neither cancelled
/// nor terminated, and carries the activation's TRUST ID, date and
/// signalling ID.
pub fn process_activation(
    a: &Activation,
    scheds: &Vec<Schedule>,
    authoritative: &Vec<bool>,
) -> (res: Result<Train, NrodError>)
    requires
        scheds.len() == authoritative.len(),
    ensures
        scheds.len() == 0 ==> (res matches Err(NrodError::ScheduleNotFound { uid, start_date, stp_indicator })
            && uid@ == a.train_uid@ && start_date == a.schedule_start_date
            && stp_indicator@ == a.schedule_type@),
        scheds.len() > 0 && count_true(authoritative@) >= 2 ==> res matches Err(
            NrodError::TwoAuthoritativeSchedules,
        ),
        scheds.len() > 0 && count_true(authoritative@) == 0 ==> res matches Err(
            NrodError::NoAuthoritativeSchedules,
        ),
        count_true(authoritative@) == 1 <==> res is Ok,
        res matches Ok(t) ==> {
            &&& exists|i: int|
                0 <= i < scheds.len() && authoritative@[i] && t.parent_sched == scheds@[i].id
            &&& t.id == -1
            &&& t.trust_id@ == a.train_id@
            &&& t.date == a.origin_dep_timestamp.date
            &&& t.signalling_id@ == a.schedule_wtt_id@
            &&& !t.cancelled
            &&& !t.terminated
        },
{
    if scheds.len() == 0 {
        return Err(
            NrodError::ScheduleNotFound {
                uid: a.train_uid.clone(),
                start_date: a.schedule_start_date,
                stp_indicator: a.schedule_type.clone(),
            },
        );
    }
    let mut found: Option<usize> = None;
    let n = scheds.len();
    let mut i: usize = 0;
    while i < n
        invariant
            n == scheds.len(),
            n == authoritative.len(),
            i <= n,
            match found {
                None => forall|j: int| 0 <= j < i ==> !authoritative@[j],
                Some(k) => k < i && authoritative@[k as int] && forall|j: int|
                    0 <= j < i && j != k ==> !authoritative@[j],
            },
        decreases n - i,
    {
        if authoritative[i] {
            match found {
                Some(k) => {
                    proof {
                        lemma_count_true_one(authoritative@, k as int, i as int);
                    }
                    return Err(NrodError::TwoAuthoritativeSchedules);
                },
                None => {
                    found = Some(i);
                },
            }
        }
        i = i + 1;
    }
    match found {
        None => {
            proof {
                lemma_count_true_none(authoritative@);
            }
            Err(NrodError::NoAuthoritativeSchedules)
        },
        Some(k) => {
            proof {
                lemma_count_true_only(authoritative@, k as int);
            }
            Ok(
                Train {
                    id: -1,
                    parent_sched: scheds[k].id,
                    trust_id: a.train_id.clone(),
                    date: a.origin_dep_timestamp.date(),
                    signalling_id: a.schedule_wtt_id.clone(),
                    cancelled: false,
                    terminated: false,
                },
            )
        },
    }
}

/// Cancels a train: every train with the cancellation's TRUST ID is marked
/// cancelled.
pub fn process_cancellation(c: &Cancellation) -> (res: TrainUpdate)
    ensures
        res.trust_id@ == c.train_id@,
        res.flag == TrainFlag::Cancelled,
{
    TrainUpdate { trust_id: c.train_id.clone(), flag: TrainFlag::Cancelled }
}

} // verus!

verus! {

/// Where the recording of a movement report stands.
#[derive(Clone, Debug)]
pub enum MovementState {
    /// Nothing done yet.
    Start,
    /// The train's termination is being stored.
    MarkingTerminated,
    /// Waiting for the trains with the report's TRUST ID.
    AwaitingTrains,
    /// Waiting for the TIPLOCs of the report's STANOX; the train is known.
    AwaitingTiplocs { train: Train },
    /// Waiting for the train's schedule movements at the TIPLOC.
    AwaitingScheduleMvts { train: Train },
    /// The report has been dealt with.
    Finished,
}

/// What the caller hands back after performing an action.
#[derive(Clone, Debug)]
pub enum MovementEvent {
    /// The first step.
    Begin,
    /// A train update was stored.
    Updated,
    /// The trains with the TRUST ID asked for.
    Trains(Vec<Train>),
    /// The TIPLOCs of the corpus entries with the STANOX asked for.
    Tiplocs(Vec<String>),
    /// The schedule movements asked for.
    ScheduleMvts(Vec<ScheduleMvt>),
}

/// What the caller is to do next.
#[derive(Debug)]
pub enum MovementAction {
    /// Store this update, then hand back `Updated`.
    Update(TrainUpdate),
    /// Look up the trains with this TRUST ID, then hand back `Trains`.
    FindTrains { trust_id: String },
    /// Look up the TIPLOCs of the corpus entries with this STANOX, then
    /// hand back `Tiplocs`.
    FindTiplocs { stanox: String },
    /// Look up this schedule's movements at this TIPLOC, then hand back
    /// `ScheduleMvts`.
    FindScheduleMvts { parent_sched: i32, tiploc: String },
    /// Store these train movements in order; the report is then processed.
    Record(Vec<TrainMvt>),
    /// The report is dealt with, with this outcome.
    Finish(Result<(), NrodError>),
}

/// Which events each state waits for.
pub open spec fn movement_accepts(s: MovementState, e: MovementEvent) -> bool {
    match (s, e) {
        (MovementState::Start, MovementEvent::Begin) => true,
        (MovementState::MarkingTerminated, MovementEvent::Updated) => true,
        (MovementState::AwaitingTrains, MovementEvent::Trains(_)) => true,
        (MovementState::AwaitingTiplocs { .. }, MovementEvent::Tiplocs(_)) => true,
        (MovementState::AwaitingScheduleMvts { .. }, MovementEvent::ScheduleMvts(_)) => true,
        _ => false,
    }
}

impl MovementState {
    /// Whether this state waits for the event `e`.
    pub fn accepts(&self, e: &MovementEvent) -> (res: bool)
        ensures
            res == movement_accepts(*self, *e),
    {
        match (self, e) {
            (MovementState::Start, MovementEvent::Begin) => true,
            (MovementState::MarkingTerminated, MovementEvent::Updated) => true,
            (MovementState::AwaitingTrains, MovementEvent::Trains(_)) => true,
            (MovementState::AwaitingTiplocs { .. }, MovementEvent::Tiplocs(_)) => true,
            (MovementState::AwaitingScheduleMvts { .. }, MovementEvent::ScheduleMvts(_)) => true,
            _ => false,
        }
    }
}

/// Whether a schedule movement with this action is what the event
/// reports: an arrival (action 0) is reached by an arrival or at the
/// destination, a pass (action 2) by an arrival, a departure (action 1) by
/// a departure.
pub open spec fn movement_matches(action: i32, ev: EventType) -> bool {
    ||| action == 0 && (ev == EventType::Arrival || ev == EventType::Destination)
    ||| action == 2 && ev == EventType::Arrival
    ||| action == 1 && ev == EventType::Departure
}

/// The schedule movements, in order, that the event reports.
pub open spec fn matching_mvts(ms: Seq<ScheduleMvt>, ev: EventType) -> Seq<ScheduleMvt>
    decreases ms.len(),
{
    if ms.len() == 0 {
        Seq::empty()
    } else if movement_matches(ms.last().action, ev) {
        matching_mvts(ms.drop_last(), ev).push(ms.last())
    } else {
        matching_mvts(ms.drop_last(), ev)
    }
}

/// The schedule movements a report records, by the kind of report: a
/// departure records the departures (action 1), a report at the
/// destination the arrivals (action 0), an arrival both the arrivals and
/// the passes (action 2); each in the order read.
pub proof fn lemma_recorded_movements_by_event(ms: Seq<ScheduleMvt>)
    ensures
        matching_mvts(ms, EventType::Departure) == ms.filter(|x: ScheduleMvt| x.action == 1),
        matching_mvts(ms, EventType::Destination) == ms.filter(|x: ScheduleMvt| x.action == 0),
        matching_mvts(ms, EventType::Arrival) == ms.filter(
            |x: ScheduleMvt| x.action == 0 || x.action == 2,
        ),
    decreases ms.len(),
{
    if ms.len() > 0 {
        lemma_recorded_movements_by_event(ms.drop_last());
    }
    reveal(Seq::filter);
}

/// `ins` records the report against `train`, once for each of the
/// schedule movements `matching`, in their order: new rows, at the report's
/// time, from TRUST.
pub open spec fn records_movements(m: Movement, train: Train, matching: Seq<ScheduleMvt>, ins: Seq<TrainMvt>) -> bool {
    &&& ins.len() == matching.len()
    &&& forall|k: int|
        0 <= k < ins.len() ==> {
            &&& #[trigger] ins[k].id == -1
            &&& ins[k].parent_train == train.id
            &&& ins[k].parent_mvt == matching[k].id
            &&& ins[k].time == m.actual_timestamp.time
            &&& ins[k].source@ == "TRUST"@
        }
}

/// After a termination has been dealt with: a report of a train off its
/// route ends there; otherwise its train is looked up.
pub open spec fn after_termination(m: Movement, s2: MovementState, a: MovementAction) -> bool {
    if m.offroute_ind {
        s2 == MovementState::Finished && a == MovementAction::Finish(Ok(()))
    } else {
        s2 == MovementState::AwaitingTrains && a == MovementAction::FindTrains { trust_id: m.train_id }
    }
}

/// One step of recording the movement report `m`: from state `s` on event
/// `e` to state `s2` with action `a`.
///
/// A terminated train is first marked terminated. A report of a train off
/// its route ends then. Otherwise the first train with the TRUST ID is
/// taken (none is an error), then the first TIPLOC of the STANOX (none
/// ends the report without error), then the schedule movements of the
/// train's schedule at that TIPLOC: those the event reports are recorded,
/// and if there are none the report is refused.
pub open spec fn movement_transition(
    m: Movement,
    s: MovementState,
    e: MovementEvent,
    s2: MovementState,
    a: MovementAction,
) -> bool {
    match (s, e) {
        (MovementState::Start, MovementEvent::Begin) => if m.train_terminated {
            &&& s2 == MovementState::MarkingTerminated
            &&& a == MovementAction::Update(TrainUpdate { trust_id: m.train_id, flag: TrainFlag::Terminated })
        } else {
            after_termination(m, s2, a)
        },
        (MovementState::MarkingTerminated, MovementEvent::Updated) => after_termination(m, s2, a),
        (MovementState::AwaitingTrains, MovementEvent::Trains(ts)) => if ts@.len() == 0 {
            &&& s2 == MovementState::Finished
            &&& a == MovementAction::Finish(Err(NrodError::NoTrainFound(m.train_id)))
        } else {
            &&& s2 == MovementState::AwaitingTiplocs { train: ts@[0] }
            &&& a == MovementAction::FindTiplocs { stanox: m.loc_stanox }
        },
        (MovementState::AwaitingTiplocs { train }, MovementEvent::Tiplocs(tls)) => if tls@.len() == 0 {
            &&& s2 == MovementState::Finished
            &&& a == MovementAction::Finish(Ok(()))
        } else {
            &&& s2 == MovementState::AwaitingScheduleMvts { train }
            &&& a == MovementAction::FindScheduleMvts { parent_sched: train.parent_sched, tiploc: tls@[0] }
        },
        (MovementState::AwaitingScheduleMvts { train }, MovementEvent::ScheduleMvts(ms)) => {
            let matching = matching_mvts(ms@, m.event_type);
            &&& s2 == MovementState::Finished
            &&& if matching.len() == 0 {
                a == MovementAction::Finish(Err(NrodError::NothingDone))
            } else {
                a matches MovementAction::Record(ins) && records_movements(m, train, matching, ins@)
            }
        },
        _ => false,
    }
}

fn after_termination_step(m: &Movement) -> (res: (MovementState, MovementAction))
    ensures
        after_termination(*m, res.0, res.1),
{
    if m.offroute_ind {
        (MovementState::Finished, MovementAction::Finish(Ok(())))
    } else {
        (MovementState::AwaitingTrains, MovementAction::FindTrains { trust_id: m.train_id.clone() })
    }
}

fn movement_records(m: &Movement, train: &Train, ms: &Vec<ScheduleMvt>) -> (res: Vec<TrainMvt>)
    ensures
        records_movements(*m, *train, matching_mvts(ms@, m.event_type), res@),
{
    let mut ins: Vec<TrainMvt> = Vec::new();
    let n = ms.len();
    let mut i: usize = 0;
    while i < n
        invariant
            n == ms.len(),
            i <= n,
            records_movements(*m, *train, matching_mvts(ms@.subrange(0, i as int), m.event_type), ins@),
        decreases n - i,
    {
        assert(ms@.subrange(0, i + 1).drop_last() =~= ms@.subrange(0, i as int));
        let mv = &ms[i];
        let hit = match (mv.action, m.event_type) {
            (0, EventType::Arrival) => true,
            (0, EventType::Destination) => true,
            (2, EventType::Arrival) => true,
            (1, EventType::Departure) => true,
            _ => false,
        };
        assert(hit == movement_matches(mv.action, m.event_type));
        let ghost pre = matching_mvts(ms@.subrange(0, i as int), m.event_type);
        assert(ms@.subrange(0, i + 1).last() == ms@[i as int]);
        assert(matching_mvts(ms@.subrange(0, i + 1), m.event_type) == if hit {
            pre.push(ms@[i as int])
        } else {
            pre
        });
        if hit {
            let ghost before = ins@;
            let source = String::from_str("TRUST");
            let ghost source_view = source@;
            assert(source_view == "TRUST"@);
            ins.push(
                TrainMvt {
                    id: -1,
                    parent_train: train.id,
                    parent_mvt: mv.id,
                    time: m.actual_timestamp.time(),
                    source,
                },
            );
            let ghost post = pre.push(ms@[i as int]);
            assert forall|k: int| 0 <= k < ins@.len() implies {
                &&& #[trigger] ins@[k].id == -1
                &&& ins@[k].parent_train == train.id
                &&& ins@[k].parent_mvt == post[k].id
                &&& ins@[k].time == m.actual_timestamp.time
                &&& ins@[k].source@ == "TRUST"@
            } by {
                if k < before.len() {
                    assert(ins@[k] == before[k]);
                    assert(post[k] == pre[k]);
                    assert(before[k].id == -1);
                } else {
                    assert(k == before.len());
                    assert(post[k] == ms@[i as int]);
                }
            }
        }
        i = i + 1;
    }
    assert(ms@.subrange(0, n as int) =~= ms@);
    ins
}

/// Takes one step of recording the movement report `m`: the caller starts
/// in `MovementState::Start` with `MovementEvent::Begin`, performs each
/// action and hands back what it asks for, until the action is `Record` or
/// `Finish`.
pub fn process_movement(m: &Movement, state: MovementState, event: MovementEvent) -> (res: (
    MovementState,
    MovementAction,
))
    requires
        movement_accepts(state, event),
    ensures
        movement_transition(*m, state, event, res.0, res.1),
        (state is MarkingTerminated || (state is Start && !m.train_terminated)) && !m.offroute_ind
            ==> looks_up_trains(*m, res.0, res.1),
        (state is MarkingTerminated || (state is Start && !m.train_terminated)) && m.offroute_ind
            ==> ends_without_error(res.0, res.1),
{
    match (state, event) {
        (MovementState::Start, MovementEvent::Begin) => {
            if m.train_terminated {
                (
                    MovementState::MarkingTerminated,
                    MovementAction::Update(
                        TrainUpdate { trust_id: m.train_id.clone(), flag: TrainFlag::Terminated },
                    ),
                )
            } else {
                after_termination_step(m)
            }
        },
        (MovementState::MarkingTerminated, MovementEvent::Updated) => after_termination_step(m),
        (MovementState::AwaitingTrains, MovementEvent::Trains(ts)) => {
            if ts.len() == 0 {
                (
                    MovementState::Finished,
                    MovementAction::Finish(Err(NrodError::NoTrainFound(m.train_id.clone()))),
                )
            } else {
                let mut ts = ts;
                let train = ts.remove(0);
                (
                    MovementState::AwaitingTiplocs { train },
                    MovementAction::FindTiplocs { stanox: m.loc_stanox.clone() },
                )
            }
        },
        (MovementState::AwaitingTiplocs { train }, MovementEvent::Tiplocs(tls)) => {
            if tls.len() == 0 {
                (MovementState::Finished, MovementAction::Finish(Ok(())))
            } else {
                let mut tls = tls;
                let tiploc = tls.remove(0);
                let parent_sched = train.parent_sched;
                (
                    MovementState::AwaitingScheduleMvts { train },
                    MovementAction::FindScheduleMvts { parent_sched, tiploc },
                )
            }
        },
        (MovementState::AwaitingScheduleMvts { train }, MovementEvent::ScheduleMvts(ms)) => {
            let ins = movement_records(m, &train, &ms);
            if ins.len() == 0 {
                (MovementState::Finished, MovementAction::Finish(Err(NrodError::NothingDone)))
            } else {
                (MovementState::Finished, MovementAction::Record(ins))
            }
        },
        _ => {
            (MovementState::Finished, MovementAction::Finish(Ok(())))
        },
    }
}

/// The next step looks up the trains with the report's TRUST ID.
pub open spec fn looks_up_trains(m: Movement, s2: MovementState, a: MovementAction) -> bool {
    &&& s2 == MovementState::AwaitingTrains
    &&& a == (MovementAction::FindTrains { trust_id: m.train_id })
}

/// The report ends here, without error.
pub open spec fn ends_without_error(s2: MovementState, a: MovementAction) -> bool {
    &&& s2 == MovementState::Finished
    &&& a == MovementAction::Finish(Ok(()))
}

/// The same report for a train that has not terminated.
pub open spec fn not_terminated(m: Movement) -> Movement {
    Movement { train_terminated: false, ..m }
}

/// Once a train's termination is stored, the report goes on as that of a
/// train that has not terminated: a report not off route looks up the
/// trains with its TRUST ID, and only a report off route ends there.
pub proof fn lemma_termination_then_lookup(m: Movement, s2: MovementState, a: MovementAction)
    ensures
        movement_transition(m, MovementState::MarkingTerminated, MovementEvent::Updated, s2, a)
            <==> movement_transition(not_terminated(m), MovementState::Start, MovementEvent::Begin, s2, a),
        movement_transition(m, MovementState::MarkingTerminated, MovementEvent::Updated, s2, a)
            && !m.offroute_ind ==> looks_up_trains(m, s2, a),
        movement_transition(m, MovementState::MarkingTerminated, MovementEvent::Updated, s2, a)
            && m.offroute_ind ==> ends_without_error(s2, a),
{
}

/// How far the recording of a report has got.
pub open spec fn movement_stage(s: MovementState) -> nat {
    match s {
        MovementState::Start => 0,
        MovementState::MarkingTerminated => 1,
        MovementState::AwaitingTrains => 2,
        MovementState::AwaitingTiplocs { .. } => 3,
        MovementState::AwaitingScheduleMvts { .. } => 4,
        MovementState::Finished => 5,
    }
}

/// Every step of recording a movement report moves it strictly forward,
/// so a report is dealt with in at most five steps; and a step ends the
/// report exactly when its action stores the movements or finishes.
pub proof fn lemma_movement_progress(
    m: Movement,
    s: MovementState,
    e: MovementEvent,
    s2: MovementState,
    a: MovementAction,
)
    requires
        movement_transition(m, s, e, s2, a),
    ensures
        movement_stage(s2) > movement_stage(s),
        s2 == MovementState::Finished <==> (a is Record || a is Finish),
{
}

} // verus!
