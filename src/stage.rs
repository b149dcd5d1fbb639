//! The decisions of each stage: which span it opens for a unit of work,
//! under which parent, for how long, where it publishes, and when its
//! subscription loop stops.
use vstd::prelude::*;
use crate::codec::{traceparent_text, ParentHandle, TraceContext};
use crate::envelope::Envelope;
use rand::Rng;

verus! {

/// The byte on interactive input that stops a subscription loop (`q`).
pub const STOP_BYTE: u8 = 113;

/// The role a stage plays in the pipeline.
#[derive(Clone, Copy, Debug, PartialEq, Eq, Structural)]
pub enum Role {
    /// Publishes one message and exits.
    Sensor,
    /// Receives sensor data and publishes an action.
    Computing,
    /// Receives actions and publishes nothing.
    Motion,
}

/// The topics of the bus.
#[derive(Clone, Copy, Debug, PartialEq, Eq, Structural)]
pub enum Topic {
    SensorData,
    Action,
}

/// The messaging operation recorded on a stage's span.
#[derive(Clone, Copy, Debug, PartialEq, Eq, Structural)]
pub enum Operation {
    Send,
    Process,
    Receive,
}

/// The name of a stage's span.
#[derive(Clone, Copy, Debug, PartialEq, Eq, Structural)]
pub enum SpanName {
    GenerateSensorData,
    StartComputing,
    StartMotion,
}

impl Topic {
    /// The key of the topic on the bus.
    pub fn name(&self) -> (r: &'static str)
        ensures
            *self == Topic::SensorData ==> r@ == "/sensor_data"@,
            *self == Topic::Action ==> r@ == "/action"@,
    {
        match self {
            Topic::SensorData => {
                proof { reveal_strlit("/sensor_data"); }
                "/sensor_data"
            },
            Topic::Action => {
                proof { reveal_strlit("/action"); }
                "/action"
            },
        }
    }
}

impl Role {
    pub open spec fn input_topic_spec(self) -> Option<Topic> {
        match self {
            Role::Sensor => None,
            Role::Computing => Some(Topic::SensorData),
            Role::Motion => Some(Topic::Action),
        }
    }

    pub open spec fn output_topic_spec(self) -> Option<Topic> {
        match self {
            Role::Sensor => Some(Topic::SensorData),
            Role::Computing => Some(Topic::Action),
            Role::Motion => None,
        }
    }

    pub open spec fn span_name_spec(self) -> SpanName {
        match self {
            Role::Sensor => SpanName::GenerateSensorData,
            Role::Computing => SpanName::StartComputing,
            Role::Motion => SpanName::StartMotion,
        }
    }

    pub open spec fn operation_spec(self) -> Operation {
        match self {
            Role::Sensor => Operation::Send,
            Role::Computing => Operation::Process,
            Role::Motion => Operation::Receive,
        }
    }

    /// The bounds, low included and high excluded, of the work duration this
    /// role asks of the next stage.
    pub open spec fn next_sleep_bounds(self) -> (u64, u64) {
        match self {
            Role::Sensor => (50, 150),
            _ => (0, 100),
        }
    }

    pub fn input_topic(&self) -> (r: Option<Topic>)
        ensures
            r == self.input_topic_spec(),
    {
        match self {
            Role::Sensor => None,
            Role::Computing => Some(Topic::SensorData),
            Role::Motion => Some(Topic::Action),
        }
    }

    pub fn output_topic(&self) -> (r: Option<Topic>)
        ensures
            r == self.output_topic_spec(),
    {
        match self {
            Role::Sensor => Some(Topic::SensorData),
            Role::Computing => Some(Topic::Action),
            Role::Motion => None,
        }
    }

    pub fn span_name(&self) -> (r: SpanName)
        ensures
            r == self.span_name_spec(),
    {
        match self {
            Role::Sensor => SpanName::GenerateSensorData,
            Role::Computing => SpanName::StartComputing,
            Role::Motion => SpanName::StartMotion,
        }
    }

    pub fn operation(&self) -> (r: Operation)
        ensures
            r == self.operation_spec(),
    {
        match self {
            Role::Sensor => Operation::Send,
            Role::Computing => Operation::Process,
            Role::Motion => Operation::Receive,
        }
    }

    /// The role that a command-line word selects.
    pub fn from_name(s: &str) -> (r: Option<Role>)
        ensures
            s@ == "sensor"@ ==> r == Some(Role::Sensor),
            s@ == "computing"@ ==> r == Some(Role::Computing),
            s@ == "motion"@ ==> r == Some(Role::Motion),
            s@ != "sensor"@ && s@ != "computing"@ && s@ != "motion"@ ==> r.is_none(),
    {
        proof {
            reveal_strlit("sensor");
            reveal_strlit("computing");
            reveal_strlit("motion");
            assert("sensor"@.len() != "computing"@.len());
            assert("motion"@.len() != "computing"@.len());
            assert("sensor"@[0] != "motion"@[0]);
        }
        if str_eq(s, "sensor") {
            Some(Role::Sensor)
        } else if str_eq(s, "computing") {
            Some(Role::Computing)
        } else if str_eq(s, "motion") {
            Some(Role::Motion)
        } else {
            None
        }
    }
}

/// Whether two strings hold the same characters.
pub fn str_eq(a: &str, b: &str) -> (r: bool)
    ensures
        r == (a@ == b@),
{
    let n = a.unicode_len();
    if n != b.unicode_len() {
        return false;
    }
    let mut i: usize = 0;
    while i < n
        invariant
            n == a@.len() == b@.len(),
            i <= n,
            forall|j: int| 0 <= j < i ==> a@[j] == b@[j],
        decreases n - i,
    {
        if a.get_char(i) != b.get_char(i) {
            return false;
        }
        i = i + 1;
    }
    assert(a@ =~= b@);
    true
}

/// One unit of work: the span a stage opens, under which parent, how long
/// it works with the span open, and where it then publishes.
#[derive(Clone, Copy, Debug, PartialEq, Eq, Structural)]
pub struct SpanPlan {
    pub name: SpanName,
    pub operation: Operation,
    /// The topic named in the span's destination attribute: the one the
    /// stage publishes to next.
    pub destination: Option<Topic>,
    pub parent: ParentHandle,
    pub delay_ms: u64,
    pub publish_to: Option<Topic>,
}

pub open spec fn plan_spec(role: Role, parent: ParentHandle, delay_ms: u64) -> SpanPlan {
    SpanPlan {
        name: role.span_name_spec(),
        operation: role.operation_spec(),
        destination: role.output_topic_spec(),
        parent,
        delay_ms,
        publish_to: role.output_topic_spec(),
    }
}

/// The work a stage of `role` does under `parent` for `delay_ms`.
pub fn span_plan(role: Role, parent: ParentHandle, delay_ms: u64) -> (r: SpanPlan)
    ensures
        r == plan_spec(role, parent, delay_ms),
{
    SpanPlan {
        name: role.span_name(),
        operation: role.operation(),
        destination: role.output_topic(),
        parent,
        delay_ms,
        publish_to: role.output_topic(),
    }
}

/// The producer's one unit of work: a root span, held open for the
/// acquisition delay, then a publish to the sensor topic.
pub fn sensor_plan(acquisition_ms: u64) -> (r: SpanPlan)
    ensures
        r == plan_spec(Role::Sensor, ParentHandle::Detached, acquisition_ms),
{
    span_plan(Role::Sensor, ParentHandle::Detached, acquisition_ms)
}

/// The work a subscribing stage does for a received envelope: its span is
/// nested under the envelope's context and held open for the envelope's
/// duration.
pub fn plan_for_envelope(role: Role, e: &Envelope) -> (r: SpanPlan)
    ensures
        r == plan_spec(role, e.parent_spec(), e.sleep_time),
{
    span_plan(role, e.parent(), e.sleep_time)
}

/// The envelope a stage sends once the work of `plan` is done: it carries
/// the context `own` of the stage's own span (not the parent's), so the next
/// stage nests under this one. `None` where the plan publishes nothing, or
/// `own` is not valid and cannot be propagated.
pub fn forward(plan: &SpanPlan, own: &TraceContext, sleep_time: u64) -> (r: Option<Envelope>)
    ensures
        r.is_some() == (plan.publish_to.is_some() && own.is_valid()),
        r.is_some() ==> r.unwrap().sleep_time == sleep_time,
        r.is_some() ==> r.unwrap().span_context@ == traceparent_text(own.propagated()),
{
    match plan.publish_to {
        Some(_) => Envelope::outgoing(own, sleep_time),
        None => None,
    }
}

/// Relies on `rand::Rng::gen_range` over `thread_rng`: a value in
/// `lo..hi` (it panics on an empty range, which `requires` excludes).
#[verifier::external_body]
fn random_in(lo: u64, hi: u64) -> (r: u64)
    requires
        lo < hi,
    ensures
        lo <= r < hi,
{
    rand::thread_rng().gen_range(lo..hi)
}

/// A random acquisition delay of the producer, below 100 ms.
pub fn draw_acquisition_delay() -> (r: u64)
    ensures
        r < 100,
{
    random_in(0, 100)
}

/// A random work duration that a stage of `role` asks of the next stage.
pub fn draw_sleep_time(role: Role) -> (r: u64)
    ensures
        role.next_sleep_bounds().0 <= r < role.next_sleep_bounds().1,
{
    match role {
        Role::Sensor => random_in(50, 150),
        _ => random_in(0, 100),
    }
}

/// Which of two ready event sources a subscription loop takes.
#[derive(Clone, Copy, Debug, PartialEq, Eq, Structural)]
pub enum Source {
    Message,
    Input,
}

/// The source a loop iteration takes: a message wins a tie, since a stop
/// request is looked at again on the next iteration.
pub fn next_source(message_ready: bool, input_ready: bool) -> (r: Option<Source>)
    ensures
        message_ready ==> r == Some(Source::Message),
        !message_ready && input_ready ==> r == Some(Source::Input),
        !message_ready && !input_ready ==> r.is_none(),
{
    if message_ready {
        Some(Source::Message)
    } else if input_ready {
        Some(Source::Input)
    } else {
        None
    }
}

/// Where a subscription loop stands.
#[derive(Clone, Copy, Debug, PartialEq, Eq, Structural)]
pub enum Phase {
    /// Waiting for the next message or a stop request.
    Idle,
    /// Working on one message; nothing else is taken until it is done.
    Busy,
    /// The loop has ended and the subscription is to be closed.
    Stopped,
}

/// The state of a subscribing stage's loop.
#[derive(Clone, Copy, Debug, PartialEq, Eq, Structural)]
pub struct Stage {
    pub role: Role,
    pub phase: Phase,
    /// A stop request that came while busy, acted on when the work is done.
    pub stop_pending: bool,
    /// The unit of work in progress.
    pub current: Option<SpanPlan>,
}

/// Whether the loop takes a new message in this state.
pub open spec fn accepts_message(s: Stage) -> bool {
    s.phase == Phase::Idle
}

/// The state after a received payload, `None` where it did not decode.
pub open spec fn message_next(s: Stage, plan: Option<SpanPlan>) -> Stage {
    match plan {
        None => s,
        Some(p) => Stage { phase: Phase::Busy, current: Some(p), ..s },
    }
}

/// The state after a byte of interactive input.
pub open spec fn input_next(s: Stage, b: u8) -> Stage {
    if b != STOP_BYTE {
        s
    } else {
        match s.phase {
            Phase::Idle => Stage { phase: Phase::Stopped, ..s },
            Phase::Busy => Stage { stop_pending: true, ..s },
            Phase::Stopped => s,
        }
    }
}

/// The state once the unit of work in progress is done.
pub open spec fn finish_next(s: Stage) -> Stage {
    Stage {
        phase: if s.stop_pending { Phase::Stopped } else { Phase::Idle },
        stop_pending: false,
        current: None,
        ..s
    }
}

impl Stage {
    pub open spec fn wf(self) -> bool {
        &&& self.role.input_topic_spec().is_some()
        &&& (self.phase == Phase::Busy <==> self.current.is_some())
        &&& (self.stop_pending ==> self.phase == Phase::Busy)
    }

    /// A stage of a subscribing role, waiting for its first message.
    pub fn new(role: Role) -> (r: Stage)
        requires
            role.input_topic_spec().is_some(),
        ensures
            r.wf(),
            r.role == role,
            r.phase == Phase::Idle,
            !r.stop_pending,
            r.current.is_none(),
    {
        Stage { role, phase: Phase::Idle, stop_pending: false, current: None }
    }

    pub fn is_stopped(&self) -> (r: bool)
        ensures
            r == (self.phase == Phase::Stopped),
    {
        match self.phase {
            Phase::Stopped => true,
            _ => false,
        }
    }

    /// Takes a received payload, `None` where it did not decode: a
    /// malformed payload is skipped and the loop goes on; an envelope
    /// starts a unit of work.
    pub fn on_message(&mut self, payload: Option<&Envelope>) -> (r: Option<SpanPlan>)
        requires
            old(self).wf(),
            accepts_message(*old(self)),
        ensures
            final(self).wf(),
            r == (match payload {
                None => None,
                Some(e) => Some(plan_spec(old(self).role, e.parent_spec(), e.sleep_time)),
            }),
            *final(self) == message_next(*old(self), r),
    {
        match payload {
            None => None,
            Some(e) => {
                let p = plan_for_envelope(self.role, e);
                self.phase = Phase::Busy;
                self.current = Some(p);
                Some(p)
            },
        }
    }

    /// Takes a byte of interactive input; returns whether the loop ends now.
    pub fn on_input(&mut self, b: u8) -> (exit: bool)
        requires
            old(self).wf(),
        ensures
            final(self).wf(),
            *final(self) == input_next(*old(self), b),
            exit == (final(self).phase == Phase::Stopped),
    {
        if b == STOP_BYTE {
            match self.phase {
                Phase::Idle => {
                    self.phase = Phase::Stopped;
                },
                Phase::Busy => {
                    self.stop_pending = true;
                },
                Phase::Stopped => {},
            }
        }
        self.is_stopped()
    }

    /// Ends the unit of work in progress, once its publish is done; returns
    /// whether the loop ends now.
    pub fn finish(&mut self) -> (exit: bool)
        requires
            old(self).wf(),
            old(self).phase == Phase::Busy,
        ensures
            final(self).wf(),
            *final(self) == finish_next(*old(self)),
            exit == old(self).stop_pending,
    {
        let exit = self.stop_pending;
        self.phase = if exit { Phase::Stopped } else { Phase::Idle };
        self.stop_pending = false;
        self.current = None;
        exit
    }
}

/// One unit of work at a time: while a stage is busy it takes no message,
/// no input changes or ends the work in progress, and it takes messages
/// again only once that work is finished (unless it then stops).
pub proof fn lemma_single_in_flight(s: Stage, b: u8)
    requires
        s.wf(),
        s.phase == Phase::Busy,
    ensures
        !accepts_message(s),
        !accepts_message(input_next(s, b)),
        input_next(s, b).current == s.current,
        input_next(s, b).phase == Phase::Busy,
        finish_next(s).current.is_none(),
        accepts_message(finish_next(s)) <==> !s.stop_pending,
{
}

/// A stop request during a unit of work does not interrupt it: the loop
/// ends when the work is finished, and not before.
pub proof fn lemma_stop_between_iterations(s: Stage)
    requires
        s.wf(),
        s.phase == Phase::Busy,
    ensures
        input_next(s, STOP_BYTE).phase == Phase::Busy,
        input_next(s, STOP_BYTE).current == s.current,
        finish_next(input_next(s, STOP_BYTE)).phase == Phase::Stopped,
{
}

/// Runs a stage over envelopes delivered in order, with no stop request:
/// one unit of work per envelope, in delivery order, each the plan of its
/// own envelope, and the stage waits again at the end.
pub fn process_in_order(role: Role, msgs: &Vec<Envelope>) -> (r: Vec<SpanPlan>)
    requires
        role.input_topic_spec().is_some(),
    ensures
        r@.len() == msgs@.len(),
        forall|i: int|
            0 <= i < msgs@.len() ==> #[trigger] r@[i] == plan_spec(role, msgs@[i].parent_spec(), msgs@[i].sleep_time),
{
    let mut stage = Stage::new(role);
    let mut plans: Vec<SpanPlan> = Vec::new();
    let mut i: usize = 0;
    while i < msgs.len()
        invariant
            i <= msgs@.len(),
            stage.wf(),
            stage.role == role,
            stage.phase == Phase::Idle,
            !stage.stop_pending,
            plans@.len() == i,
            forall|j: int|
                0 <= j < i ==> #[trigger] plans@[j] == plan_spec(role, msgs@[j].parent_spec(), msgs@[j].sleep_time),
        decreases msgs@.len() - i,
    {
        let p = stage.on_message(Some(&msgs[i]));
        match p {
            Some(p) => {
                plans.push(p);
            },
            None => {},
        }
        stage.finish();
        i = i + 1;
    }
    plans
}

/// A stop request while waiting ends the loop at once.
pub proof fn lemma_stop_when_idle(s: Stage)
    requires
        s.wf(),
        s.phase == Phase::Idle,
    ensures
        input_next(s, STOP_BYTE).phase == Phase::Stopped,
{
}

/// A payload that did not decode is skipped: the state is unchanged and the
/// loop still takes the next message.
pub proof fn lemma_malformed_skipped(s: Stage)
    requires
        s.wf(),
        accepts_message(s),
    ensures
        message_next(s, None) == s,
        accepts_message(message_next(s, None)),
{
}

} // verus!
