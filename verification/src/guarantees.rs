//! What the driver guarantees, proved of its state machine.

use crate::handler::decode_spec;
use crate::handler::reply_spec;
use crate::handler::timers_after;
use crate::handler::HandlerState;
use crate::handler::NextEvent;
use crate::interface::InterfaceHash;
use crate::message::Message;
use crate::message::MessageId;
use crate::message::NativeProgramEvent;
use crate::message::Reply;
use crate::message::SystemTimeMessage;
use crate::message::TimeMessage;
use crate::timers::has_expired;
use crate::timers::insertion_index;
use crate::timers::lemma_insertion_index;
use crate::timers::lemma_schedule;
use crate::timers::schedule;
use crate::timers::sorted_by_deadline;
use crate::timers::Timer;
use vstd::multiset::Multiset;
use vstd::prelude::*;

verus! {

/// A message as the host delivers it.
pub struct Delivery {
    pub interface: InterfaceHash,
    pub message_id: Option<MessageId>,
    pub bytes: Seq<u8>,
}

/// The state after the messages of `deliveries` were delivered, first to last.
pub open spec fn deliver_all(state: HandlerState, deliveries: Seq<Delivery>) -> HandlerState
    decreases deliveries.len(),
{
    if deliveries.len() == 0 {
        state
    } else {
        deliver_all(
            state.deliver(deliveries[0].interface, deliveries[0].message_id, deliveries[0].bytes),
            deliveries.drop_first(),
        )
    }
}

/// The identifiers of the queued requests, each as often as it is queued.
pub open spec fn queued_ids(messages: Seq<(Message, MessageId)>) -> Multiset<MessageId>
    decreases messages.len(),
{
    if messages.len() == 0 {
        Multiset::empty()
    } else {
        queued_ids(messages.drop_first()).insert(messages[0].1)
    }
}

/// The identifiers of the pending waits, each as often as a timer holds it.
pub open spec fn waiting_ids(timers: Seq<Timer>) -> Multiset<MessageId>
    decreases timers.len(),
{
    if timers.len() == 0 {
        Multiset::empty()
    } else {
        waiting_ids(timers.drop_first()).insert(timers[0].message_id)
    }
}

/// The identifiers of the requests that the driver holds and has not answered.
pub open spec fn outstanding(state: HandlerState) -> Multiset<MessageId> {
    queued_ids(state.messages).add(waiting_ids(state.timers))
}

/// Delivering messages changes nothing but the queue: the registration flags, the
/// interfaces and the pending waits stay as they are, and the queue only grows
/// at its end.
pub proof fn lemma_deliveries_only_queue(state: HandlerState, deliveries: Seq<Delivery>)
    ensures
        deliver_all(state, deliveries).time_interface == state.time_interface,
        deliver_all(state, deliveries).system_time_interface == state.system_time_interface,
        deliver_all(state, deliveries).time_registered == state.time_registered,
        deliver_all(state, deliveries).system_time_registered == state.system_time_registered,
        deliver_all(state, deliveries).timers == state.timers,
        state.messages.is_prefix_of(deliver_all(state, deliveries).messages),
        state.wf() ==> deliver_all(state, deliveries).wf(),
    decreases deliveries.len(),
{
    if deliveries.len() > 0 {
        let next = state.deliver(
            deliveries[0].interface,
            deliveries[0].message_id,
            deliveries[0].bytes,
        );
        lemma_deliveries_only_queue(next, deliveries.drop_first());
    }
}

/// Whatever is delivered before the first poll and between the first two polls,
/// and whatever the clocks read, the first event of a new driver registers the
/// monotonic-time interface and the second registers the system-time interface.
/// After them both interfaces are registered.
pub proof fn lemma_registration_first(
    time_interface: InterfaceHash,
    system_time_interface: InterfaceHash,
    before: Seq<Delivery>,
    between: Seq<Delivery>,
    monotonic1: u128,
    system1: u128,
    monotonic2: u128,
    system2: u128,
)
    ensures
        ({
            let start = HandlerState::initial(time_interface, system_time_interface);
            let first = deliver_all(start, before).next_event(monotonic1, system1);
            let second = deliver_all(first.0, between).next_event(monotonic2, system2);
            &&& first.1 == NextEvent::Ready(NativeProgramEvent::Emit { register: time_interface })
            &&& second.1 == NextEvent::Ready(
                NativeProgramEvent::Emit { register: system_time_interface },
            )
            &&& second.0.registered()
        }),
{
    let start = HandlerState::initial(time_interface, system_time_interface);
    lemma_deliveries_only_queue(start, before);
    let first = deliver_all(start, before).next_event(monotonic1, system1);
    lemma_deliveries_only_queue(first.0, between);
}

/// A pass of serving keeps the invariant of the state and touches neither the
/// registration flags nor the interfaces.
pub proof fn lemma_serve_keeps_wf(state: HandlerState, monotonic: u128, system: u128)
    requires
        state.wf(),
    ensures
        state.serve(monotonic, system).0.wf(),
        state.serve(monotonic, system).0.time_interface == state.time_interface,
        state.serve(monotonic, system).0.system_time_interface == state.system_time_interface,
        state.serve(monotonic, system).0.time_registered == state.time_registered,
        state.serve(monotonic, system).0.system_time_registered == state.system_time_registered,
        !(state.serve(monotonic, system).1 matches NextEvent::Ready(
            NativeProgramEvent::Emit { .. },
        )),
    decreases state.messages.len(),
{
    if has_expired(state.timers, monotonic) {
        let rest = state.timers.drop_first();
        assert forall|i: int, j: int| 0 <= i <= j < rest.len() implies rest[i].deadline
            <= rest[j].deadline by {
            assert(rest[i] == state.timers[i + 1]);
            assert(rest[j] == state.timers[j + 1]);
        }
    } else if state.messages.len() > 0 {
        let (message, message_id) = state.messages[0];
        if reply_spec(message, monotonic, system).is_none() {
            let next = HandlerState {
                messages: state.messages.drop_first(),
                timers: timers_after(state.timers, message, message_id, monotonic),
                ..state
            };
            lemma_timers_after(state.timers, message, message_id, monotonic);
            lemma_serve_keeps_wf(next, monotonic, system);
        }
    }
}

/// Looking at a request keeps the pending waits ordered, keeps every wait that was
/// pending, and adds at most the wait that the request asks for, with the
/// deadline that it names.
pub proof fn lemma_timers_after(
    timers: Seq<Timer>,
    message: Message,
    message_id: MessageId,
    monotonic: u128,
)
    requires
        sorted_by_deadline(timers),
    ensures
        sorted_by_deadline(timers_after(timers, message, message_id, monotonic)),
        forall|timer: Timer|
            timers.contains(timer) ==> #[trigger] timers_after(
                timers,
                message,
                message_id,
                monotonic,
            ).contains(timer),
        forall|timer: Timer|
            #[trigger] timers_after(timers, message, message_id, monotonic).contains(timer)
                ==> timers.contains(timer) || (message == Message::Time(
                TimeMessage::WaitMonotonic(timer.deadline),
            ) && timer.message_id == message_id && timer.deadline > monotonic),
{
    let after = timers_after(timers, message, message_id, monotonic);
    if after != timers {
        let deadline = message->Time_0->WaitMonotonic_0;
        let added = Timer { deadline, message_id };
        let index = insertion_index(timers, deadline) as int;
        lemma_schedule(timers, added);
        lemma_insertion_index(timers, deadline);
        assert(after == timers.insert(index, added));
        assert forall|timer: Timer| timers.contains(timer) implies after.contains(timer) by {
            let i = choose|i: int| 0 <= i < timers.len() && timers[i] == timer;
            if i < index {
                assert(after[i] == timer);
            } else {
                assert(after[i + 1] == timer);
            }
        }
        assert forall|timer: Timer| after.contains(timer) implies timers.contains(timer) || (message
            == Message::Time(TimeMessage::WaitMonotonic(timer.deadline)) && timer.message_id
            == message_id && timer.deadline > monotonic) by {
            let i = choose|i: int| 0 <= i < after.len() && after[i] == timer;
            if i < index {
                assert(timers[i] == timer);
            } else if i > index {
                assert(timers[i - 1] == timer);
            }
        }
    }
}

/// A poll keeps the invariant of the state. It registers an interface exactly
/// while one is not registered, and gives an answer, or nothing, only once both
/// are. A registration flag that is set stays set.
pub proof fn lemma_registration_before_answers(state: HandlerState, monotonic: u128, system: u128)
    requires
        state.wf(),
    ensures
        ({
            let (after, event) = state.next_event(monotonic, system);
            &&& after.wf()
            &&& after.time_interface == state.time_interface
            &&& after.system_time_interface == state.system_time_interface
            &&& after.time_registered
            &&& state.system_time_registered ==> after.system_time_registered
            &&& (event matches NextEvent::Ready(NativeProgramEvent::Emit { .. }))
                <==> !state.registered()
            &&& !state.time_registered ==> event == NextEvent::Ready(
                NativeProgramEvent::Emit { register: state.time_interface },
            ) && !after.system_time_registered
            &&& state.time_registered && !state.system_time_registered ==> event
                == NextEvent::Ready(
                NativeProgramEvent::Emit { register: state.system_time_interface },
            ) && after.registered()
            &&& !state.registered() ==> after.messages == state.messages && after.timers
                == state.timers
        }),
{
    if state.registered() {
        lemma_serve_keeps_wf(state, monotonic, system);
    }
}

/// A clock request is answered with the clock value of the pass that looks at it:
/// the monotonic clock for the monotonic-time interface, the wall clock for the
/// system-time interface. So where the clock of a later pass reads no less than
/// that of an earlier pass, the later answer is no less than the earlier one.
pub proof fn lemma_clock_answers_non_decreasing(
    monotonic1: u128,
    system1: u128,
    monotonic2: u128,
    system2: u128,
)
    ensures
        reply_spec(Message::Time(TimeMessage::GetMonotonic), monotonic1, system1) == Some(
            Reply::Nanoseconds(monotonic1),
        ),
        reply_spec(Message::SystemTime(SystemTimeMessage::GetSystem), monotonic1, system1)
            == Some(Reply::Nanoseconds(system1)),
        monotonic1 <= monotonic2 ==> reply_spec(
            Message::Time(TimeMessage::GetMonotonic),
            monotonic1,
            system1,
        )->Some_0->Nanoseconds_0 <= reply_spec(
            Message::Time(TimeMessage::GetMonotonic),
            monotonic2,
            system2,
        )->Some_0->Nanoseconds_0,
        system1 <= system2 ==> reply_spec(
            Message::SystemTime(SystemTimeMessage::GetSystem),
            monotonic1,
            system1,
        )->Some_0->Nanoseconds_0 <= reply_spec(
            Message::SystemTime(SystemTimeMessage::GetSystem),
            monotonic2,
            system2,
        )->Some_0->Nanoseconds_0,
{
}

/// A wait whose deadline has come when the pass looks at it is answered with the
/// empty answer in that pass, and sets no timer: with no pending wait over and
/// the wait at the head of the queue, the pass takes it from the queue, answers
/// it, and leaves the pending waits as they were.
pub proof fn lemma_due_wait_answered_at_once(
    state: HandlerState,
    deadline: u128,
    message_id: MessageId,
    monotonic: u128,
    system: u128,
)
    requires
        !has_expired(state.timers, monotonic),
        state.messages.len() > 0,
        state.messages[0] == (Message::Time(TimeMessage::WaitMonotonic(deadline)), message_id),
        deadline <= monotonic,
    ensures
        state.serve(monotonic, system) == (
            HandlerState { messages: state.messages.drop_first(), ..state },
            NextEvent::Ready(NativeProgramEvent::Answer { message_id, answer: Reply::Unit }),
        ),
        timers_after(state.timers, state.messages[0].0, message_id, monotonic) == state.timers,
{
}

/// A wait whose deadline has not come gets no answer from the pass that looks at
/// it. Within reach, it becomes a timer with exactly the deadline that it names;
/// out of reach, it is dropped.
pub proof fn lemma_wait_becomes_timer(
    timers: Seq<Timer>,
    deadline: u128,
    message_id: MessageId,
    monotonic: u128,
    system: u128,
)
    requires
        deadline > monotonic,
    ensures
        reply_spec(Message::Time(TimeMessage::WaitMonotonic(deadline)), monotonic, system)
            is None,
        deadline - monotonic <= u64::MAX ==> timers_after(
            timers,
            Message::Time(TimeMessage::WaitMonotonic(deadline)),
            message_id,
            monotonic,
        ) == schedule(timers, Timer { deadline, message_id }),
        deadline - monotonic > u64::MAX ==> timers_after(
            timers,
            Message::Time(TimeMessage::WaitMonotonic(deadline)),
            message_id,
            monotonic,
        ) == timers,
{
}

/// A wait whose deadline has not come and is within reach is pending after the
/// pass that looks at it, with the deadline that it names: with no pending wait
/// over and the wait at the head of the queue, the pass leaves a timer for it.
pub proof fn lemma_wait_pending_after_pass(
    state: HandlerState,
    deadline: u128,
    message_id: MessageId,
    monotonic: u128,
    system: u128,
)
    requires
        state.wf(),
        !has_expired(state.timers, monotonic),
        state.messages.len() > 0,
        state.messages[0] == (Message::Time(TimeMessage::WaitMonotonic(deadline)), message_id),
        monotonic < deadline,
        deadline - monotonic <= u64::MAX,
    ensures
        state.serve(monotonic, system).0.timers.contains(Timer { deadline, message_id }),
{
    let timer = Timer { deadline, message_id };
    let message = state.messages[0].0;
    let later = timers_after(state.timers, message, message_id, monotonic);
    let next = HandlerState { messages: state.messages.drop_first(), timers: later, ..state };
    lemma_timers_after(state.timers, message, message_id, monotonic);
    lemma_insertion_index(state.timers, deadline);
    assert(later[insertion_index(state.timers, deadline) as int] == timer);
    assert(later.contains(timer));
    assert(!has_expired(later, monotonic)) by {
        if later.len() > 0 {
            assert(later.contains(later[0]));
            assert forall|other: Timer| state.timers.contains(other) implies other.deadline
                > monotonic by {
                let i = choose|i: int| 0 <= i < state.timers.len() && state.timers[i] == other;
                assert(state.timers[0].deadline <= state.timers[i].deadline);
            }
        }
    }
    lemma_no_timer_answered_early(next, monotonic, system);
    assert(state.serve(monotonic, system) == next.serve(monotonic, system));
    assert(next.timers.contains(timer));
}

/// A pending wait is answered when its deadline has come, earliest deadline
/// first: where the first pending wait is over, the pass answers it with the
/// empty answer, takes it out and touches nothing else; its deadline is not
/// after the clock value, and not after the deadline of any other pending wait.
pub proof fn lemma_timer_answered_when_due(state: HandlerState, monotonic: u128, system: u128)
    requires
        state.wf(),
        has_expired(state.timers, monotonic),
    ensures
        state.serve(monotonic, system) == (
            HandlerState { timers: state.timers.drop_first(), ..state },
            NextEvent::Ready(
                NativeProgramEvent::Answer {
                    message_id: state.timers[0].message_id,
                    answer: Reply::Unit,
                },
            ),
        ),
        state.timers[0].deadline <= monotonic,
        forall|i: int|
            0 <= i < state.timers.len() ==> state.timers[0].deadline
                <= #[trigger] state.timers[i].deadline,
{
}

/// A pending wait is not answered before its deadline: where the first pending
/// wait is not over, none is, and the pass keeps every pending wait pending.
/// The waits that are pending after the pass all have a deadline that has not
/// come.
pub proof fn lemma_no_timer_answered_early(state: HandlerState, monotonic: u128, system: u128)
    requires
        state.wf(),
        !has_expired(state.timers, monotonic),
    ensures
        forall|timer: Timer| #[trigger] state.timers.contains(timer) ==> timer.deadline > monotonic,
        forall|timer: Timer|
            state.timers.contains(timer) ==> #[trigger] state.serve(
                monotonic,
                system,
            ).0.timers.contains(timer),
        forall|timer: Timer|
            #[trigger] state.serve(monotonic, system).0.timers.contains(timer) ==> timer.deadline
                > monotonic,
    decreases state.messages.len(),
{
    assert forall|timer: Timer| #[trigger] state.timers.contains(timer) implies timer.deadline
        > monotonic by {
        let i = choose|i: int| 0 <= i < state.timers.len() && state.timers[i] == timer;
        assert(state.timers[0].deadline <= state.timers[i].deadline);
    }
    if state.messages.len() > 0 {
        let (message, message_id) = state.messages[0];
        if reply_spec(message, monotonic, system).is_none() {
            let later = timers_after(state.timers, message, message_id, monotonic);
            let next = HandlerState {
                messages: state.messages.drop_first(),
                timers: later,
                ..state
            };
            lemma_timers_after(state.timers, message, message_id, monotonic);
            assert(!has_expired(later, monotonic)) by {
                if later.len() > 0 {
                    assert(later.contains(later[0]));
                }
            }
            lemma_no_timer_answered_early(next, monotonic, system);
            let after = next.serve(monotonic, system).0;
            assert(state.serve(monotonic, system).0 == after);
            assert forall|timer: Timer| state.timers.contains(timer) implies after.timers.contains(
                timer,
            ) by {
                assert(later.contains(timer));
                assert(next.timers.contains(timer));
            }
            assert forall|timer: Timer| after.timers.contains(timer) implies timer.deadline
                > monotonic by {
                assert(next.serve(monotonic, system).0.timers.contains(timer));
            }
        }
    }
}

/// A malformed message leaves no trace: the driver is in the state in which it
/// would be had the message never been delivered, so every later event is the
/// same, and none answers the message.
pub proof fn lemma_malformed_leaves_no_trace(
    state: HandlerState,
    interface: InterfaceHash,
    message_id: Option<MessageId>,
    bytes: Seq<u8>,
)
    requires
        decode_spec(state.time_interface, interface, bytes) is None,
    ensures
        state.deliver(interface, message_id, bytes) == state,
{
}

/// A well-formed message joins the queue behind the requests that came before it
/// and changes nothing else; its identifier becomes outstanding once more.
pub proof fn lemma_delivery_queues(
    state: HandlerState,
    interface: InterfaceHash,
    message_id: MessageId,
    bytes: Seq<u8>,
)
    requires
        decode_spec(state.time_interface, interface, bytes) is Some,
    ensures
        state.deliver(interface, Some(message_id), bytes) == state.enqueue(
            decode_spec(state.time_interface, interface, bytes)->Some_0,
            message_id,
        ),
        outstanding(state.deliver(interface, Some(message_id), bytes)) == outstanding(
            state,
        ).insert(message_id),
{
    let message = decode_spec(state.time_interface, interface, bytes)->Some_0;
    lemma_queued_ids_push(state.messages, (message, message_id));
    assert(outstanding(state.enqueue(message, message_id)) =~= outstanding(state).insert(
        message_id,
    ));
}

/// Queuing a request adds its identifier to those of the queue.
pub proof fn lemma_queued_ids_push(messages: Seq<(Message, MessageId)>, entry: (Message, MessageId))
    ensures
        queued_ids(messages.push(entry)) == queued_ids(messages).insert(entry.1),
    decreases messages.len(),
{
    let longer = messages.push(entry);
    if messages.len() == 0 {
        assert(longer.drop_first() =~= messages);
        assert(queued_ids(longer) =~= queued_ids(messages).insert(entry.1));
    } else {
        assert(longer.drop_first() =~= messages.drop_first().push(entry));
        lemma_queued_ids_push(messages.drop_first(), entry);
        assert(queued_ids(longer) =~= queued_ids(messages).insert(entry.1));
    }
}

/// Putting a timer in, at any place, adds its identifier to those of the waits.
pub proof fn lemma_waiting_ids_insert(timers: Seq<Timer>, index: int, timer: Timer)
    requires
        0 <= index <= timers.len(),
    ensures
        waiting_ids(timers.insert(index, timer)) == waiting_ids(timers).insert(timer.message_id),
    decreases timers.len(),
{
    let longer = timers.insert(index, timer);
    if index == 0 {
        assert(longer.drop_first() =~= timers);
    } else {
        assert(longer.drop_first() =~= timers.drop_first().insert(index - 1, timer));
        lemma_waiting_ids_insert(timers.drop_first(), index - 1, timer);
        assert(waiting_ids(longer) =~= waiting_ids(timers).insert(timer.message_id));
    }
}

/// Every request is answered at most once. The message that a pass answers was
/// outstanding, and is outstanding once less after the pass; no other identifier
/// becomes outstanding more often than it was. A pass without an answer adds
/// nothing either.
pub proof fn lemma_answered_at_most_once(state: HandlerState, monotonic: u128, system: u128)
    ensures
        ({
            let (after, event) = state.serve(monotonic, system);
            match event {
                NextEvent::Ready(NativeProgramEvent::Answer { message_id, .. }) => {
                    &&& outstanding(state).count(message_id) >= 1
                    &&& outstanding(after).subset_of(outstanding(state).remove(message_id))
                },
                _ => outstanding(after).subset_of(outstanding(state)),
            }
        }),
    decreases state.messages.len(),
{
    let (after, event) = state.serve(monotonic, system);
    if has_expired(state.timers, monotonic) {
        let message_id = state.timers[0].message_id;
        assert(outstanding(after) =~= outstanding(state).remove(message_id));
    } else if state.messages.len() == 0 {
    } else {
        let (message, message_id) = state.messages[0];
        match reply_spec(message, monotonic, system) {
            Some(_) => {
                assert(outstanding(after) =~= outstanding(state).remove(message_id));
            },
            None => {
                let later = timers_after(state.timers, message, message_id, monotonic);
                let next = HandlerState {
                    messages: state.messages.drop_first(),
                    timers: later,
                    ..state
                };
                if later != state.timers {
                    let deadline = message->Time_0->WaitMonotonic_0;
                    lemma_insertion_index(state.timers, deadline);
                    lemma_waiting_ids_insert(
                        state.timers,
                        insertion_index(state.timers, deadline) as int,
                        Timer { deadline, message_id },
                    );
                    assert(outstanding(next) =~= outstanding(state));
                } else {
                    assert(outstanding(next).subset_of(outstanding(state)));
                }
                lemma_answered_at_most_once(next, monotonic, system);
                match event {
                    NextEvent::Ready(NativeProgramEvent::Answer { message_id: answered, .. }) => {
                        assert(outstanding(next).remove(answered).subset_of(
                            outstanding(state).remove(answered),
                        ));
                    },
                    _ => {},
                }
            },
        }
    }
}

} // verus!
