//! What holds of every connection, stated over the models that the contracts
//! of the library use.

use vstd::prelude::*;
use crate::error::failure_text;
use crate::error::Failure;
use crate::handshake::sniff_verdict;
use crate::policy::decision_for;
use crate::text::has_suffix;
use crate::policy::DecisionModel;
use crate::policy::PolicyModel;
use crate::record::be16;
use crate::record::header_verdict;
use crate::record::CONTENT_TYPE_HANDSHAKE;
use crate::session::give_up;
use crate::session::record_size;
use crate::session::routed;
use crate::session::step_model;
use crate::session::ActionModel;
use crate::session::EventModel;
use crate::session::StageModel;

verus! {

/// How far a connection has come.
pub open spec fn progress(stage: StageModel) -> int {
    match stage {
        StageModel::Start => 0,
        StageModel::AwaitHeader => 1,
        StageModel::AwaitHandshake { .. } => 2,
        StageModel::Resolving { .. } => 3,
        StageModel::Connecting => 4,
        StageModel::Relaying => 5,
        StageModel::Closed => 6,
    }
}

/// A record whose sniffed host name the policy admits is forwarded: the name
/// is resolved on the policy's port, the one outbound connection is opened
/// once it has an address, and the relay starts once that connection is open.
pub proof fn admitted_name_is_forwarded(
    policy: PolicyModel,
    version: u16,
    length: u16,
    buf: Seq<u8>,
    filled: usize,
    host: Seq<char>,
)
    requires
        filled == record_size(length),
        has_suffix(host, policy.allowed_suffix),
    ensures
        routed(policy, Ok(host)) == (
            StageModel::Resolving { host },
            ActionModel::Resolve { host, port: policy.port },
        ),
        sniff_verdict(buf, version) == Ok::<Seq<char>, Failure>(host) ==> step_model(
            policy,
            StageModel::AwaitHandshake { version, length },
            EventModel::Peeked { buf, filled },
        ) == (StageModel::Resolving { host }, ActionModel::Resolve { host, port: policy.port }),
        step_model(policy, StageModel::Resolving { host }, EventModel::Resolved) == (
            StageModel::Connecting,
            ActionModel::Connect,
        ),
        step_model(policy, StageModel::Connecting, EventModel::Connected) == (
            StageModel::Relaying,
            ActionModel::Relay,
        ),
{
}

/// A record whose sniffed host name the policy does not admit ends the
/// connection: nothing is resolved or connected, and the reported cause ends
/// with the offending name.
pub proof fn rejected_name_is_dropped(
    policy: PolicyModel,
    version: u16,
    length: u16,
    buf: Seq<u8>,
    filled: usize,
    host: Seq<char>,
)
    requires
        filled == record_size(length),
        !has_suffix(host, policy.allowed_suffix),
    ensures
        decision_for(policy, host) == (DecisionModel::Rejected {
            reason: Failure::Rejected { host },
        }),
        routed(policy, Ok(host)) == give_up(Failure::Rejected { host }),
        sniff_verdict(buf, version) == Ok::<Seq<char>, Failure>(host) ==> step_model(
            policy,
            StageModel::AwaitHandshake { version, length },
            EventModel::Peeked { buf, filled },
        ) == give_up(Failure::Rejected { host }),
        has_suffix(failure_text(Failure::Rejected { host }), host),
{
    let text = failure_text(Failure::Rejected { host });
    assert(text.subrange(text.len() - host.len(), text.len() as int) =~= host);
}

/// A name is resolved only if the policy admits it, on the policy's port, and
/// only when the whole record has been peeked.
pub proof fn resolve_only_admitted(policy: PolicyModel, stage: StageModel, event: EventModel)
    ensures
        match step_model(policy, stage, event).1 {
            ActionModel::Resolve { host, port } => {
                &&& has_suffix(host, policy.allowed_suffix)
                &&& port == policy.port
                &&& stage is AwaitHandshake
                &&& step_model(policy, stage, event).0 == (StageModel::Resolving { host })
            },
            _ => true,
        },
{
}

/// The outbound connection is asked for only when an admitted name has been
/// resolved, and the relay only when that connection is open.
pub proof fn connect_follows_resolution(policy: PolicyModel, stage: StageModel, event: EventModel)
    ensures
        step_model(policy, stage, event).1 == ActionModel::Connect ==> stage is Resolving && event
            == EventModel::Resolved,
        step_model(policy, stage, event).1 == ActionModel::Relay ==> stage == StageModel::Connecting
            && event == EventModel::Connected,
{
}

/// A connection only moves forward: every event takes it to a later stage,
/// until it is closed, and closed it stays, with nothing more to do. So no
/// stage is entered twice, and each action is asked for at most once.
pub proof fn stages_only_advance(policy: PolicyModel, stage: StageModel, event: EventModel)
    ensures
        stage != StageModel::Closed ==> progress(step_model(policy, stage, event).0) > progress(
            stage,
        ),
        stage == StageModel::Closed ==> step_model(policy, stage, event) == (
            StageModel::Closed,
            ActionModel::Finish,
        ),
{
}

/// A handshake record that declares a body above the ceiling is refused on its
/// header alone: whatever follows the five header bytes, the connection ends
/// without another peek.
pub proof fn oversized_handshake_is_refused(policy: PolicyModel, buf: Seq<u8>)
    requires
        buf.len() >= 5,
        buf[0] == CONTENT_TYPE_HANDSHAKE,
        be16(buf[3], buf[4]) > policy.max_handshake,
    ensures
        header_verdict(buf, policy.max_handshake) == Err::<crate::record::RecordHeader, Failure>(
            Failure::HandshakeTooLarge {
                size: be16(buf[3], buf[4]) as usize,
                max: policy.max_handshake,
            },
        ),
        step_model(policy, StageModel::AwaitHeader, EventModel::Peeked { buf, filled: 5 })
            == give_up(
            Failure::HandshakeTooLarge {
                size: be16(buf[3], buf[4]) as usize,
                max: policy.max_handshake,
            },
        ),
{
}

/// A first record that is not a handshake record is refused on its first
/// byte: the connection ends without another peek.
pub proof fn other_record_is_refused(policy: PolicyModel, buf: Seq<u8>)
    requires
        buf.len() >= 5,
        buf[0] != CONTENT_TYPE_HANDSHAKE,
    ensures
        header_verdict(buf, policy.max_handshake) == Err::<crate::record::RecordHeader, Failure>(
            Failure::NotHandshake,
        ),
        step_model(policy, StageModel::AwaitHeader, EventModel::Peeked { buf, filled: 5 })
            == give_up(Failure::NotHandshake),
{
}

/// The verdict on a header reads its first five bytes and nothing else.
pub proof fn header_verdict_reads_five_bytes(a: Seq<u8>, b: Seq<u8>, max_body: usize)
    requires
        a.len() >= 5,
        b.len() >= 5,
        a.subrange(0, 5) == b.subrange(0, 5),
    ensures
        header_verdict(a, max_body) == header_verdict(b, max_body),
{
    assert forall|i: int| 0 <= i < 5 implies a[i] == b[i] by {
        assert(a.subrange(0, 5)[i] == a[i]);
        assert(b.subrange(0, 5)[i] == b[i]);
    }
}

/// Routing depends on the policy and the sniffed name alone: a failure to
/// sniff ends the connection with that failure.
pub proof fn sniff_failure_is_final(policy: PolicyModel, error: Failure)
    ensures
        routed(policy, Err(error)) == give_up(error),
{
}

/// The actions that a connection at `stage` is asked for, one for each of the
/// reported `events`, in their order.
pub open spec fn actions_of(policy: PolicyModel, stage: StageModel, events: Seq<EventModel>) -> Seq<
    ActionModel,
>
    decreases events.len(),
{
    if events.len() == 0 {
        Seq::<ActionModel>::empty()
    } else {
        let first = step_model(policy, stage, events[0]);
        seq![first.1] + actions_of(policy, first.0, events.drop_first())
    }
}

/// Every event is answered by one action.
pub proof fn one_action_per_event(policy: PolicyModel, stage: StageModel, events: Seq<EventModel>)
    ensures
        actions_of(policy, stage, events).len() == events.len(),
    decreases events.len(),
{
    if events.len() > 0 {
        let first = step_model(policy, stage, events[0]);
        one_action_per_event(policy, first.0, events.drop_first());
    }
}

/// The action at a place behind the first is the action that the rest of the
/// events gets, one place earlier, from the stage after the first event.
proof fn later_action(policy: PolicyModel, stage: StageModel, events: Seq<EventModel>, i: int)
    requires
        0 < i < events.len(),
    ensures
        actions_of(policy, stage, events)[i] == actions_of(
            policy,
            step_model(policy, stage, events[0]).0,
            events.drop_first(),
        )[i - 1],
{
    let first = step_model(policy, stage, events[0]);
    one_action_per_event(policy, first.0, events.drop_first());
}

/// Once the outbound connection has been asked for, or the connection is
/// closed, no outbound connection is asked for any more.
pub proof fn no_connect_from_connecting_on(
    policy: PolicyModel,
    stage: StageModel,
    events: Seq<EventModel>,
    i: int,
)
    requires
        progress(stage) >= 4,
        0 <= i < events.len(),
    ensures
        actions_of(policy, stage, events)[i] != ActionModel::Connect,
    decreases events.len(),
{
    let first = step_model(policy, stage, events[0]);
    stages_only_advance(policy, stage, events[0]);
    if i > 0 {
        later_action(policy, stage, events, i);
        no_connect_from_connecting_on(policy, first.0, events.drop_first(), i - 1);
    }
}

/// A closed connection is asked for nothing but to finish, whatever is
/// reported: once a name has been rejected, or a record refused, nothing is
/// resolved, connected or relayed.
pub proof fn closed_connection_does_nothing(policy: PolicyModel, events: Seq<EventModel>, i: int)
    requires
        0 <= i < events.len(),
    ensures
        actions_of(policy, StageModel::Closed, events)[i] == ActionModel::Finish,
    decreases events.len(),
{
    if i > 0 {
        later_action(policy, StageModel::Closed, events, i);
        closed_connection_does_nothing(policy, events.drop_first(), i - 1);
    }
}

/// Whatever is reported, and from whatever stage, a connection is asked for
/// an outbound connection at most once.
pub proof fn one_outbound_connection(
    policy: PolicyModel,
    stage: StageModel,
    events: Seq<EventModel>,
    i: int,
    j: int,
)
    requires
        0 <= i < j < events.len(),
    ensures
        !(actions_of(policy, stage, events)[i] == ActionModel::Connect && actions_of(
            policy,
            stage,
            events,
        )[j] == ActionModel::Connect),
    decreases events.len(),
{
    let first = step_model(policy, stage, events[0]);
    let rest = events.drop_first();
    later_action(policy, stage, events, j);
    if i == 0 {
        if first.1 == ActionModel::Connect {
            no_connect_from_connecting_on(policy, first.0, rest, j - 1);
        }
    } else {
        later_action(policy, stage, events, i);
        one_outbound_connection(policy, first.0, rest, i - 1, j - 1);
    }
}

/// A connection that has not yet sniffed a name is asked for an outbound
/// connection only directly after it was asked to resolve a name that the
/// policy admits, on the policy's port.
pub proof fn connect_needs_admission(
    policy: PolicyModel,
    stage: StageModel,
    events: Seq<EventModel>,
    i: int,
)
    requires
        progress(stage) <= 2,
        0 <= i < events.len(),
        actions_of(policy, stage, events)[i] == ActionModel::Connect,
    ensures
        i >= 1,
        match actions_of(policy, stage, events)[i - 1] {
            ActionModel::Resolve { host, port } => has_suffix(host, policy.allowed_suffix) && port
                == policy.port,
            _ => false,
        },
    decreases events.len(),
{
    let first = step_model(policy, stage, events[0]);
    let rest = events.drop_first();
    connect_follows_resolution(policy, stage, events[0]);
    assert(i >= 1);
    later_action(policy, stage, events, i);
    if progress(first.0) <= 2 {
        connect_needs_admission(policy, first.0, rest, i - 1);
        later_action(policy, stage, events, i - 1);
    } else if progress(first.0) == 3 {
        resolve_only_admitted(policy, stage, events[0]);
        if i - 1 > 0 {
            let second = step_model(policy, first.0, rest[0]);
            stages_only_advance(policy, first.0, rest[0]);
            later_action(policy, first.0, rest, i - 1);
            no_connect_from_connecting_on(policy, second.0, rest.drop_first(), i - 2);
        }
    } else {
        no_connect_from_connecting_on(policy, first.0, rest, i - 1);
    }
}

} // verus!
