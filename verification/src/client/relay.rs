//! What holds of a client's internal loop over its whole life.

use crate::client::connector::{
    error_text, ButtplugClientConnectionStateShared, ButtplugClientConnectorError,
};
use crate::client::internal::{
    is_second_connect, ButtplugClientInternalLoop, ButtplugClientMessageStateShared,
    ButtplugInternalClientMessage, LoopAction, LoopActionView, LoopEvent, LoopStage, LoopView,
    StreamReturn,
};
use vstd::prelude::*;

verus! {

/// The loop after a sequence of events, and what was to be done on each.
pub open spec fn run<C, M>(start: LoopView<C>, events: Seq<LoopEvent<C, M>>) -> (
    LoopView<C>,
    Seq<LoopActionView<M>>,
)
    decreases events.len(),
{
    if events.len() == 0 {
        (start, Seq::empty())
    } else {
        let (before, actions) = run(start, events.drop_last());
        let (after, action) = before.next(events.last());
        (after, actions.push(action))
    }
}

/// A message that a connected loop passes on.
pub open spec fn is_relayed<C, M>(ret: StreamReturn<C, M>) -> bool {
    match ret {
        StreamReturn::ConnectorMessage(_) => true,
        StreamReturn::ClientMessage(msg) => msg is Message,
        StreamReturn::Disconnect => false,
    }
}

/// Where a connected loop passes a message on to.
pub open spec fn relayed<C, M>(ret: StreamReturn<C, M>) -> LoopActionView<M> {
    match ret {
        StreamReturn::ConnectorMessage(msg) => LoopActionView::SendEvent(msg),
        StreamReturn::ClientMessage(ButtplugInternalClientMessage::Message((msg, state))) =>
            LoopActionView::SendMessage(msg, state),
        _ => LoopActionView::Exit,
    }
}

/// What ends a connected loop: the client asks for it, or one side is gone.
pub open spec fn is_ending<C, M>(ret: StreamReturn<C, M>) -> bool {
    match ret {
        StreamReturn::ConnectorMessage(_) => false,
        StreamReturn::ClientMessage(msg) => msg is Disconnect,
        StreamReturn::Disconnect => true,
    }
}

/// Whatever happens to a loop, from a new one on, it has a connector in use while
/// it is connected.
pub proof fn law_connected_loop_has_a_connector<C, M>(
    start: LoopView<C>,
    events: Seq<LoopEvent<C, M>>,
)
    requires
        start.wf(),
    ensures
        LoopView::<C>::fresh().wf(),
        run(start, events).0.wf(),
    decreases events.len(),
{
    if events.len() > 0 {
        law_connected_loop_has_a_connector(start, events.drop_last());
    }
}

/// A loop that was not disconnected can be run, also again, and a run first waits
/// for a connector. One that was disconnected cannot.
pub proof fn law_loop_can_be_run_until_disconnected<C, M>(start: LoopView<C>)
    ensures
        ({
            let (after, action) = start.next(LoopEvent::<C, M>::Start);
            if start.stage is Exited {
                after == start && action == LoopActionView::<M>::Exit
            } else {
                after.stage is AwaitingConnect && after.connector == start.connector && action
                    == LoopActionView::<M>::Receive
            }
        }),
{
}

/// A loop is running for as long as no action says to leave it: on every event that
/// can come, the run is left exactly if the loop is then idle or disconnected. Once
/// it is left, nothing but a new run makes the loop do anything.
pub proof fn law_run_is_left_for_good<C, M>(
    start: LoopView<C>,
    event: LoopEvent<C, M>,
    later: LoopEvent<C, M>,
)
    requires
        start.admits(event),
    ensures
        ({
            let (after, action) = start.next(event);
            &&& action.leaves_loop() <==> after.stage is Idle || after.stage is Exited
            &&& action.leaves_loop() && !(later is Start) ==> after.next(later) == (
                after,
                LoopActionView::<M>::Exit,
            )
            &&& after.stage is Idle && after.admits(later) ==> later is Start
        }),
{
}

/// A loop that waits for a connector goes on to connect if the next thing that it
/// receives is a request to connect, and only then. On anything else, and on a
/// closed channel, the run is left and no connection cell is answered.
pub proof fn law_first_message_must_be_a_connector<C, M>(
    start: LoopView<C>,
    received: Option<ButtplugInternalClientMessage<C, M>>,
)
    requires
        start.stage is AwaitingConnect,
    ensures
        ({
            let (after, action) = start.next(LoopEvent::Received(received));
            match received {
                Some(ButtplugInternalClientMessage::Connect(connector, state)) => {
                    &&& after.stage == LoopStage::Connecting(connector, state)
                    &&& after.connector == start.connector
                    &&& action == LoopActionView::<M>::Connect
                },
                _ => {
                    &&& after == start.idle()
                    &&& action == LoopActionView::<M>::Exit
                },
            }
        }),
{
}

/// A request to connect is answered in the cell that came with it. If the
/// connector fails, the answer is an error and the run is left without taking
/// another request: nothing but a new run goes on from there. If it does not fail,
/// the answer is that there is no error, the run goes on, and the loop uses that
/// connector.
pub proof fn law_request_to_connect_is_answered<C, M>(
    start: LoopView<C>,
    connector: C,
    state: ButtplugClientConnectionStateShared,
    failed: bool,
)
    requires
        start.stage is AwaitingConnect,
    ensures
        ({
            let request = ButtplugInternalClientMessage::<C, M>::Connect(connector, state);
            let (asked, first) = start.next(LoopEvent::Received(Some(request)));
            let (after, answer) = asked.next(LoopEvent::<C, M>::ConnectFinished { failed });
            &&& first == LoopActionView::<M>::Connect
            &&& answer.leaves_loop() == failed
            &&& failed ==> answer == LoopActionView::<M>::Answer(
                state,
                Some("Cannot connect to server."@),
            ) && after == start.idle()
            &&& failed ==> forall|later: LoopEvent<C, M>| #[trigger]
                after.admits(later) ==> later is Start
            &&& !failed ==> answer == LoopActionView::<M>::Answer(state, None)
                && after.stage is Connected && after.connector == Some(connector)
        }),
{
}

/// What a new loop has done once it has a connector in use: told a client that it
/// is connected.
proof fn lemma_connected_was_answered<C, M>(events: Seq<LoopEvent<C, M>>)
    ensures
        ({
            let (after, actions) = run(LoopView::<C>::fresh(), events);
            &&& actions.len() == events.len()
            &&& after.connector is Some ==> exists|i: int|
                0 <= i < actions.len() && (#[trigger] actions[i] matches LoopActionView::Answer(
                    _,
                    reply,
                ) && reply is None)
        }),
    decreases events.len(),
{
    if events.len() > 0 {
        lemma_connected_was_answered(events.drop_last());
        let (before, earlier) = run(LoopView::<C>::fresh(), events.drop_last());
        let (after, actions) = run(LoopView::<C>::fresh(), events);
        assert forall|i: int| 0 <= i < earlier.len() implies actions[i] == #[trigger] earlier[i] by {}
        if after.connector is Some {
            if before.connector is Some {
                let i = choose|i: int|
                    0 <= i < earlier.len() && (#[trigger] earlier[i] matches LoopActionView::Answer(
                        _,
                        reply,
                    ) && reply is None);
                assert(actions[i] == earlier[i]);
            } else {
                assert(actions[actions.len() - 1] is Answer);
            }
        }
    }
}

/// A new loop has no connector in use until a client has been told that it is
/// connected.
pub proof fn law_no_connector_before_connecting<C, M>(events: Seq<LoopEvent<C, M>>)
    requires
        run(LoopView::<C>::fresh(), events).0.connector is Some,
    ensures
        exists|i: int|
            0 <= i < events.len() && (#[trigger] run(LoopView::<C>::fresh(), events).1[i] matches
                LoopActionView::Answer(_, reply) && reply is None),
{
    lemma_connected_was_answered(events);
}

/// Nothing is sent to either side until a client has been told that it is
/// connected.
pub proof fn law_nothing_is_sent_before_connecting<C, M>(
    events: Seq<LoopEvent<C, M>>,
    sent: int,
)
    requires
        0 <= sent < events.len(),
        ({
            let action = run(LoopView::<C>::fresh(), events).1[sent];
            action is SendEvent || action is SendMessage
        }),
    ensures
        exists|i: int|
            0 <= i < sent && (#[trigger] run(LoopView::<C>::fresh(), events).1[i] matches
                LoopActionView::Answer(_, reply) && reply is None),
    decreases events.len(),
{
    lemma_connected_was_answered(events);
    lemma_connected_was_answered(events.drop_last());
    let (before, earlier) = run(LoopView::<C>::fresh(), events.drop_last());
    let actions = run(LoopView::<C>::fresh(), events).1;
    if sent < events.len() - 1 {
        assert(actions[sent] == earlier[sent]);
        law_nothing_is_sent_before_connecting(events.drop_last(), sent);
        let i = choose|i: int|
            0 <= i < sent && (#[trigger] earlier[i] matches LoopActionView::Answer(_, reply)
                && reply is None);
        assert(actions[i] == earlier[i]);
    } else {
        law_connected_loop_has_a_connector(LoopView::<C>::fresh(), events.drop_last());
        assert(before.stage is Connected);
        let i = choose|i: int|
            0 <= i < earlier.len() && (#[trigger] earlier[i] matches LoopActionView::Answer(
                _,
                reply,
            ) && reply is None);
        assert(actions[i] == earlier[i]);
    }
}

/// What a run does on an event depends on the events up to it alone.
proof fn lemma_run_prefix<C, M>(start: LoopView<C>, events: Seq<LoopEvent<C, M>>, k: int)
    requires
        0 <= k <= events.len(),
    ensures
        run(start, events).1.len() == events.len(),
        run(start, events).1.take(k) == run(start, events.take(k)).1,
    decreases events.len(),
{
    let actions = run(start, events).1;
    if events.len() > 0 {
        let fewer = events.drop_last();
        let earlier = run(start, fewer).1;
        if k < events.len() {
            lemma_run_prefix(start, fewer, k);
            assert(fewer.take(k) =~= events.take(k));
            assert(actions.take(k) =~= earlier.take(k));
        } else {
            lemma_run_prefix(start, fewer, fewer.len() as int);
        }
    }
    if k == events.len() {
        assert(events.take(k) =~= events);
        assert(actions.take(k) =~= actions);
    }
}

/// An answer belongs to the request to connect that was taken just before it: that
/// request made the connector connect, and its cell is the one that is answered.
pub proof fn law_answer_belongs_to_the_request_before_it<C, M>(
    start: LoopView<C>,
    events: Seq<LoopEvent<C, M>>,
    answered: int,
)
    requires
        !(start.stage is Connecting),
        0 <= answered < events.len(),
        run(start, events).1[answered] is Answer,
    ensures
        answered > 0,
        run(start, events).1[answered - 1] is Connect,
        events[answered - 1] matches LoopEvent::Received(Some(request))
            && request matches ButtplugInternalClientMessage::Connect(_, state)
            && run(start, events).1[answered]->Answer_0 == state,
{
    let upto = events.take(answered + 1);
    let before = events.take(answered);
    let actions = run(start, events).1;
    lemma_run_prefix(start, events, answered + 1);
    assert(actions[answered] == actions.take(answered + 1)[answered]);
    assert(upto.drop_last() =~= before);
    lemma_run_prefix(start, before, answered);
    assert(run(start, before).0.stage is Connecting);
    assert(answered > 0);
    let earlier = events.take(answered - 1);
    assert(before.drop_last() =~= earlier);
    lemma_run_prefix(start, events, answered);
    assert(actions[answered - 1] == actions.take(answered)[answered - 1]);
    lemma_run_prefix(start, before, answered - 1);
}

/// Each request to connect is answered at most once: of two answers the later one
/// has a request of its own, which was taken after the earlier answer.
pub proof fn law_request_is_answered_at_most_once<C, M>(
    start: LoopView<C>,
    events: Seq<LoopEvent<C, M>>,
    earlier: int,
    later: int,
)
    requires
        !(start.stage is Connecting),
        0 <= earlier < later < events.len(),
        run(start, events).1[earlier] is Answer,
        run(start, events).1[later] is Answer,
    ensures
        earlier < later - 1,
        run(start, events).1[later - 1] is Connect,
        events[later - 1] matches LoopEvent::Received(Some(request))
            && request matches ButtplugInternalClientMessage::Connect(_, state)
            && run(start, events).1[later]->Answer_0 == state,
{
    law_answer_belongs_to_the_request_before_it(start, events, later);
}

/// A loop that is disconnected stays as it is, and does nothing more.
pub proof fn law_exited_loop_does_nothing<C, M>(
    start: LoopView<C>,
    events: Seq<LoopEvent<C, M>>,
)
    requires
        start.stage is Exited,
    ensures
        run(start, events).0 == start,
        run(start, events).1 == Seq::new(events.len(), |i: int| LoopActionView::<M>::Exit),
    decreases events.len(),
{
    if events.len() > 0 {
        law_exited_loop_does_nothing(start, events.drop_last());
    }
    assert(run(start, events).1 =~= Seq::new(
        events.len(),
        |i: int| LoopActionView::<M>::Exit,
    ));
}

/// A connected loop passes every message on, each once and in the order in which
/// they came: those of the server to the clients, those of clients to the
/// connector. It stays connected.
pub proof fn law_messages_are_relayed_in_order<C, M>(
    start: LoopView<C>,
    rets: Seq<StreamReturn<C, M>>,
)
    requires
        start.stage is Connected,
        forall|i: int| 0 <= i < rets.len() ==> is_relayed(#[trigger] rets[i]),
    ensures
        ({
            let events = Seq::new(rets.len(), |i: int| LoopEvent::Stream(rets[i]));
            run(start, events) == (start, Seq::new(rets.len(), |i: int| relayed(rets[i])))
        }),
    decreases rets.len(),
{
    let events = Seq::new(rets.len(), |i: int| LoopEvent::Stream(rets[i]));
    let actions = Seq::new(rets.len(), |i: int| relayed(rets[i]));
    if rets.len() > 0 {
        let fewer = rets.drop_last();
        law_messages_are_relayed_in_order(start, fewer);
        assert(events.drop_last() =~= Seq::new(
            fewer.len(),
            |i: int| LoopEvent::Stream(fewer[i]),
        ));
        assert(is_relayed(rets[rets.len() - 1]));
    }
    assert(run(start, events).1 =~= actions);
}

/// A connected loop is over as soon as a client asks to disconnect or either side
/// is gone, and only then: any other event that it admits leaves it connected. A
/// client's request is carried out by the connector, which the loop still has; where
/// a side is gone nothing more is done.
pub proof fn law_connected_loop_ends_on_disconnect<C, M>(
    start: LoopView<C>,
    ret: StreamReturn<C, M>,
)
    requires
        start.wf(),
        start.stage is Connected,
        start.admits(LoopEvent::Stream(ret)),
    ensures
        ({
            let (after, action) = start.next(LoopEvent::Stream(ret));
            &&& is_ending(ret) ==> after == start.exited() && after.connector is Some
            &&& is_ending(ret) ==> action == (if ret is ClientMessage {
                LoopActionView::<M>::Disconnect
            } else {
                LoopActionView::<M>::Exit
            })
            &&& !is_ending(ret) ==> after == start && action == relayed(ret)
        }),
{
}

/// A new loop is not running and has no connector.
pub proof fn law_new_loop_is_idle<C>()
    ensures
        LoopView::<C>::fresh().stage is Idle,
        LoopView::<C>::fresh().connector is None,
{
}

/// A loop that is left, for now or for good, keeps the connector that it had.
pub proof fn law_left_loop_keeps_its_connector<C>(start: LoopView<C>)
    ensures
        start.idle().stage is Idle,
        start.idle().connector == start.connector,
        start.exited().stage is Exited,
        start.exited().connector == start.connector,
        start.wf() <==> !(start.stage is Connected && start.connector is None),
{
}

/// Any loop can be started. Beyond that, one that waits for a connector takes
/// whatever the client's channel gives, one that connects takes either outcome, and
/// one that is connected takes whatever comes but a request to connect. One that is
/// not running takes nothing, and one that is disconnected ignores everything.
pub proof fn law_what_a_loop_takes<C, M>(
    start: LoopView<C>,
    received: Option<ButtplugInternalClientMessage<C, M>>,
    failed: bool,
    msg: M,
    state: ButtplugClientMessageStateShared<M>,
    connector: C,
    connection: ButtplugClientConnectionStateShared,
)
    ensures
        start.admits(LoopEvent::<C, M>::Start),
        start.admits(LoopEvent::Received(received)) <==> start.stage is AwaitingConnect
            || start.stage is Exited,
        start.admits(LoopEvent::<C, M>::ConnectFinished { failed }) <==> start.stage is Connecting
            || start.stage is Exited,
        start.admits(LoopEvent::Stream(StreamReturn::<C, M>::ConnectorMessage(msg)))
            <==> start.stage is Connected || start.stage is Exited,
        start.admits(LoopEvent::Stream(StreamReturn::<C, M>::Disconnect))
            <==> start.stage is Connected || start.stage is Exited,
        start.admits(
            LoopEvent::Stream(
                StreamReturn::<C, M>::ClientMessage(ButtplugInternalClientMessage::Disconnect),
            ),
        ) <==> start.stage is Connected || start.stage is Exited,
        start.admits(
            LoopEvent::Stream(
                StreamReturn::<C, M>::ClientMessage(
                    ButtplugInternalClientMessage::Message((msg, state)),
                ),
            ),
        ) <==> start.stage is Connected || start.stage is Exited,
        start.admits(
            LoopEvent::Stream(
                StreamReturn::<C, M>::ClientMessage(
                    ButtplugInternalClientMessage::Connect(connector, connection),
                ),
            ),
        ) <==> start.stage is Exited,
{
}

/// What comes in while a loop is connected goes to the other side as it is: a
/// message of the server is what the clients are sent, a message of a client is what
/// the connector is sent, with the cell that came with it.
pub proof fn law_message_reaches_the_other_side<C, M>(
    start: LoopView<C>,
    msg: M,
    state: ButtplugClientMessageStateShared<M>,
)
    requires
        start.stage is Connected,
    ensures
        start.next(LoopEvent::Stream(StreamReturn::<C, M>::ConnectorMessage(msg))) == (
            start,
            LoopActionView::SendEvent(msg),
        ),
        start.next(
            LoopEvent::Stream(
                StreamReturn::<C, M>::ClientMessage(
                    ButtplugInternalClientMessage::Message((msg, state)),
                ),
            ),
        ) == (start, LoopActionView::SendMessage(msg, state)),
{
}

/// A connected loop is over when the client asks to disconnect, which the connector
/// is to do, and when a side is gone, on which nothing is done. It keeps the
/// connector.
pub proof fn law_disconnecting_is_final<C, M>(start: LoopView<C>, later: LoopEvent<C, M>)
    requires
        start.stage is Connected,
    ensures
        ({
            let asked = start.next(
                LoopEvent::Stream(
                    StreamReturn::<C, M>::ClientMessage(ButtplugInternalClientMessage::Disconnect),
                ),
            );
            let gone = start.next(LoopEvent::Stream(StreamReturn::<C, M>::Disconnect));
            &&& asked.1 == LoopActionView::<M>::Disconnect
            &&& gone.1 == LoopActionView::<M>::Exit
            &&& asked.0.stage is Exited && asked.0.connector == start.connector
            &&& gone.0 == asked.0
            &&& asked.0.next(later) == (asked.0, LoopActionView::<M>::Exit)
        }),
{
}

/// A run that fails to connect, or does not get to, leaves the loop as a new start
/// finds it: the run after it behaves as if there had been none before.
pub proof fn law_failed_run_leaves_no_trace<C, M>(
    start: LoopView<C>,
    received: Option<ButtplugInternalClientMessage<C, M>>,
)
    requires
        start.stage is Idle,
    ensures
        ({
            let waiting = start.next(LoopEvent::<C, M>::Start).0;
            let took = waiting.next(LoopEvent::Received(received)).0;
            let failed = took.next(LoopEvent::<C, M>::ConnectFinished { failed: true }).0;
            let connects = received is Some && received->0 is Connect;
            &&& connects ==> failed == start
            &&& !connects ==> took == start
        }),
{
}

/// The actions after which a run is left are those that say so: to disconnect, to
/// exit, and to answer a client with an error, whichever error it is.
pub proof fn law_actions_that_leave<M>(
    cell: ButtplugClientConnectionStateShared,
    error: Seq<char>,
    msg: M,
    state: ButtplugClientMessageStateShared<M>,
)
    ensures
        LoopActionView::<M>::Exit.leaves_loop(),
        LoopActionView::<M>::Disconnect.leaves_loop(),
        LoopActionView::<M>::Answer(cell, Some(error)).leaves_loop(),
        !LoopActionView::<M>::Answer(cell, None).leaves_loop(),
        !LoopActionView::<M>::Receive.leaves_loop(),
        !LoopActionView::<M>::Connect.leaves_loop(),
        !LoopActionView::<M>::SendEvent(msg).leaves_loop(),
        !LoopActionView::<M>::SendMessage(msg, state).leaves_loop(),
{
}

/// An action and its view are of one kind and carry the same: message, cell, and
/// the text of the error.
pub proof fn law_action_is_as_viewed<M>(action: LoopAction<M>)
    ensures
        action is Receive <==> action@ is Receive,
        action is Connect <==> action@ is Connect,
        action is Disconnect <==> action@ is Disconnect,
        action is Exit <==> action@ is Exit,
        action is Answer <==> action@ is Answer,
        action is SendEvent <==> action@ is SendEvent,
        action is SendMessage <==> action@ is SendMessage,
        action matches LoopAction::SendEvent(msg) ==> action@ == LoopActionView::SendEvent(msg),
        action matches LoopAction::SendMessage(msg, state) ==> action@
            == LoopActionView::SendMessage(msg, state),
        action matches LoopAction::Answer(cell, None) ==> action@ == LoopActionView::<M>::Answer(
            cell,
            None,
        ),
        action matches LoopAction::Answer(cell, Some(error)) ==> action@
            == LoopActionView::<M>::Answer(cell, Some(error@)),
{
}

/// The text of an error is there exactly if the error is, and is its message.
pub proof fn law_text_of_an_error(error: Option<ButtplugClientConnectorError>)
    ensures
        error_text(error) is Some <==> error is Some,
        error is Some ==> error_text(error)->0 == error->0@,
{
}

/// Two loops have the same channels exactly if clients reach them by the same one
/// and are reached by the same one.
pub proof fn law_same_channels<C, M>(
    one: ButtplugClientInternalLoop<C, M>,
    other: ButtplugClientInternalLoop<C, M>,
)
    ensures
        one.same_channels(other) <==> one.receiver() == other.receiver() && one.sender()
            == other.sender(),
{
}

/// Everything that a connected loop listens to is one of three: passed on, an end,
/// or a second request to connect. Messages are passed on, each to the other side;
/// a request to disconnect and a side that is gone are an end.
pub proof fn law_what_is_listened_to<C, M>(
    msg: M,
    state: ButtplugClientMessageStateShared<M>,
    connector: C,
    connection: ButtplugClientConnectionStateShared,
)
    ensures
        ({
            let event = StreamReturn::<C, M>::ConnectorMessage(msg);
            let message = StreamReturn::<C, M>::ClientMessage(
                ButtplugInternalClientMessage::Message((msg, state)),
            );
            let request = StreamReturn::<C, M>::ClientMessage(
                ButtplugInternalClientMessage::Disconnect,
            );
            let second = StreamReturn::<C, M>::ClientMessage(
                ButtplugInternalClientMessage::Connect(connector, connection),
            );
            let gone = StreamReturn::<C, M>::Disconnect;
            &&& is_relayed(event) && !is_ending(event) && !is_second_connect(event)
            &&& is_relayed(message) && !is_ending(message) && !is_second_connect(message)
            &&& !is_relayed(request) && is_ending(request) && !is_second_connect(request)
            &&& !is_relayed(gone) && is_ending(gone) && !is_second_connect(gone)
            &&& !is_relayed(second) && !is_ending(second) && is_second_connect(second)
            &&& relayed(event) == LoopActionView::SendEvent(msg)
            &&& relayed(message) == LoopActionView::SendMessage(msg, state)
        }),
{
}

/// A run takes its events one by one, each at the state that those before it left.
pub proof fn law_run_takes_events_one_by_one<C, M>(
    start: LoopView<C>,
    events: Seq<LoopEvent<C, M>>,
    event: LoopEvent<C, M>,
)
    ensures
        run(start, Seq::<LoopEvent<C, M>>::empty()).0 == start,
        run(start, events).1.len() == events.len(),
        run(start, events.push(event)).0 == run(start, events).0.next(event).0,
        run(start, events.push(event)).1 == run(start, events).1.push(
            run(start, events).0.next(event).1,
        ),
{
    lemma_run_prefix(start, events, 0);
    assert(events.push(event).drop_last() =~= events);
}

} // verus!
