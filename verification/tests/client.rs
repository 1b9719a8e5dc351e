use async_std::channel::{unbounded, Receiver, Sender};
use buttplug::client::connector::{
    ButtplugClientConnectionStateShared, ButtplugClientConnectorError,
};
use buttplug::client::future::{
    ButtplugClientFuture, ButtplugClientFutureState, ButtplugClientFutureStateShared,
};
use buttplug::client::internal::{
    ButtplugClientInternalLoop, ButtplugInternalClientMessage, LoopAction, LoopStage, StreamReturn,
};
use std::sync::atomic::{AtomicUsize, Ordering};
use std::sync::{Arc, Mutex};
use std::task::{Wake, Waker};

struct Counter {
    woken: AtomicUsize,
}

impl Wake for Counter {
    fn wake(self: Arc<Self>) {
        self.woken.fetch_add(1, Ordering::SeqCst);
    }
}

fn counter() -> (Arc<Counter>, Waker) {
    let counter = Arc::new(Counter { woken: AtomicUsize::new(0) });
    let waker = Waker::from(counter.clone());
    (counter, waker)
}

fn woken(counter: &Arc<Counter>) -> usize {
    counter.woken.load(Ordering::SeqCst)
}

#[test]
fn reply_before_poll_is_delivered_once() {
    let (count, waker) = counter();
    let mut state = ButtplugClientFutureState::<String>::default();
    state.set_reply_msg(&"hello".to_string());
    assert_eq!(state.poll(&waker), Some("hello".to_string()));
    assert_eq!(state.poll(&waker), None);
    assert_eq!(woken(&count), 0);
}

#[test]
fn reply_wakes_the_waiting_task_once() {
    let (count, waker) = counter();
    let mut state = ButtplugClientFutureState::<u32>::default();
    assert_eq!(state.poll(&waker), None);
    assert_eq!(woken(&count), 0);
    state.set_reply_msg(&5);
    assert_eq!(woken(&count), 1);
    state.set_reply_msg(&6);
    assert_eq!(woken(&count), 1);
    assert_eq!(state.poll(&waker), Some(6));
}

#[test]
fn last_task_to_poll_is_woken() {
    let (first, first_waker) = counter();
    let (second, second_waker) = counter();
    let mut state = ButtplugClientFutureState::<u32>::default();
    assert_eq!(state.poll(&first_waker), None);
    assert_eq!(state.poll(&second_waker), None);
    state.set_reply_msg(&5);
    assert_eq!(woken(&first), 0);
    assert_eq!(woken(&second), 1);
}

#[test]
fn poll_that_finds_a_reply_keeps_no_waker() {
    let (count, waker) = counter();
    let mut state = ButtplugClientFutureState::<u32>::default();
    state.set_reply_msg(&1);
    assert_eq!(state.poll(&waker), Some(1));
    state.set_reply_msg(&2);
    assert_eq!(woken(&count), 0);
    assert_eq!(Arc::strong_count(&count), 2);
}

#[test]
fn clone_of_a_state_holds_the_same_reply() {
    let (_, waker) = counter();
    let mut state = ButtplugClientFutureState::<u32>::default();
    state.set_reply_msg(&9);
    let mut other = state.clone();
    assert_eq!(other.poll(&waker), Some(9));
    assert_eq!(state.poll(&waker), Some(9));
}

#[test]
fn state_clones_share_one_cell() {
    let (count, waker) = counter();
    let future = ButtplugClientFuture::<u32>::default();
    let one = future.get_state_clone();
    let other = future.get_state_clone();
    assert!(Arc::ptr_eq(&one, &other));
    assert_eq!(one.lock().unwrap().poll(&waker), None);
    other.lock().unwrap().set_reply_msg(&3);
    assert_eq!(woken(&count), 1);
    assert_eq!(one.lock().unwrap().poll(&waker), Some(3));
    assert_eq!(other.lock().unwrap().poll(&waker), None);
}

#[test]
fn connector_error_keeps_its_message() {
    let error = ButtplugClientConnectorError::new("no route");
    assert_eq!(error.message(), "no route");
    assert_eq!(error.clone().message(), "no route");
}

type Message = ButtplugInternalClientMessage<u8, &'static str>;
type Loop = ButtplugClientInternalLoop<u8, &'static str>;
type Return = StreamReturn<u8, &'static str>;

fn connection() -> ButtplugClientConnectionStateShared {
    ButtplugClientFuture::default().get_state_clone()
}

fn reply_cell() -> ButtplugClientFutureStateShared<&'static str> {
    Arc::new(Mutex::new(ButtplugClientFutureState::default()))
}

fn new_loop() -> (Loop, Sender<Message>, Receiver<&'static str>) {
    let (client_sender, client_receiver) = unbounded();
    let (event_sender, event_receiver) = unbounded();
    (Loop::new(event_sender, client_receiver), client_sender, event_receiver)
}

fn started_loop() -> Loop {
    let (mut event_loop, _, _) = new_loop();
    assert!(matches!(event_loop.start(), LoopAction::Receive));
    event_loop
}

fn connected_loop() -> Loop {
    let mut event_loop = started_loop();
    let asked = event_loop.wait_for_connector(Some(Message::Connect(4, connection())));
    assert!(matches!(asked, LoopAction::Connect));
    let answer = event_loop.connect_finished::<u8>(None);
    assert!(matches!(answer, LoopAction::Answer(_, None)));
    event_loop
}

#[test]
fn new_loop_uses_the_channels_that_it_was_given() {
    let (mut event_loop, client_sender, event_receiver) = new_loop();
    assert!(matches!(event_loop.stage(), LoopStage::Idle));
    assert!(event_loop.connector_mut().is_none());
    assert!(event_loop.connecting_mut().is_none());
    client_sender.try_send(Message::Disconnect).unwrap();
    assert!(matches!(event_loop.client_receiver().try_recv(), Ok(Message::Disconnect)));
    event_loop.event_sender().try_send("event").unwrap();
    assert_eq!(event_receiver.try_recv().unwrap(), "event");
}

#[test]
fn connection_is_answered_with_no_error() {
    let mut event_loop = started_loop();
    let cell = connection();
    let asked = event_loop.wait_for_connector(Some(Message::Connect(4, cell.clone())));
    assert!(matches!(asked, LoopAction::Connect));
    *event_loop.connecting_mut().unwrap() += 1;
    match event_loop.connect_finished::<u8>(None) {
        LoopAction::Answer(answered, reply) => {
            assert!(Arc::ptr_eq(&answered, &cell));
            assert!(reply.is_none());
        }
        _ => panic!("no answer"),
    }
    assert!(matches!(event_loop.stage(), LoopStage::Connected));
    assert_eq!(event_loop.connector_mut().copied(), Some(5));
    assert!(event_loop.connecting_mut().is_none());
}

#[test]
fn failed_connection_is_answered_with_an_error() {
    let (_, waker) = counter();
    let mut event_loop = started_loop();
    let cell = connection();
    event_loop.wait_for_connector(Some(Message::Connect(4, cell.clone())));
    let action = event_loop.connect_finished(Some("refused"));
    assert!(action.leaves_loop());
    match action {
        LoopAction::Answer(answered, reply) => answered.lock().unwrap().set_reply_msg(&reply),
        _ => panic!("no answer"),
    }
    let reply = cell.lock().unwrap().poll(&waker).unwrap();
    assert_eq!(reply.unwrap().message(), "Cannot connect to server.");
    assert!(matches!(event_loop.stage(), LoopStage::Idle));
    assert!(event_loop.connector_mut().is_none());
}

#[test]
fn failed_connection_leaves_the_next_request_unread() {
    let (_, waker) = counter();
    let (mut event_loop, client_sender, event_receiver) = new_loop();
    let first = connection();
    let second = connection();
    client_sender.try_send(Message::Connect(1, first.clone())).unwrap();
    client_sender.try_send(Message::Connect(2, second.clone())).unwrap();
    let mut action = event_loop.start();
    while !action.leaves_loop() {
        action = match action {
            LoopAction::Receive => {
                let received = event_loop.client_receiver().try_recv().ok();
                event_loop.wait_for_connector(received)
            }
            LoopAction::Connect => event_loop.connect_finished(Some("refused")),
            _ => panic!("not to be done"),
        };
    }
    match action {
        LoopAction::Answer(answered, reply) => answered.lock().unwrap().set_reply_msg(&reply),
        _ => panic!("no answer"),
    }
    let reply = first.lock().unwrap().poll(&waker).unwrap();
    assert_eq!(reply.unwrap().message(), "Cannot connect to server.");
    assert!(second.lock().unwrap().poll(&waker).is_none());
    assert!(matches!(event_loop.client_receiver().try_recv(), Ok(Message::Connect(2, _))));
    assert!(event_receiver.try_recv().is_err());
}

#[test]
fn each_request_to_connect_is_answered_in_its_own_cell() {
    let mut event_loop = started_loop();
    let first = connection();
    event_loop.wait_for_connector(Some(Message::Connect(4, first.clone())));
    match event_loop.connect_finished(Some("refused")) {
        LoopAction::Answer(answered, reply) => {
            assert!(Arc::ptr_eq(&answered, &first));
            assert!(reply.is_some());
        }
        _ => panic!("no answer"),
    }
    assert!(matches!(event_loop.start(), LoopAction::Receive));
    let second = connection();
    let again = event_loop.wait_for_connector(Some(Message::Connect(6, second.clone())));
    assert!(matches!(again, LoopAction::Connect));
    match event_loop.connect_finished::<u8>(None) {
        LoopAction::Answer(answered, reply) => {
            assert!(Arc::ptr_eq(&answered, &second));
            assert!(reply.is_none());
        }
        _ => panic!("no answer"),
    }
    assert!(matches!(event_loop.stage(), LoopStage::Connected));
    assert_eq!(event_loop.connector_mut().copied(), Some(6));
}

#[test]
fn anything_but_a_connector_leaves_a_new_loop() {
    let early = Message::Message(("early", reply_cell()));
    for received in vec![None, Some(Message::Disconnect), Some(early)] {
        let mut event_loop = started_loop();
        let action = event_loop.wait_for_connector(received);
        assert!(matches!(action, LoopAction::Exit));
        assert!(action.leaves_loop());
        assert!(matches!(event_loop.stage(), LoopStage::Idle));
        assert!(matches!(event_loop.start(), LoopAction::Receive));
        let request = Message::Connect(4, connection());
        assert!(matches!(event_loop.wait_for_connector(Some(request)), LoopAction::Connect));
    }
}

#[test]
fn loop_whose_run_was_dropped_can_be_run_again() {
    let mut connecting = started_loop();
    connecting.wait_for_connector(Some(Message::Connect(4, connection())));
    assert!(matches!(connecting.start(), LoopAction::Receive));
    assert!(connecting.connecting_mut().is_none());
    assert!(connecting.connector_mut().is_none());
    let mut relaying = connected_loop();
    assert!(matches!(relaying.start(), LoopAction::Receive));
    assert!(matches!(relaying.stage(), LoopStage::AwaitingConnect));
    assert_eq!(relaying.connector_mut().copied(), Some(4));
    relaying.wait_for_connector(Some(Message::Connect(6, connection())));
    assert!(!relaying.connect_finished::<u8>(None).leaves_loop());
    assert_eq!(relaying.connector_mut().copied(), Some(6));
}

#[test]
fn messages_are_relayed_both_ways() {
    let mut event_loop = connected_loop();
    let event = event_loop.event_loop(Return::from_connector(Some("from server")));
    assert!(matches!(event, LoopAction::SendEvent("from server")));
    let cell = reply_cell();
    let request = Message::Message(("to server", cell.clone()));
    match event_loop.event_loop(Return::from_client(Some(request))) {
        LoopAction::SendMessage(message, state) => {
            assert_eq!(message, "to server");
            assert!(Arc::ptr_eq(&state, &cell));
        }
        _ => panic!("not sent"),
    }
    assert!(matches!(event_loop.stage(), LoopStage::Connected));
}

#[test]
fn either_side_going_away_ends_the_loop() {
    let mut first = connected_loop();
    assert!(matches!(first.event_loop(Return::from_connector(None)), LoopAction::Exit));
    assert!(matches!(first.stage(), LoopStage::Exited));
    let mut second = connected_loop();
    assert!(matches!(second.event_loop(Return::from_client(None)), LoopAction::Exit));
    assert!(matches!(second.stage(), LoopStage::Exited));
}

#[test]
fn request_to_disconnect_goes_to_the_connector() {
    let mut event_loop = connected_loop();
    let request = Return::from_client(Some(Message::Disconnect));
    assert!(matches!(event_loop.event_loop(request), LoopAction::Disconnect));
    assert!(matches!(event_loop.stage(), LoopStage::Exited));
    assert_eq!(event_loop.connector_mut().copied(), Some(4));
    let again = Return::from_client(Some(Message::Disconnect));
    assert!(matches!(event_loop.event_loop(again), LoopAction::Exit));
}

#[test]
fn exited_loop_does_nothing_more() {
    let mut event_loop = connected_loop();
    event_loop.event_loop(Return::Disconnect);
    let late = event_loop.event_loop(Return::from_connector(Some("late")));
    assert!(matches!(late, LoopAction::Exit));
    let again = event_loop.wait_for_connector(Some(Message::Connect(4, connection())));
    assert!(matches!(again, LoopAction::Exit));
    assert!(matches!(event_loop.connect_finished::<u8>(None), LoopAction::Exit));
    assert!(matches!(event_loop.start(), LoopAction::Exit));
    assert!(matches!(event_loop.stage(), LoopStage::Exited));
}
