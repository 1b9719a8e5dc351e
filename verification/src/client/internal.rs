//! The decisions of the client's internal loop.
//!
//! The loop stands between a client and the connector that talks to the server. A
//! run of it waits for a request to connect, then relays messages both ways until
//! either side goes away. A run that does not come to be connected is left, and the
//! loop can be run again. What it waits for and what it sends is asynchronous work of its
//! caller; here stands what is to be done on each thing that comes in.

use crate::client::connector::{
    error_text, ButtplugClientConnectionStateShared, ButtplugClientConnectorError,
};
use crate::client::future::{
    ButtplugClientFuture, ButtplugClientFutureState, ButtplugClientFutureStateShared,
};
use async_std::channel::Receiver;
use async_std::channel::Sender;
use vstd::prelude::*;

verus! {

/// The cell for the reply to a message.
pub type ButtplugClientMessageState<M> = ButtplugClientFutureState<M>;

/// A cell for the reply to a message, shared.
pub type ButtplugClientMessageStateShared<M> = ButtplugClientFutureStateShared<M>;

/// The future for the reply to a message.
pub type ButtplugClientMessageFuture<M> = ButtplugClientFuture<M>;

/// Communication from the client to the internal loop. `C` is the type of
/// connectors, `M` that of messages.
#[verifier::reject_recursive_types(M)]
pub enum ButtplugInternalClientMessage<C, M> {
    /// Client request to connect, via the connector. The cell is answered once it
    /// is known how that went.
    Connect(C, ButtplugClientConnectionStateShared),
    /// Client request to disconnect, via the connector that was sent earlier.
    Disconnect,
    /// Client request to send a message via the connector. The cell is for the
    /// reply.
    Message((M, ButtplugClientMessageStateShared<M>)),
}

/// What the loop gets when it listens to the connector and the client at once.
#[verifier::reject_recursive_types(M)]
pub enum StreamReturn<C, M> {
    /// The connector has a message from the server.
    ConnectorMessage(M),
    /// The client has a request.
    ClientMessage(ButtplugInternalClientMessage<C, M>),
    /// One of the two is gone.
    Disconnect,
}

impl<C, M> StreamReturn<C, M> {
    /// What the client's channel gave: a request, or nothing once it is closed.
    pub fn from_client(received: Option<ButtplugInternalClientMessage<C, M>>) -> (ret: Self)
        ensures
            ret == (match received {
                Some(msg) => StreamReturn::ClientMessage(msg),
                None => StreamReturn::Disconnect,
            }),
    {
        match received {
            None => StreamReturn::Disconnect,
            Some(msg) => StreamReturn::ClientMessage(msg),
        }
    }

    /// What the connector's channel gave: a message, or nothing once it is closed.
    pub fn from_connector(received: Option<M>) -> (ret: Self)
        ensures
            ret == (match received {
                Some(msg) => StreamReturn::<C, M>::ConnectorMessage(msg),
                None => StreamReturn::<C, M>::Disconnect,
            }),
    {
        match received {
            None => StreamReturn::Disconnect,
            Some(msg) => StreamReturn::ConnectorMessage(msg),
        }
    }
}

/// How far a loop has come.
pub enum LoopStage<C> {
    /// Not running.
    Idle,
    /// Waiting for the client's request to connect.
    AwaitingConnect,
    /// The connector is at work on the connection. The cell is to be answered.
    Connecting(C, ButtplugClientConnectionStateShared),
    /// Relaying messages.
    Connected,
    /// Disconnected. A loop does not start again from here.
    Exited,
}

/// What the caller of the loop has to do next.
#[verifier::reject_recursive_types(M)]
pub enum LoopAction<M> {
    /// Take what the client's channel gives next.
    Receive,
    /// Have the connector that came with the request connect.
    Connect,
    /// Set this reply in the client's connection cell. If it is an error, then leave
    /// the loop.
    Answer(ButtplugClientConnectionStateShared, Option<ButtplugClientConnectorError>),
    /// Send this message of the server to the clients.
    SendEvent(M),
    /// Send this message through the connector, which will set the reply.
    SendMessage(M, ButtplugClientMessageStateShared<M>),
    /// Have the connector in use disconnect, then leave the loop.
    Disconnect,
    /// Leave the loop.
    Exit,
}

/// [`LoopAction`] with the text of an error in place of the error.
#[verifier::reject_recursive_types(M)]
pub ghost enum LoopActionView<M> {
    Receive,
    Connect,
    Answer(ButtplugClientConnectionStateShared, Option<Seq<char>>),
    SendEvent(M),
    SendMessage(M, ButtplugClientMessageStateShared<M>),
    Disconnect,
    Exit,
}

impl<M> LoopActionView<M> {
    /// Once this is done, the run is left: nothing more is taken in or sent.
    pub open spec fn leaves_loop(self) -> bool {
        match self {
            LoopActionView::Answer(_, reply) => reply is Some,
            LoopActionView::Disconnect | LoopActionView::Exit => true,
            _ => false,
        }
    }
}

impl<M> View for LoopAction<M> {
    type V = LoopActionView<M>;

    open spec fn view(&self) -> LoopActionView<M> {
        match *self {
            LoopAction::Receive => LoopActionView::Receive,
            LoopAction::Connect => LoopActionView::Connect,
            LoopAction::Answer(state, reply) => LoopActionView::Answer(
                state,
                error_text(reply),
            ),
            LoopAction::SendEvent(msg) => LoopActionView::SendEvent(msg),
            LoopAction::SendMessage(msg, state) => LoopActionView::SendMessage(msg, state),
            LoopAction::Disconnect => LoopActionView::Disconnect,
            LoopAction::Exit => LoopActionView::Exit,
        }
    }
}

impl<M> LoopAction<M> {
    /// Whether the run is left once this is done.
    pub fn leaves_loop(&self) -> (leaves: bool)
        ensures
            leaves == self@.leaves_loop(),
    {
        match self {
            LoopAction::Answer(_, reply) => reply.is_some(),
            LoopAction::Disconnect => true,
            LoopAction::Exit => true,
            _ => false,
        }
    }
}

/// What can happen to a loop.
#[verifier::reject_recursive_types(M)]
pub ghost enum LoopEvent<C, M> {
    /// The loop is run.
    Start,
    /// The client's channel gave this to a loop that waits for a connector.
    Received(Option<ButtplugInternalClientMessage<C, M>>),
    /// The connector is done connecting; `failed` tells how.
    ConnectFinished { failed: bool },
    /// Client and connector were listened to, and gave this.
    Stream(StreamReturn<C, M>),
}

/// The state of a loop.
pub ghost struct LoopView<C> {
    pub stage: LoopStage<C>,
    /// The connector in use.
    pub connector: Option<C>,
}

impl<C> LoopView<C> {
    /// A loop that has just been made.
    pub open spec fn fresh() -> Self {
        LoopView { stage: LoopStage::Idle, connector: None }
    }

    /// While it is connected a loop has a connector in use.
    pub open spec fn wf(self) -> bool {
        self.stage is Connected ==> self.connector is Some
    }

    /// The loop when it is not running.
    pub open spec fn idle(self) -> Self {
        LoopView { stage: LoopStage::Idle, ..self }
    }

    /// The loop when it is disconnected.
    pub open spec fn exited(self) -> Self {
        LoopView { stage: LoopStage::Exited, ..self }
    }

    /// The events that can come at this stage. A loop can be run at any time, also
    /// when an earlier run was dropped halfway. While it is connected, a second
    /// request to connect is not among them.
    pub open spec fn admits<M>(self, event: LoopEvent<C, M>) -> bool {
        event is Start || match self.stage {
            LoopStage::Idle => false,
            LoopStage::AwaitingConnect => event is Received,
            LoopStage::Connecting(_, _) => event is ConnectFinished,
            LoopStage::Connected => event matches LoopEvent::Stream(ret) && !is_second_connect(ret),
            LoopStage::Exited => true,
        }
    }

    /// The loop after `event`, and what is to be done.
    pub open spec fn next<M>(self, event: LoopEvent<C, M>) -> (Self, LoopActionView<M>) {
        match (self.stage, event) {
            (LoopStage::Exited, _) => (self, LoopActionView::Exit),
            (_, LoopEvent::Start) => (
                LoopView { stage: LoopStage::AwaitingConnect, ..self },
                LoopActionView::Receive,
            ),
            (LoopStage::Idle, _) => (self, LoopActionView::Exit),
            (
                LoopStage::AwaitingConnect,
                LoopEvent::Received(
                    Some(ButtplugInternalClientMessage::Connect(connector, state)),
                ),
            ) => (
                LoopView { stage: LoopStage::Connecting(connector, state), ..self },
                LoopActionView::Connect,
            ),
            (LoopStage::AwaitingConnect, LoopEvent::Received(_)) => (
                self.idle(),
                LoopActionView::Exit,
            ),
            (
                LoopStage::Connecting(connector, state),
                LoopEvent::ConnectFinished { failed },
            ) => if failed {
                (
                    self.idle(),
                    LoopActionView::Answer(state, Some("Cannot connect to server."@)),
                )
            } else {
                (
                    LoopView { stage: LoopStage::Connected, connector: Some(connector) },
                    LoopActionView::Answer(state, None),
                )
            },
            (LoopStage::Connected, LoopEvent::Stream(StreamReturn::ConnectorMessage(msg))) => (
                self,
                LoopActionView::SendEvent(msg),
            ),
            (
                LoopStage::Connected,
                LoopEvent::Stream(
                    StreamReturn::ClientMessage(
                        ButtplugInternalClientMessage::Message((msg, state)),
                    ),
                ),
            ) => (self, LoopActionView::SendMessage(msg, state)),
            (
                LoopStage::Connected,
                LoopEvent::Stream(
                    StreamReturn::ClientMessage(ButtplugInternalClientMessage::Disconnect),
                ),
            ) => (self.exited(), LoopActionView::Disconnect),
            _ => (self.exited(), LoopActionView::Exit),
        }
    }
}

/// A request to connect, among what a connected loop listens to.
pub open spec fn is_second_connect<C, M>(ret: StreamReturn<C, M>) -> bool {
    ret matches StreamReturn::ClientMessage(msg) && msg is Connect
}

/// The internal loop of a client.
///
/// Made whenever a client is made. The loop handles connection and communication
/// with the server, and passes on what the server sends. Several loops can run
/// side by side, each with a server of its own.
#[verifier::reject_recursive_types(C)]
#[verifier::reject_recursive_types(M)]
pub struct ButtplugClientInternalLoop<C, M> {
    /// Handles communication with the server.
    connector: Option<C>,
    /// Requests from clients.
    client_receiver: Receiver<ButtplugInternalClientMessage<C, M>>,
    /// Messages of the server, for clients.
    event_sender: Sender<M>,
    stage: LoopStage<C>,
}

impl<C, M> View for ButtplugClientInternalLoop<C, M> {
    type V = LoopView<C>;

    closed spec fn view(&self) -> LoopView<C> {
        LoopView { stage: self.stage, connector: self.connector }
    }
}

impl<C, M> ButtplugClientInternalLoop<C, M> {
    /// The channel on which clients make their requests.
    pub closed spec fn receiver(self) -> Receiver<ButtplugInternalClientMessage<C, M>> {
        self.client_receiver
    }

    /// The channel on which clients are told what the server sends.
    pub closed spec fn sender(self) -> Sender<M> {
        self.event_sender
    }

    /// Same channels as another loop.
    pub open spec fn same_channels(self, other: Self) -> bool {
        self.receiver() == other.receiver() && self.sender() == other.sender()
    }

    /// Returns a new loop, which is not running yet.
    ///
    /// - `event_sender`: used when sending what the server sends to clients.
    /// - `client_receiver`: used when receiving requests of clients.
    pub fn new(
        event_sender: Sender<M>,
        client_receiver: Receiver<ButtplugInternalClientMessage<C, M>>,
    ) -> (made: Self)
        ensures
            made@ == LoopView::<C>::fresh(),
            made.sender() == event_sender,
            made.receiver() == client_receiver,
    {
        ButtplugClientInternalLoop {
            connector: None,
            client_receiver,
            event_sender,
            stage: LoopStage::Idle,
        }
    }

    /// Starts a run, which first waits for a request to connect. A loop that was
    /// disconnected is not run again.
    pub fn start(&mut self) -> (action: LoopAction<M>)
        ensures
            (final(self)@, action@) == old(self)@.next(LoopEvent::<C, M>::Start),
            final(self).same_channels(*old(self)),
    {
        match self.stage {
            LoopStage::Exited => LoopAction::Exit,
            _ => {
                self.stage = LoopStage::AwaitingConnect;
                LoopAction::Receive
            },
        }
    }

    /// Takes what the client's channel gave while the loop waits for a connector.
    ///
    /// Only a request to connect goes on, to [`LoopAction::Connect`]. On anything
    /// else, and on a closed channel, the run is left; the loop can be run again.
    pub fn wait_for_connector(
        &mut self,
        received: Option<ButtplugInternalClientMessage<C, M>>,
    ) -> (action: LoopAction<M>)
        requires
            old(self)@.admits(LoopEvent::Received(received)),
        ensures
            (final(self)@, action@) == old(self)@.next(LoopEvent::Received(received)),
            final(self).same_channels(*old(self)),
    {
        match self.stage {
            LoopStage::AwaitingConnect => match received {
                Some(ButtplugInternalClientMessage::Connect(connector, state)) => {
                    self.stage = LoopStage::Connecting(connector, state);
                    LoopAction::Connect
                },
                _ => {
                    self.stage = LoopStage::Idle;
                    LoopAction::Exit
                },
            },
            _ => LoopAction::Exit,
        }
    }

    /// Takes the outcome of connecting: the connector's error, or `None` if it is
    /// connected.
    ///
    /// The client's connection cell is answered either way. On an error the
    /// connector is dropped and the run is left, without waiting for another request
    /// to connect; the loop can be run again. Otherwise the connector is the one in
    /// use from here on, and messages can be relayed.
    pub fn connect_finished<E>(&mut self, failure: Option<E>) -> (action: LoopAction<M>)
        requires
            old(self)@.admits(LoopEvent::<C, M>::ConnectFinished { failed: failure is Some }),
        ensures
            (final(self)@, action@) == old(self)@.next(
                LoopEvent::<C, M>::ConnectFinished { failed: failure is Some },
            ),
            final(self).same_channels(*old(self)),
    {
        let mut stage = LoopStage::Exited;
        core::mem::swap(&mut self.stage, &mut stage);
        match stage {
            LoopStage::Connecting(connector, state) => match failure {
                Some(_) => {
                    let error = ButtplugClientConnectorError::new("Cannot connect to server.");
                    self.stage = LoopStage::Idle;
                    LoopAction::Answer(state, Some(error))
                },
                None => {
                    self.connector = Some(connector);
                    self.stage = LoopStage::Connected;
                    LoopAction::Answer(state, None)
                },
            },
            _ => LoopAction::Exit,
        }
    }

    /// One turn of the event loop: takes what client and connector gave and says
    /// where it goes.
    ///
    /// What the server sends goes to the clients, what a client sends goes to the
    /// connector. The loop is over when a client asks to disconnect, which the
    /// connector then does, or when either side is gone.
    pub fn event_loop(&mut self, ret: StreamReturn<C, M>) -> (action: LoopAction<M>)
        requires
            old(self)@.admits(LoopEvent::Stream(ret)),
        ensures
            (final(self)@, action@) == old(self)@.next(LoopEvent::Stream(ret)),
            final(self).same_channels(*old(self)),
    {
        match self.stage {
            LoopStage::Connected => match ret {
                StreamReturn::ConnectorMessage(msg) => LoopAction::SendEvent(msg),
                StreamReturn::ClientMessage(
                    ButtplugInternalClientMessage::Message((msg, state)),
                ) => LoopAction::SendMessage(msg, state),
                StreamReturn::ClientMessage(ButtplugInternalClientMessage::Disconnect) => {
                    self.stage = LoopStage::Exited;
                    LoopAction::Disconnect
                },
                _ => {
                    self.stage = LoopStage::Exited;
                    LoopAction::Exit
                },
            },
            _ => LoopAction::Exit,
        }
    }

    /// How far this loop has come.
    pub fn stage(&self) -> (stage: &LoopStage<C>)
        ensures
            *stage == self@.stage,
    {
        &self.stage
    }

    /// The connector that is to connect, while it is.
    pub fn connecting_mut(&mut self) -> (connector: Option<&mut C>)
        ensures
            match old(self)@.stage {
                LoopStage::Connecting(at_work, state) => connector matches Some(connector)
                    && *connector == at_work && final(self)@ == (LoopView {
                    stage: LoopStage::Connecting(*final(connector), state),
                    connector: old(self)@.connector,
                }),
                _ => connector is None && final(self)@ == old(self)@,
            },
            final(self).same_channels(*old(self)),
    {
        match &mut self.stage {
            LoopStage::Connecting(connector, _) => Some(connector),
            _ => None,
        }
    }

    /// The connector in use.
    pub fn connector_mut(&mut self) -> (connector: Option<&mut C>)
        ensures
            match old(self)@.connector {
                Some(in_use) => connector matches Some(connector) && *connector == in_use
                    && final(self)@ == (LoopView {
                    stage: old(self)@.stage,
                    connector: Some(*final(connector)),
                }),
                None => connector is None && final(self)@ == old(self)@,
            },
            final(self).same_channels(*old(self)),
    {
        self.connector.as_mut()
    }

    /// The channel on which clients make their requests.
    pub fn client_receiver(&mut self) -> (receiver: &mut Receiver<
        ButtplugInternalClientMessage<C, M>,
    >)
        ensures
            *receiver == old(self).receiver(),
            final(self).receiver() == *final(receiver),
            final(self).sender() == old(self).sender(),
            final(self)@ == old(self)@,
    {
        &mut self.client_receiver
    }

    /// The channel on which clients are told what the server sends.
    pub fn event_sender(&self) -> (sender: &Sender<M>)
        ensures
            *sender == self.sender(),
    {
        &self.event_sender
    }
}

} // verus!
