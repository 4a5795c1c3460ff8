//! The streaming market-data session.
//!
//! The session owns the handshake, the queue of messages that have arrived
//! and the record of what is subscribed. It never touches a socket: whoever
//! owns the transport hands it each batch that arrives with
//! [`StreamingMarketDataClient::receive`] and carries out what the session
//! asks for. A call that cannot go on without more input says so and leaves
//! the session as it was, so a caller may wait under any deadline it likes.
//!
//! Changes of subscription are synchronous to the acknowledgement: after
//! sending the request of [`StreamingMarketDataClient::add_subscriptions`]
//! the caller pumps
//! [`StreamingMarketDataClient::await_subscription_update_message`] until the
//! server's answer has been applied. Market data that arrives meanwhile is
//! kept, in order, for [`StreamingMarketDataClient::next_message`].

use vstd::prelude::*;
use std::collections::VecDeque;
use crate::account_type::AccountType;
use crate::env::Env;
use crate::error::Error;
use crate::feed::Feed;
use crate::json::parsed_json;
use crate::streaming::client_state::ClientState;
use crate::streaming::codec::decode_frame;
use crate::streaming::codec::is_frame_of;
use crate::streaming::stock_data::ControlMessage;
use crate::streaming::stock_data::Request;
use crate::streaming::stock_data::RequestView;
use crate::streaming::stock_data::StreamMessage;
use crate::streaming::subscription::SubscriptionList;
use crate::utilities::vexpand::Vexpand;

verus! {

/// The state of a session that has consumed `message` in `state`, or
/// `None` where the message breaks the handshake.
///
/// The handshake takes the acknowledgement of the connection and then that
/// of the credentials, and nothing else. From then on only an update of the
/// subscriptions changes anything: it replaces what was subscribed.
pub open spec fn step(
    state: ClientState<SubscriptionList>,
    message: StreamMessage,
) -> Option<ClientState<SubscriptionList>> {
    match state {
        ClientState::Connecting => if message.control_of() == Some(ControlMessage::Connected) {
            Some(ClientState::Connected)
        } else {
            None
        },
        ClientState::Connected => if message.control_of() == Some(ControlMessage::Authenticated) {
            Some(ClientState::Authenticated(SubscriptionList::nothing()))
        } else {
            None
        },
        ClientState::Authenticated(_) => match message {
            StreamMessage::Subscription(update) => Some(ClientState::Authenticated(update)),
            _ => Some(state),
        },
    }
}

/// The state of a session that has consumed `messages`, in this order,
/// since its transport opened.
pub open spec fn run(messages: Seq<StreamMessage>) -> Option<ClientState<SubscriptionList>>
    decreases messages.len(),
{
    if messages.len() == 0 {
        Some(ClientState::Connecting)
    } else {
        match run(messages.drop_last()) {
            Some(state) => step(state, messages.last()),
            None => None,
        }
    }
}

/// The messages among `messages` that the caller gets to see, in their
/// order.
pub open spec fn data_of(messages: Seq<StreamMessage>) -> Seq<StreamMessage>
    decreases messages.len(),
{
    if messages.len() == 0 {
        Seq::empty()
    } else if messages.last().is_data() {
        data_of(messages.drop_last()).push(messages.last())
    } else {
        data_of(messages.drop_last())
    }
}

/// What the last update of the subscriptions among `messages` carries;
/// the list that names nothing where there is no update.
pub open spec fn latest_update(messages: Seq<StreamMessage>) -> SubscriptionList
    decreases messages.len(),
{
    if messages.len() == 0 {
        SubscriptionList::nothing()
    } else {
        match messages.last() {
            StreamMessage::Subscription(update) => update,
            _ => latest_update(messages.drop_last()),
        }
    }
}

/// What the router makes of one message after the handshake.
#[derive(Clone, Debug, PartialEq, Eq)]
pub enum Routed {
    /// An update of the subscriptions: it is applied and the caller sees
    /// nothing.
    Update(SubscriptionList),
    /// Market data or a failure of the feed: the caller gets it unchanged.
    Data(StreamMessage),
    /// An acknowledgement of the handshake, which must not come again.
    Violation(StreamMessage),
}

/// What the router makes of `message`.
pub open spec fn routed(message: StreamMessage) -> Routed {
    match message {
        StreamMessage::Subscription(update) => Routed::Update(update),
        StreamMessage::Control { .. } => Routed::Violation(message),
        _ => Routed::Data(message),
    }
}

/// Classify one inbound message.
pub fn route(message: StreamMessage) -> (outcome: Routed)
    ensures
        outcome == routed(message),
        (outcome is Data) == message.is_data(),
{
    match message {
        StreamMessage::Subscription(update) => Routed::Update(update),
        StreamMessage::Control { msg } => Routed::Violation(StreamMessage::Control { msg }),
        other => Routed::Data(other),
    }
}

/// What a session is, for its contracts.
pub ghost struct Session {
    /// The kind of account that the session was made for.
    pub account_type: AccountType,
    /// The feed that the session was made for.
    pub feed: Feed,
    /// The credentials.
    pub env: Env,
    /// How far the session has come, with the subscriptions once it is
    /// authenticated.
    pub state: ClientState<SubscriptionList>,
    /// The messages that have arrived and have not been looked at.
    pub pending: Seq<StreamMessage>,
    /// The data that has been routed and not yet handed to the caller.
    pub ready: Seq<StreamMessage>,
    /// Whether the session is closed.
    pub closed: bool,
    /// Every message that the session has consumed, in order of arrival.
    pub history: Seq<StreamMessage>,
    /// Every message that the caller has been handed, in order.
    pub delivered: Seq<StreamMessage>,
}

impl Session {
    /// What holds of every session: its state is that of its history, and
    /// the data of its history is what was handed out followed by what is
    /// ready to be.
    pub open spec fn wf(self) -> bool {
        &&& run(self.history) == Some(self.state)
        &&& self.delivered + self.ready == data_of(self.history)
    }

    /// The session whose transport has just been opened: nothing has
    /// arrived and nothing is known.
    pub open spec fn fresh(account_type: AccountType, feed: Feed, env: Env) -> Session {
        Session {
            account_type,
            feed,
            env,
            state: ClientState::Connecting,
            pending: Seq::empty(),
            ready: Seq::empty(),
            closed: false,
            history: Seq::empty(),
            delivered: Seq::empty(),
        }
    }

    /// The session once it has consumed the first pending message, as far
    /// as state, queue and history go.
    pub open spec fn consumed(self) -> Session
        recommends
            self.pending.len() > 0,
            step(self.state, self.pending[0]) is Some,
    {
        Session {
            state: step(self.state, self.pending[0]).unwrap(),
            pending: self.pending.skip(1),
            history: self.history.push(self.pending[0]),
            ..self
        }
    }

    /// The session after a step of the handshake.
    pub open spec fn after_handshake(self) -> Session {
        if self.closed || self.state is Authenticated || self.pending.len() == 0 {
            self
        } else if step(self.state, self.pending[0]) is Some {
            self.consumed()
        } else {
            Session { pending: self.pending.skip(1), closed: true, ..self }
        }
    }

    /// The session after the caller has asked for the next message, and
    /// what the caller is told.
    ///
    /// Data that is ready comes first. Then pending messages are consumed
    /// in order: updates of the subscriptions are applied in silence, the
    /// first message of another kind ends the call. With nothing left the
    /// call ends with `Ok(None)`: there is no data yet.
    pub open spec fn after_next(self) -> (Session, Result<Option<StreamMessage>, Error>)
        decreases self.pending.len(),
    {
        if self.closed {
            (self, Err(Error::Closed))
        } else if !(self.state is Authenticated) {
            (self, Err(Error::HandshakeIncomplete))
        } else if self.ready.len() > 0 {
            (
                Session {
                    ready: self.ready.skip(1),
                    delivered: self.delivered.push(self.ready[0]),
                    ..self
                },
                Ok(Some(self.ready[0])),
            )
        } else if self.pending.len() == 0 {
            (self, Ok(None))
        } else {
            let message = self.pending[0];
            match routed(message) {
                Routed::Update(_) => self.consumed().after_next(),
                Routed::Violation(_) => (self.consumed(), Err(Error::UnexpectedMessage(message))),
                Routed::Data(_) => (
                    Session { delivered: self.delivered.push(message), ..self.consumed() },
                    Ok(Some(message)),
                ),
            }
        }
    }

    /// The session after the caller has waited for an update of the
    /// subscriptions, and what the caller is told.
    ///
    /// Pending messages are consumed in order. Data is put by for the
    /// caller. The first update is applied and ends the call with
    /// `Ok(true)`. With nothing left the call ends with `Ok(false)`: the
    /// update has not arrived yet.
    pub open spec fn after_await(self) -> (Session, Result<bool, Error>)
        decreases self.pending.len(),
    {
        if self.closed {
            (self, Err(Error::Closed))
        } else if !(self.state is Authenticated) {
            (self, Err(Error::HandshakeIncomplete))
        } else if self.pending.len() == 0 {
            (self, Ok(false))
        } else {
            let message = self.pending[0];
            match routed(message) {
                Routed::Update(_) => (self.consumed(), Ok(true)),
                Routed::Violation(_) => (self.consumed(), Err(Error::UnexpectedMessage(message))),
                Routed::Data(_) => Session {
                    ready: self.ready.push(message),
                    ..self.consumed()
                }.after_await(),
            }
        }
    }

    /// The session after a shutdown.
    pub open spec fn after_shut_down(self) -> Session {
        Session { closed: true, ..self }
    }

    /// Whether a shutdown of this session has the transport closed: only
    /// where the session is not closed already.
    pub open spec fn tears_down(self) -> bool {
        !self.closed
    }
}

/// What the owner of the transport is to do next for the handshake.
#[derive(PartialEq, Eq)]
pub enum Handshake {
    /// Receive a batch and hand it to the session.
    Receive,
    /// Send this request, then go on.
    Send(Request),
    /// The session is authenticated.
    Done,
    /// The handshake has failed and the session is closed; drop the
    /// transport.
    Failed(Error),
}

/// A session on the stream of market data.
pub struct StreamingMarketDataClient {
    account_type: AccountType,
    feed: Feed,
    env: Env,
    state: ClientState<SubscriptionList>,
    messages: Vexpand<StreamMessage>,
    ready: VecDeque<StreamMessage>,
    closed: bool,
    history: Ghost<Seq<StreamMessage>>,
    delivered: Ghost<Seq<StreamMessage>>,
}

impl View for StreamingMarketDataClient {
    type V = Session;

    closed spec fn view(&self) -> Session {
        Session {
            account_type: self.account_type,
            feed: self.feed,
            env: self.env,
            state: self.state,
            pending: self.messages@,
            ready: self.ready@,
            closed: self.closed,
            history: self.history@,
            delivered: self.delivered@,
        }
    }
}

impl StreamingMarketDataClient {
    /// A session for the given feed whose transport has just been opened:
    /// nothing has arrived and nothing is known.
    pub fn new(account_type: AccountType, feed: Feed, env: Env) -> (client: Self)
        ensures
            client@ == Session::fresh(account_type, feed, env),
            client@.wf(),
    {
        let client = StreamingMarketDataClient {
            account_type,
            feed,
            env,
            state: ClientState::Connecting,
            messages: Vexpand::new(),
            ready: VecDeque::new(),
            closed: false,
            history: Ghost(Seq::empty()),
            delivered: Ghost(Seq::empty()),
        };
        assert(client@.delivered + client@.ready =~= Seq::<StreamMessage>::empty());
        client
    }

    /// A session on the test feed.
    pub fn new_test_client(account_type: AccountType, env: Env) -> (client: Self)
        ensures
            client@ == Session::fresh(account_type, Feed::Test, env),
            client@.wf(),
    {
        StreamingMarketDataClient::new(account_type, Feed::Test, env)
    }

    /// A session on the IEX feed.
    pub fn new_iex_client(account_type: AccountType, env: Env) -> (client: Self)
        ensures
            client@ == Session::fresh(account_type, Feed::IEX, env),
            client@.wf(),
    {
        StreamingMarketDataClient::new(account_type, Feed::IEX, env)
    }

    /// A session on the SIP feed.
    pub fn new_sip_client(account_type: AccountType, env: Env) -> (client: Self)
        ensures
            client@ == Session::fresh(account_type, Feed::SIP, env),
            client@.wf(),
    {
        StreamingMarketDataClient::new(account_type, Feed::SIP, env)
    }

    /// The URL that the transport of this session connects to.
    pub fn url(&self) -> (url: &'static str)
        ensures
            url@ == self@.feed.url(self@.account_type),
    {
        self.feed.streaming_url(self.account_type)
    }

    /// How far the session has come.
    pub fn state(&self) -> (state: &ClientState<SubscriptionList>)
        ensures
            *state == self@.state,
    {
        &self.state
    }

    /// Whether the session has been shut down, or has closed itself after a
    /// failed handshake.
    pub fn is_closed(&self) -> (closed: bool)
        ensures
            closed == self@.closed,
    {
        self.closed
    }

    /// What is subscribed, as the server last confirmed it; `None` before
    /// the session is authenticated.
    pub fn subscriptions(&self) -> (subscriptions: Option<&SubscriptionList>)
        ensures
            match self@.state {
                ClientState::Authenticated(list) => subscriptions == Some(&list),
                _ => subscriptions is None,
            },
            self@.wf() && self@.state is Authenticated ==> subscriptions == Some(
                &latest_update(self@.history),
            ),
    {
        proof {
            if self@.wf() {
                lemma_subscriptions_are_latest_update(self@.history);
            }
        }
        match &self.state {
            ClientState::Authenticated(list) => Some(list),
            _ => None,
        }
    }

    /// Take in a batch that the transport has delivered. Its messages
    /// queue up behind those that wait, in their order.
    ///
    /// # Errors
    /// `Closed` after a shutdown; the batch is dropped.
    pub fn receive(&mut self, batch: Vec<StreamMessage>) -> (taken: Result<(), Error>)
        ensures
            old(self)@.wf() ==> final(self)@.wf(),
            old(self)@.closed ==> taken == Err::<(), Error>(Error::Closed) && final(self)@ == old(
                self,
            )@,
            !old(self)@.closed ==> taken is Ok && final(self)@ == (Session {
                pending: old(self)@.pending + batch@,
                ..old(self)@
            }),
    {
        if self.closed {
            return Err(Error::Closed);
        }
        self.messages.extend(batch);
        Ok(())
    }

    /// Take in a frame that the transport has delivered: the messages
    /// that it carries queue up behind those that wait, in their order.
    ///
    /// # Errors
    /// `Closed` after a shutdown, and `Decode` for a frame that cannot be
    /// read; the session stays as it was.
    pub fn receive_frame(&mut self, text: &str) -> (taken: Result<(), Error>)
        ensures
            old(self)@.wf() ==> final(self)@.wf(),
            old(self)@.closed ==> taken == Err::<(), Error>(Error::Closed) && final(self)@ == old(
                self,
            )@,
            !old(self)@.closed ==> match taken {
                Ok(_) => exists|batch: Vec<StreamMessage>|
                    is_frame_of(Ok(batch), parsed_json(text@)) && final(self)@ == (Session {
                        pending: old(self)@.pending + batch@,
                        ..old(self)@
                    }),
                Err(Error::Decode(error)) => final(self)@ == old(self)@ && is_frame_of(
                    Err(error),
                    parsed_json(text@),
                ),
                Err(_) => false,
            },
    {
        if self.closed {
            return Err(Error::Closed);
        }
        match decode_frame(text) {
            Ok(batch) => {
                let ghost decoded = batch;
                self.messages.extend(batch);
                assert(is_frame_of(Ok(decoded), parsed_json(text@)) && self@ == (Session {
                    pending: old(self)@.pending + decoded@,
                    ..old(self)@
                }));
                Ok(())
            },
            Err(error) => Err(Error::Decode(error)),
        }
    }

    /// One step of the handshake.
    ///
    /// The first message after the transport opened must acknowledge the
    /// connection; the session then asks for the credentials to be sent.
    /// The next message must acknowledge them; the session is then
    /// authenticated, with nothing subscribed. Any other message at either
    /// step fails the handshake for good: the session closes and the
    /// credentials are not sent.
    pub fn handshake(&mut self) -> (action: Handshake)
        ensures
            old(self)@.wf() ==> final(self)@.wf(),
            final(self)@ == old(self)@.after_handshake(),
            match action {
                Handshake::Receive => !old(self)@.closed && !(old(self)@.state is Authenticated)
                    && old(self)@.pending.len() == 0,
                Handshake::Send(request) => !old(self)@.closed && old(self)@.state is Connecting
                    && final(self)@.state is Connected && request.deep_view() == (
                RequestView::AuthMessage {
                    key: old(self)@.env.key(),
                    secret: old(self)@.env.secret(),
                }),
                Handshake::Done => !old(self)@.closed && final(self)@.state is Authenticated,
                Handshake::Failed(error) => old(self)@.closed && error == Error::Closed || {
                    &&& !old(self)@.closed
                    &&& old(self)@.pending.len() > 0
                    &&& step(old(self)@.state, old(self)@.pending[0]) is None
                    &&& old(self)@.state is Connecting ==> error
                        == Error::UnexpectedConnectionMessage(old(self)@.pending[0])
                    &&& old(self)@.state is Connected ==> error == (Error::StreamingAuth {
                        response: old(self)@.pending[0],
                    })
                },
            },
    {
        if self.closed {
            return Handshake::Failed(Error::Closed);
        }
        if self.state.is_authenticated() {
            return Handshake::Done;
        }
        let message = match self.messages.pop() {
            Some(message) => message,
            None => {
                return Handshake::Receive;
            },
        };
        let ghost before = self.history@;
        proof {
            assert(before.push(message).drop_last() =~= before);
        }
        let connecting = match self.state {
            ClientState::Connecting => true,
            _ => false,
        };
        if connecting {
            match message.control() {
                Some(ControlMessage::Connected) => {
                    self.state = ClientState::Connected;
                    self.history = Ghost(before.push(message));
                    Handshake::Send(
                        Request::AuthMessage {
                            key: self.env.key_id().to_owned(),
                            secret: self.env.secret_key().to_owned(),
                        },
                    )
                },
                _ => {
                    self.closed = true;
                    Handshake::Failed(Error::UnexpectedConnectionMessage(message))
                },
            }
        } else {
            match message.control() {
                Some(ControlMessage::Authenticated) => {
                    self.state = ClientState::Authenticated(SubscriptionList::new());
                    self.history = Ghost(before.push(message));
                    Handshake::Done
                },
                _ => {
                    self.closed = true;
                    Handshake::Failed(Error::StreamingAuth { response: message })
                },
            }
        }
    }

    /// Apply an update of the subscriptions: what the server sent replaces
    /// what was subscribed, whole. Nothing else ever changes what is
    /// subscribed.
    fn apply(&mut self, update: SubscriptionList)
        requires
            old(self)@.state is Authenticated,
        ensures
            final(self)@ == (Session { state: ClientState::Authenticated(update), ..old(self)@ }),
    {
        self.state = ClientState::Authenticated(update);
    }

    /// Take the message that has waited longest out of the queue of
    /// arrivals and record it as consumed in the given state.
    fn next_message_internal(&mut self, Ghost(next): Ghost<ClientState<SubscriptionList>>) -> (message:
        Option<StreamMessage>)
        requires
            old(self)@.pending.len() > 0 ==> step(old(self)@.state, old(self)@.pending[0]) == Some(
                next,
            ),
        ensures
            old(self)@.pending.len() == 0 ==> message is None && final(self)@ == old(self)@,
            old(self)@.pending.len() > 0 ==> message == Some(old(self)@.pending[0]) && final(self)@
                == (Session { state: old(self)@.state, ..old(self)@.consumed() }),
            old(self)@.wf() && old(self)@.pending.len() > 0 ==> run(final(self)@.history) == Some(
                next,
            ),
            old(self)@.pending.len() > 0 ==> data_of(final(self)@.history) == if old(
                self,
            )@.pending[0].is_data() {
                data_of(old(self)@.history).push(old(self)@.pending[0])
            } else {
                data_of(old(self)@.history)
            },
    {
        let message = self.messages.pop();
        if message.is_some() {
            let ghost before = self.history@;
            proof {
                assert(before.push(old(self)@.pending[0]).drop_last() =~= before);
            }
            self.history = Ghost(before.push(old(self)@.pending[0]));
        }
        message
    }

    /// The next message of market data, or the next failure that the feed
    /// reports: `Ok(None)` where none has arrived yet.
    ///
    /// Updates of the subscriptions that stand before it in the queue are
    /// applied on the way.
    ///
    /// # Errors
    /// `Closed` after a shutdown, `HandshakeIncomplete` before the session
    /// is authenticated, and `UnexpectedMessage` for an acknowledgement of
    /// the handshake that arrives after it; the session stays usable.
    pub fn next_message(&mut self) -> (next: Result<Option<StreamMessage>, Error>)
        ensures
            old(self)@.wf() ==> final(self)@.wf(),
            final(self)@ == old(self)@.after_next().0,
            next == old(self)@.after_next().1,
    {
        if self.closed {
            return Err(Error::Closed);
        }
        if !self.state.is_authenticated() {
            return Err(Error::HandshakeIncomplete);
        }
        if self.ready.len() > 0 {
            let ghost ready = self.ready@;
            let ghost delivered = self.delivered@;
            let first = self.ready.pop_front();
            proof {
                assert(ready.subrange(1, ready.len() as int) =~= ready.skip(1));
                assert(delivered.push(ready[0]) + ready.skip(1) =~= delivered + ready);
            }
            self.delivered = Ghost(delivered.push(ready[0]));
            return Ok(first);
        }
        loop
            invariant
                old(self)@.wf() ==> self@.wf(),
                !self@.closed,
                self@.state is Authenticated,
                self@.ready.len() == 0,
                self@.after_next() == old(self)@.after_next(),
            decreases self@.pending.len(),
        {
            let ghost now = self@;
            let ghost next = if now.pending.len() > 0 {
                step(now.state, now.pending[0]).unwrap()
            } else {
                now.state
            };
            let message = match self.next_message_internal(Ghost(next)) {
                Some(message) => message,
                None => {
                    return Ok(None);
                },
            };
            match route(message) {
                Routed::Update(update) => {
                    self.apply(update);
                    assert(self@ == now.consumed());
                },
                Routed::Violation(message) => {
                    assert(self@ == now.consumed());
                    return Err(Error::UnexpectedMessage(message));
                },
                Routed::Data(message) => {
                    let ghost delivered = self.delivered@;
                    self.delivered = Ghost(delivered.push(message));
                    proof {
                        assert(delivered.push(message) + now.ready =~= (delivered + now.ready).push(
                            message,
                        ));
                    }
                    return Ok(Some(message));
                },
            }
        }
    }

    /// The request that asks the server for these subscriptions.
    ///
    /// What is subscribed changes only when the server's answer has
    /// arrived: send the request, then wait with
    /// [`Self::await_subscription_update_message`].
    ///
    /// # Errors
    /// `Closed` after a shutdown, `HandshakeIncomplete` before the session
    /// is authenticated.
    pub fn add_subscriptions(&self, subscriptions: &SubscriptionList) -> (request: Result<
        Request,
        Error,
    >)
        ensures
            self@.closed ==> request == Err::<Request, Error>(Error::Closed),
            !self@.closed && !(self@.state is Authenticated) ==> request == Err::<Request, Error>(
                Error::HandshakeIncomplete,
            ),
            !self@.closed && self@.state is Authenticated ==> (request matches Ok(r)
                && r.deep_view() == RequestView::Subscribe(subscriptions.deep_view())),
    {
        if self.closed {
            Err(Error::Closed)
        } else if !self.state.is_authenticated() {
            Err(Error::HandshakeIncomplete)
        } else {
            Ok(Request::Subscribe(subscriptions.duplicate()))
        }
    }

    /// The request that asks the server to drop these subscriptions.
    ///
    /// What is subscribed changes only when the server's answer has
    /// arrived: send the request, then wait with
    /// [`Self::await_subscription_update_message`].
    ///
    /// # Errors
    /// `Closed` after a shutdown, `HandshakeIncomplete` before the session
    /// is authenticated.
    pub fn remove_subscriptions(&self, subscriptions: &SubscriptionList) -> (request: Result<
        Request,
        Error,
    >)
        ensures
            self@.closed ==> request == Err::<Request, Error>(Error::Closed),
            !self@.closed && !(self@.state is Authenticated) ==> request == Err::<Request, Error>(
                Error::HandshakeIncomplete,
            ),
            !self@.closed && self@.state is Authenticated ==> (request matches Ok(r)
                && r.deep_view() == RequestView::Unsubscribe(subscriptions.deep_view())),
    {
        if self.closed {
            Err(Error::Closed)
        } else if !self.state.is_authenticated() {
            Err(Error::HandshakeIncomplete)
        } else {
            Ok(Request::Unsubscribe(subscriptions.duplicate()))
        }
    }

    /// Consume what has arrived until an update of the subscriptions has
    /// been applied: `Ok(true)` once it has, `Ok(false)` where it has not
    /// arrived yet. Market data met on the way is kept for
    /// [`Self::next_message`], in its order.
    ///
    /// # Errors
    /// `Closed` after a shutdown, `HandshakeIncomplete` before the session
    /// is authenticated, and `UnexpectedMessage` for an acknowledgement of
    /// the handshake that arrives after it.
    pub fn await_subscription_update_message(&mut self) -> (updated: Result<bool, Error>)
        ensures
            old(self)@.wf() ==> final(self)@.wf(),
            final(self)@ == old(self)@.after_await().0,
            updated == old(self)@.after_await().1,
    {
        if self.closed {
            return Err(Error::Closed);
        }
        if !self.state.is_authenticated() {
            return Err(Error::HandshakeIncomplete);
        }
        loop
            invariant
                old(self)@.wf() ==> self@.wf(),
                !self@.closed,
                self@.state is Authenticated,
                self@.after_await() == old(self)@.after_await(),
            decreases self@.pending.len(),
        {
            let ghost now = self@;
            let ghost next = if now.pending.len() > 0 {
                step(now.state, now.pending[0]).unwrap()
            } else {
                now.state
            };
            let message = match self.next_message_internal(Ghost(next)) {
                Some(message) => message,
                None => {
                    return Ok(false);
                },
            };
            match route(message) {
                Routed::Update(update) => {
                    self.apply(update);
                    assert(self@ == now.consumed());
                    return Ok(true);
                },
                Routed::Violation(message) => {
                    assert(self@ == now.consumed());
                    return Err(Error::UnexpectedMessage(message));
                },
                Routed::Data(message) => {
                    let ghost put_by = message;
                    self.ready.push_back(message);
                    proof {
                        assert(now.delivered + now.ready.push(put_by) =~= (now.delivered
                            + now.ready).push(put_by));
                        assert(self@ == (Session {
                            ready: now.ready.push(put_by),
                            ..now.consumed()
                        }));
                    }
                },
            }
        }
    }

    /// Shut the session down. Returns whether the transport is to be
    /// closed now: `true` the first time, `false` ever after, when nothing
    /// is left to do. Every later call of another method fails with
    /// `Closed`.
    pub fn shut_down(&mut self) -> (close_transport: bool)
        ensures
            old(self)@.wf() ==> final(self)@.wf(),
            final(self)@ == old(self)@.after_shut_down(),
            close_transport == old(self)@.tears_down(),
    {
        let close_transport = !self.closed;
        self.closed = true;
        close_transport
    }
}

/// A session is authenticated only after it has seen the acknowledgement
/// of the connection and then that of the credentials, as the first two
/// messages and in that order; it is connected only after the first of
/// them alone.
pub proof fn lemma_handshake_order(messages: Seq<StreamMessage>)
    ensures
        run(messages) matches Some(ClientState::Connecting) ==> messages.len() == 0,
        run(messages) matches Some(ClientState::Connected) ==> messages.len() == 1
            && messages[0].control_of() == Some(ControlMessage::Connected),
        run(messages) matches Some(ClientState::Authenticated(_)) ==> messages.len() >= 2
            && messages[0].control_of() == Some(ControlMessage::Connected)
            && messages[1].control_of() == Some(ControlMessage::Authenticated),
    decreases messages.len(),
{
    if messages.len() > 0 {
        lemma_handshake_order(messages.drop_last());
    }
}

/// The state of a session never moves backwards.
pub proof fn lemma_state_moves_forward(state: ClientState<SubscriptionList>, message: StreamMessage)
    ensures
        step(state, message) matches Some(next) ==> next.rank() >= state.rank(),
{
}

/// What an authenticated session has subscribed is exactly what the last
/// update that it consumed carries: an update replaces, it does not merge.
/// Before the first update nothing is subscribed.
pub proof fn lemma_subscriptions_are_latest_update(messages: Seq<StreamMessage>)
    ensures
        run(messages) matches Some(ClientState::Authenticated(list)) ==> list == latest_update(
            messages,
        ),
    decreases messages.len(),
{
    if messages.len() > 0 {
        let before = messages.drop_last();
        lemma_subscriptions_are_latest_update(before);
        lemma_handshake_order(before);
        if run(messages) matches Some(ClientState::Authenticated(list)) {
            match run(before) {
                Some(ClientState::Connected) => {
                    assert(before.last() == before[0]);
                    assert(before.last() is Control);
                    assert(latest_update(before.drop_last()) == SubscriptionList::nothing());
                },
                _ => {},
            }
        }
    }
}

/// The data of a sequence of messages is the sequence filtered: every
/// message that the caller gets to see, once, in the order of arrival.
pub proof fn lemma_data_is_filtered(messages: Seq<StreamMessage>)
    ensures
        data_of(messages) == messages.filter(|m: StreamMessage| m.is_data()),
    decreases messages.len(),
{
    reveal(Seq::filter);
    if messages.len() > 0 {
        lemma_data_is_filtered(messages.drop_last());
    }
}

/// When a session tells its caller that there is no data yet, the caller
/// has been handed every message of data that the session has received so
/// far, each once and in the order of arrival.
pub proof fn lemma_all_data_delivered(session: Session)
    requires
        session.wf(),
        session.after_next().1 == Ok::<Option<StreamMessage>, Error>(None),
    ensures
        session.after_next().0.pending.len() == 0,
        session.after_next().0.ready.len() == 0,
        session.after_next().0.delivered == data_of(session.after_next().0.history),
        session.after_next().0.history == session.history + session.pending,
    decreases session.pending.len(),
{
    if session.ready.len() == 0 && session.pending.len() > 0 {
        let message = session.pending[0];
        lemma_consumed_is_wf(session);
        lemma_all_data_delivered(session.consumed());
        assert(session.history.push(message) + session.pending.skip(1) =~= session.history
            + session.pending);
    } else {
        assert(session.delivered + session.ready =~= session.delivered);
        assert(session.history + session.pending =~= session.history);
    }
}

/// At any time, what the caller has been handed is the data that the
/// session has consumed, in the order of arrival and without a repetition,
/// up to what is still ready for the caller.
pub proof fn lemma_delivered_in_wire_order(session: Session)
    requires
        session.wf(),
    ensures
        session.delivered.is_prefix_of(data_of(session.history)),
        data_of(session.history) == session.history.filter(|m: StreamMessage| m.is_data()),
        session.ready.len() == 0 ==> session.delivered == data_of(session.history),
{
    lemma_data_is_filtered(session.history);
    assert(session.delivered =~= (session.delivered + session.ready).subrange(
        0,
        session.delivered.len() as int,
    ));
    if session.ready.len() == 0 {
        assert(session.delivered + session.ready =~= session.delivered);
    }
}

/// Consuming an update of the subscriptions keeps a session well formed.
proof fn lemma_consumed_is_wf(session: Session)
    requires
        session.wf(),
        session.state is Authenticated,
        session.pending.len() > 0,
        session.pending[0] is Subscription,
    ensures
        session.consumed().wf(),
{
    assert(session.history.push(session.pending[0]).drop_last() =~= session.history);
}

/// Shutting down twice leaves the session as shutting down once does, and
/// the second call has nothing torn down. Whatever is asked of the session
/// after the first call is refused as `Closed` and changes nothing.
pub proof fn lemma_shut_down_is_idempotent(session: Session)
    ensures
        session.after_shut_down().after_shut_down() == session.after_shut_down(),
        !session.after_shut_down().tears_down(),
        session.after_shut_down().after_next() == (
            session.after_shut_down(),
            Err::<Option<StreamMessage>, Error>(Error::Closed),
        ),
        session.after_shut_down().after_await() == (
            session.after_shut_down(),
            Err::<bool, Error>(Error::Closed),
        ),
        session.after_shut_down().after_handshake() == session.after_shut_down(),
        session.wf() ==> session.after_shut_down().wf(),
{
}

/// A session that is authenticated has consumed the acknowledgement of
/// the connection first and that of the credentials second.
pub proof fn lemma_authenticated_session_has_shaken_hands(session: Session)
    requires
        session.wf(),
        session.state is Authenticated,
    ensures
        session.history.len() >= 2,
        session.history[0] == (StreamMessage::Control { msg: ControlMessage::Connected }),
        session.history[1] == (StreamMessage::Control { msg: ControlMessage::Authenticated }),
{
    lemma_handshake_order(session.history);
}

/// No call moves the state of a session backwards.
pub proof fn lemma_session_moves_forward(session: Session)
    ensures
        session.after_handshake().state.rank() >= session.state.rank(),
        session.after_next().0.state.rank() >= session.state.rank(),
        session.after_await().0.state.rank() >= session.state.rank(),
        session.after_shut_down().state == session.state,
    decreases session.pending.len(),
{
    if !session.closed && session.state is Authenticated && session.pending.len() > 0 {
        lemma_session_moves_forward(session.consumed());
        lemma_session_moves_forward(
            Session { ready: session.ready.push(session.pending[0]), ..session.consumed() },
        );
    }
}

} // verus!
