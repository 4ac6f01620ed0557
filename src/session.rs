use vstd::prelude::*;

use crate::codec::{be_value, frame_length_result};
use crate::dupfilter::{recorded, DuplicateFilter, ID_CACHE_SIZE};
use crate::error::Error;
use crate::mac::Mac;
use crate::message::{
    Decimal, MeasurementId, Message, MsgId, NodeId, NodeSettings, Payload, Request, Response,
    UpdateStatId, Version,
};
use crate::queue::last_n;
use crate::ratelimit::{not_after, would_exceed, RateLimiter};

verus! {

/// The id that a session counts its responses from: the first response
/// carries the next one.
pub const FIRST_ID: MsgId = 1;

/// Each id of `ids` is one more than the one before.
pub open spec fn consecutive(ids: Seq<MsgId>) -> bool {
    forall|i: int| 0 <= i < ids.len() - 1 ==> #[trigger] ids[i + 1] == ids[i] + 1
}

/// What receiving a message gives, given the ids remembered by the session:
/// an undecodable payload, a remembered id or a response are refused.
pub open spec fn receive_outcome(decoded: Option<Message>, recent: Seq<u64>) -> Result<
    Request,
    Error,
> {
    match decoded {
        None => Err(Error::MessageParse),
        Some(m) => if recent.contains(m.id) {
            Err(Error::DuplicateMessage)
        } else {
            match m.payload {
                Payload::Request(req) => Ok(req),
                Payload::Response(_) => Err(Error::NotRequest),
            }
        },
    }
}

/// Whether receiving `decoded` remembers its id: it was decoded, and its id
/// is not among the recent ones.
pub open spec fn remembers(decoded: Option<Message>, recent: Seq<u64>) -> bool {
    decoded matches Some(m) && !recent.contains(m.id)
}

/// The diagnostic response sent before a session ends with a receive
/// failure: `InternalServerError` for a payload that is not a message,
/// `Reject` for a first request that is not a handshake, none otherwise.
pub open spec fn failure_response(e: Error) -> Option<Response> {
    match e {
        Error::MessageParse => Some(Response::InternalServerError),
        Error::NotHandshake => Some(Response::Reject),
        _ => None,
    }
}

/// A session that has not yet completed its handshake.
pub struct Unathenticated;

/// Where a node stands in an over-the-air update.
#[derive(Debug, PartialEq, Eq)]
pub enum UpdateState {
    /// No update check was made.
    Unchecked,
    /// The last check found no newer firmware.
    UpToDate,
    /// The last check found firmware `new`; `position` bytes of `blob` have
    /// been delivered.
    Available { current: Version, new: Version, blob: Vec<u8>, position: usize },
}

impl UpdateState {
    /// The delivery position lies within the firmware.
    pub open spec fn wf(&self) -> bool {
        match self {
            UpdateState::Available { blob, position, .. } => *position <= blob@.len(),
            _ => true,
        }
    }
}

/// A session whose node proved its identity.
pub struct Authenticated {
    id: NodeId,
    mac: Mac,
    last_submit: Option<MeasurementId>,
    update_state: UpdateState,
    /// The measurements posted in this session, in order.
    posted: Ghost<Seq<MeasurementId>>,
}

/// One connection: the ids of its last inbound messages, the id of its last
/// response, and its phase `S`.
pub struct Client<S> {
    id_cache: DuplicateFilter,
    last_id: MsgId,
    state: S,
    peer_addr: String,
    /// The ids of the responses numbered so far, in order.
    sent: Ghost<Seq<MsgId>>,
}

/// The outcome of a handshake.
pub enum Authorization {
    /// The node is known: the session is authenticated, and `Success` is to
    /// be sent.
    Accepted(Client<Authenticated>, Message),
    /// The node is unknown or the lookup failed: `Reject` is to be sent and
    /// the session ends with the error.
    Rejected(Message, Error),
}

/// A call to the backend that a request needs.
#[derive(Debug, PartialEq, Eq)]
pub enum BackendCall {
    PostResults { node: NodeId, temperature: Decimal, humidity: u8, air_pressure: Option<u16> },
    PostStats { measurement: MeasurementId, battery: Decimal, wifi_ssid: String, wifi_rssi: i8 },
    CreateNotification { node: NodeId, content: String },
    GetSettings { node: NodeId },
    CheckOsUpdate { node: NodeId, current: Version },
    SendOsUpdateStat { node: NodeId, old: Version, new: Version },
    MarkOsUpdateStat { node: NodeId, success: bool },
}

/// What the backend answered to a call.
#[derive(Debug, PartialEq, Eq)]
pub enum BackendReply {
    /// The call had no result to give.
    Done,
    /// The id of the stored measurement.
    Measurement(MeasurementId),
    /// The node's settings, if it has any.
    Settings(Option<NodeSettings>),
    /// Newer firmware and its image, if there is any.
    Update(Option<(Version, Vec<u8>)>),
    /// The id of the recorded update attempt.
    UpdateStat(UpdateStatId),
}

/// What the dispatcher does with a request.
#[derive(Debug, PartialEq, Eq)]
pub enum Step {
    /// Answer at once.
    Reply(Response),
    /// Call the backend, then complete the request with its reply.
    Query(BackendCall),
}

/// What the server does next for an authenticated session.
#[derive(Debug, PartialEq, Eq)]
pub enum Action {
    /// Send the message and read the next request.
    Send(Message),
    /// Call the backend and hand its outcome to `on_reply`.
    Query(BackendCall),
    /// Send the message if there is one, close the connection, and end the
    /// session with the outcome.
    Close(Option<Message>, Result<(), Error>),
}

impl<S> Client<S> {
    /// The id of the last response numbered (`FIRST_ID` before any).
    pub closed spec fn last_sent_id(&self) -> MsgId {
        self.last_id
    }

    /// The ids of the responses numbered so far, in order.
    pub closed spec fn sent_ids(&self) -> Seq<MsgId> {
        self.sent@
    }

    /// The ids remembered for duplicate detection, oldest first.
    pub closed spec fn recent_ids(&self) -> Seq<u64> {
        self.id_cache@
    }

    /// The ids of every inbound message accepted so far, in order.
    pub closed spec fn accepted_ids(&self) -> Seq<u64> {
        self.id_cache.history()
    }

    /// The session's phase.
    pub closed spec fn state_spec(&self) -> S {
        self.state
    }

    /// The peer's address.
    pub closed spec fn peer_addr_spec(&self) -> Seq<char> {
        self.peer_addr@
    }

    /// The remembered ids are the last accepted ones, and responses are
    /// numbered one after another from `FIRST_ID`.
    pub closed spec fn wf(&self) -> bool {
        &&& self.id_cache.wf()
        &&& consecutive(self.sent@)
        &&& self.last_id == if self.sent@.len() == 0 {
            FIRST_ID
        } else {
            self.sent@.last()
        }
        &&& self.sent@.len() > 0 ==> self.sent@[0] == FIRST_ID + 1
    }

    /// Facts that the well-formedness of a session gives its callers.
    pub proof fn lemma_wf(&self)
        requires
            self.wf(),
        ensures
            self.recent_ids() == last_n(self.accepted_ids(), ID_CACHE_SIZE as nat),
            consecutive(self.sent_ids()),
            self.sent_ids().len() == 0 ==> self.last_sent_id() == FIRST_ID,
            self.sent_ids().len() > 0 ==> self.last_sent_id() == self.sent_ids().last()
                && self.sent_ids()[0] == FIRST_ID + 1,
    {
    }

    /// The id of the last response numbered (`FIRST_ID` before any).
    pub fn last_id(&self) -> (r: MsgId)
        ensures
            r == self.last_sent_id(),
    {
        self.last_id
    }

    /// Numbers a response for sending: its id is one more than the last
    /// response's.
    pub fn send_response(&mut self, res: Response) -> (msg: Message)
        requires
            old(self).wf(),
            old(self).last_sent_id() < u64::MAX,
        ensures
            final(self).wf(),
            msg == Message::new_response_spec(res, (old(self).last_sent_id() + 1) as MsgId),
            final(self).last_sent_id() == msg.id,
            final(self).sent_ids() == old(self).sent_ids().push(msg.id),
            final(self).recent_ids() == old(self).recent_ids(),
            final(self).accepted_ids() == old(self).accepted_ids(),
            final(self).state_spec() == old(self).state_spec(),
            final(self).peer_addr_spec() == old(self).peer_addr_spec(),
    {
        self.last_id = self.last_id + 1;
        self.sent = Ghost(self.sent@.push(self.last_id));
        Message::new_response(res, self.last_id)
    }

    /// Takes a received payload, decoded (`None` when it could not be):
    /// refuses an undecodable payload (`MessageParse`), an id among the
    /// recent ones (`DuplicateMessage`), and a response (`NotRequest`).
    /// Every decoded message with a fresh id is remembered.
    pub fn receive_request(&mut self, decoded: Option<Message>) -> (r: Result<Request, Error>)
        requires
            old(self).wf(),
        ensures
            final(self).wf(),
            r == receive_outcome(decoded, old(self).recent_ids()),
            remembers(decoded, old(self).recent_ids()) ==> final(self).accepted_ids()
                == old(self).accepted_ids().push(decoded->0.id) && final(self).recent_ids()
                == recorded(old(self).recent_ids(), decoded->0.id),
            !remembers(decoded, old(self).recent_ids()) ==> final(self).accepted_ids()
                == old(self).accepted_ids() && final(self).recent_ids() == old(self).recent_ids(),
            r == Err::<Request, Error>(Error::DuplicateMessage) ==> last_n(
                old(self).accepted_ids(),
                ID_CACHE_SIZE as nat,
            ).contains(decoded->0.id),
            final(self).last_sent_id() == old(self).last_sent_id(),
            final(self).sent_ids() == old(self).sent_ids(),
            final(self).state_spec() == old(self).state_spec(),
            final(self).peer_addr_spec() == old(self).peer_addr_spec(),
    {
        let message = match decoded {
            Some(m) => m,
            None => return Err(Error::MessageParse),
        };
        match self.id_cache.check(message.id) {
            Ok(()) => {},
            Err(e) => return Err(e),
        }
        match message.take_request() {
            Some(req) => Ok(req),
            None => Err(Error::NotRequest),
        }
    }
}

impl<S> Client<S> {
    /// Decides how a session ends after failing to receive a request: the
    /// diagnostic response of the failure, if it has one, is sent first.
    pub fn on_receive_error(&mut self, e: Error) -> (r: Action)
        requires
            old(self).wf(),
            old(self).last_sent_id() < u64::MAX,
        ensures
            final(self).wf(),
            failure_response(e) is None ==> r == Action::Close(None, Err(e)) && final(self).sent_ids()
                == old(self).sent_ids(),
            failure_response(e) matches Some(res) ==> r == Action::Close(
                Some(Message::new_response_spec(res, (old(self).last_sent_id() + 1) as MsgId)),
                Err(e),
            ) && final(self).sent_ids() == old(self).sent_ids().push(
                (old(self).last_sent_id() + 1) as MsgId,
            ),
            final(self).recent_ids() == old(self).recent_ids(),
            final(self).accepted_ids() == old(self).accepted_ids(),
            final(self).state_spec() == old(self).state_spec(),
    {
        let res = match e {
            Error::MessageParse => Some(Response::InternalServerError),
            Error::NotHandshake => Some(Response::Reject),
            _ => None,
        };
        match res {
            Some(res) => Action::Close(Some(self.send_response(res)), Err(e)),
            None => Action::Close(None, Err(e)),
        }
    }
}

impl Client<Unathenticated> {
    /// A fresh session for the peer at `peer_addr`.
    pub fn new(peer_addr: String) -> (r: Self)
        ensures
            r.wf(),
            r.last_sent_id() == FIRST_ID,
            r.sent_ids() == Seq::<MsgId>::empty(),
            r.recent_ids() == Seq::<u64>::empty(),
            r.accepted_ids() == Seq::<u64>::empty(),
            r.peer_addr_spec() == peer_addr@,
    {
        Client {
            id_cache: DuplicateFilter::new(),
            last_id: FIRST_ID,
            state: Unathenticated,
            peer_addr,
            sent: Ghost(Seq::empty()),
        }
    }

    /// Takes the first received payload: it must be a handshake, whose
    /// address is returned; any other request gives `NotHandshake`.
    pub fn receive_handshake(&mut self, decoded: Option<Message>) -> (r: Result<Mac, Error>)
        requires
            old(self).wf(),
        ensures
            final(self).wf(),
            r == match receive_outcome(decoded, old(self).recent_ids()) {
                Ok(Request::Handshake { mac }) => Ok(mac),
                Ok(_) => Err(Error::NotHandshake),
                Err(e) => Err::<Mac, Error>(e),
            },
            remembers(decoded, old(self).recent_ids()) ==> final(self).accepted_ids()
                == old(self).accepted_ids().push(decoded->0.id),
            !remembers(decoded, old(self).recent_ids()) ==> final(self).accepted_ids()
                == old(self).accepted_ids(),
            final(self).last_sent_id() == old(self).last_sent_id(),
            final(self).sent_ids() == old(self).sent_ids(),
    {
        match self.receive_request(decoded) {
            Ok(Request::Handshake { mac }) => Ok(mac),
            Ok(_) => Err(Error::NotHandshake),
            Err(e) => Err(e),
        }
    }

    /// Completes the handshake of the node at `mac` with the backend's
    /// lookup of it: a known node gets `Success` and an authenticated
    /// session; an unknown one gets `Reject` and `Auth`; a failed lookup
    /// gets `Reject` and the lookup's error.
    pub fn authorize(self, mac: Mac, lookup: Result<Option<NodeId>, Error>) -> (r: Authorization)
        requires
            self.wf(),
            self.last_sent_id() < u64::MAX,
        ensures
            match lookup {
                Ok(Some(id)) => r matches Authorization::Accepted(c, m) && m
                    == Message::new_response_spec(Response::Success, (self.last_sent_id() + 1) as MsgId)
                    && c.auth_wf() && c.node_spec() == id && c.mac_spec() == mac
                    && c.last_submit_spec() is None && c.update_spec() is Unchecked
                    && c.posted_spec() == Seq::<MeasurementId>::empty()
                    && c.last_sent_id() == m.id && c.sent_ids() == self.sent_ids().push(m.id)
                    && c.recent_ids() == self.recent_ids()
                    && c.accepted_ids() == self.accepted_ids(),
                Ok(None) => r matches Authorization::Rejected(m, e) && m
                    == Message::new_response_spec(Response::Reject, (self.last_sent_id() + 1) as MsgId)
                    && e == Error::Auth,
                Err(why) => r matches Authorization::Rejected(m, e) && m
                    == Message::new_response_spec(Response::Reject, (self.last_sent_id() + 1) as MsgId)
                    && e == why,
            },
    {
        let mut client = self;
        match lookup {
            Ok(Some(id)) => {
                let mut authorized = Client::<Authenticated>::promote(client, id, mac);
                let m = authorized.send_response(Response::Success);
                Authorization::Accepted(authorized, m)
            },
            Ok(None) => {
                let m = client.send_response(Response::Reject);
                Authorization::Rejected(m, Error::Auth)
            },
            Err(why) => {
                let m = client.send_response(Response::Reject);
                Authorization::Rejected(m, why)
            },
        }
    }
}

impl Client<Authenticated> {
    /// The authenticated node.
    pub closed spec fn node_spec(&self) -> NodeId {
        self.state.id
    }

    /// The node's address.
    pub closed spec fn mac_spec(&self) -> Mac {
        self.state.mac
    }

    /// The measurement posted in this session, if any.
    pub closed spec fn last_submit_spec(&self) -> Option<MeasurementId> {
        self.state.last_submit
    }

    /// The node's update state.
    pub closed spec fn update_spec(&self) -> UpdateState {
        self.state.update_state
    }

    /// The measurements posted in this session, in order.
    pub closed spec fn posted_spec(&self) -> Seq<MeasurementId> {
        self.state.posted@
    }

    /// A well-formed session whose last submitted measurement is the last
    /// one posted in it, and whose update position lies in the firmware.
    pub closed spec fn auth_wf(&self) -> bool {
        &&& self.wf()
        &&& self.state.update_state.wf()
        &&& match self.state.last_submit {
            Some(m) => self.state.posted@.len() > 0 && self.state.posted@.last() == m,
            None => self.state.posted@.len() == 0,
        }
    }

    /// Turns a session that completed its handshake into an authenticated
    /// one for node `id` at `mac`.
    fn promote(client: Client<Unathenticated>, id: NodeId, mac: Mac) -> (r: Self)
        requires
            client.wf(),
        ensures
            r.auth_wf(),
            r.node_spec() == id,
            r.mac_spec() == mac,
            r.last_submit_spec() is None,
            r.update_spec() is Unchecked,
            r.posted_spec() == Seq::<MeasurementId>::empty(),
            r.last_sent_id() == client.last_sent_id(),
            r.sent_ids() == client.sent_ids(),
            r.recent_ids() == client.recent_ids(),
            r.accepted_ids() == client.accepted_ids(),
            r.peer_addr_spec() == client.peer_addr_spec(),
    {
        Client {
            id_cache: client.id_cache,
            last_id: client.last_id,
            state: Authenticated {
                id,
                mac,
                last_submit: None,
                update_state: UpdateState::Unchecked,
                posted: Ghost(Seq::empty()),
            },
            peer_addr: client.peer_addr,
            sent: client.sent,
        }
    }

    /// The authenticated node.
    pub fn id(&self) -> (r: NodeId)
        ensures
            r == self.node_spec(),
    {
        self.state.id
    }

    /// The node's address.
    pub fn mac(&self) -> (r: &Mac)
        ensures
            *r == self.mac_spec(),
    {
        &self.state.mac
    }

    /// The measurement posted in this session, if any.
    pub fn last_submit(&self) -> (r: Option<MeasurementId>)
        ensures
            r == self.last_submit_spec(),
    {
        self.state.last_submit
    }

    /// Records the measurement posted in this session.
    pub fn set_last_submit(&mut self, value: MeasurementId)
        requires
            old(self).auth_wf(),
        ensures
            final(self).auth_wf(),
            same_session(*old(self), *final(self)),
            final(self).last_submit_spec() == Some(value),
            final(self).posted_spec() == old(self).posted_spec().push(value),
            final(self).node_spec() == old(self).node_spec(),
            final(self).update_spec() == old(self).update_spec(),
            final(self).last_sent_id() == old(self).last_sent_id(),
            final(self).sent_ids() == old(self).sent_ids(),
            final(self).recent_ids() == old(self).recent_ids(),
            final(self).accepted_ids() == old(self).accepted_ids(),
    {
        self.state.last_submit = Some(value);
        self.state.posted = Ghost(self.state.posted@.push(value));
    }

    /// Records that the node's firmware is up to date.
    pub fn mark_up_to_date(&mut self)
        requires
            old(self).auth_wf(),
        ensures
            final(self).auth_wf(),
            same_session(*old(self), *final(self)),
            final(self).update_spec() is UpToDate,
            final(self).last_submit_spec() == old(self).last_submit_spec(),
            final(self).posted_spec() == old(self).posted_spec(),
            final(self).node_spec() == old(self).node_spec(),
            final(self).last_sent_id() == old(self).last_sent_id(),
            final(self).sent_ids() == old(self).sent_ids(),
            final(self).recent_ids() == old(self).recent_ids(),
            final(self).accepted_ids() == old(self).accepted_ids(),
    {
        self.state.update_state = UpdateState::UpToDate;
    }

    /// Records that firmware `new_version` is available to a node at
    /// `current_version`; its delivery starts at the first byte.
    pub fn store_update_check_result(
        &mut self,
        current_version: Version,
        new_version: Version,
        blob: Vec<u8>,
    )
        requires
            old(self).auth_wf(),
        ensures
            final(self).auth_wf(),
            same_session(*old(self), *final(self)),
            final(self).update_spec() matches UpdateState::Available {
                current,
                new,
                blob: b,
                position,
            } && current == current_version && new == new_version && b@ == blob@ && position
                == 0,
            final(self).last_submit_spec() == old(self).last_submit_spec(),
            final(self).posted_spec() == old(self).posted_spec(),
            final(self).node_spec() == old(self).node_spec(),
            final(self).last_sent_id() == old(self).last_sent_id(),
            final(self).sent_ids() == old(self).sent_ids(),
            final(self).recent_ids() == old(self).recent_ids(),
            final(self).accepted_ids() == old(self).accepted_ids(),
    {
        self.state.update_state = UpdateState::Available {
            current: current_version,
            new: new_version,
            blob,
            position: 0,
        };
    }

    /// Delivers at most `size` further bytes of the available firmware, and
    /// moves past them; an empty chunk means that all was delivered. `None`
    /// when no firmware is available.
    pub fn update_chunk(&mut self, size: usize) -> (r: Option<Vec<u8>>)
        requires
            old(self).auth_wf(),
        ensures
            final(self).auth_wf(),
            same_session(*old(self), *final(self)),
            !(old(self).update_spec() is Available) ==> r is None && final(self).update_spec()
                == old(self).update_spec(),
            old(self).update_spec() is Available ==> r is Some && chunk_delivered(
                old(self).update_spec(),
                final(self).update_spec(),
                r->0@,
                size as nat,
            ),
            final(self).last_submit_spec() == old(self).last_submit_spec(),
            final(self).posted_spec() == old(self).posted_spec(),
            final(self).node_spec() == old(self).node_spec(),
            final(self).last_sent_id() == old(self).last_sent_id(),
            final(self).sent_ids() == old(self).sent_ids(),
            final(self).recent_ids() == old(self).recent_ids(),
            final(self).accepted_ids() == old(self).accepted_ids(),
    {
        match &mut self.state.update_state {
            UpdateState::Available { blob, position, .. } => {
                let remaining = blob.len() - *position;
                let take = if size < remaining {
                    size
                } else {
                    remaining
                };
                let start = *position;
                let end = start + take;
                let mut chunk: Vec<u8> = Vec::new();
                let mut j: usize = start;
                while j < end
                    invariant
                        start <= j <= end,
                        end <= blob@.len(),
                        chunk@ == blob@.subrange(start as int, j as int),
                    decreases end - j,
                {
                    chunk.push(blob[j]);
                    j = j + 1;
                    assert(chunk@ =~= blob@.subrange(start as int, j as int));
                }
                *position = end;
                Some(chunk)
            },
            _ => None,
        }
    }

    /// The version that the node reported when firmware was found for it.
    pub fn current_version(&self) -> (r: Option<Version>)
        ensures
            r == match self.update_spec() {
                UpdateState::Available { current, .. } => Some(current),
                _ => None::<Version>,
            },
    {
        match &self.state.update_state {
            UpdateState::Available { current, .. } => Some(*current),
            _ => None,
        }
    }

    /// The version of the firmware found for the node.
    pub fn update_version(&self) -> (r: Option<Version>)
        ensures
            r == match self.update_spec() {
                UpdateState::Available { new, .. } => Some(new),
                _ => None::<Version>,
            },
    {
        match &self.state.update_state {
            UpdateState::Available { new, .. } => Some(*new),
            _ => None,
        }
    }

    /// Ends the session: numbers the reason for closing, if there is one,
    /// for sending before the connection is shut down.
    pub fn shutdown(&mut self, reason: Option<Response>) -> (r: Option<Message>)
        requires
            old(self).auth_wf(),
            old(self).last_sent_id() < u64::MAX,
        ensures
            final(self).auth_wf(),
            reason is None ==> r is None && final(self).sent_ids() == old(self).sent_ids()
                && final(self).last_sent_id() == old(self).last_sent_id(),
            reason matches Some(res) ==> r == Some(
                Message::new_response_spec(res, (old(self).last_sent_id() + 1) as MsgId),
            ) && final(self).sent_ids() == old(self).sent_ids().push(r->0.id)
                && final(self).last_sent_id() == r->0.id,
            final(self).state_spec() == old(self).state_spec(),
            final(self).recent_ids() == old(self).recent_ids(),
            final(self).accepted_ids() == old(self).accepted_ids(),
    {
        match reason {
            Some(res) => Some(self.send_response(res)),
            None => None,
        }
    }

    /// Dispatches a request other than `Bye` (which ends the session before
    /// dispatch): answers it at once, or names the backend call it needs.
    pub fn handle_request(&mut self, req: Request) -> (r: Step)
        requires
            old(self).auth_wf(),
            !(req is Bye),
        ensures
            final(self).auth_wf(),
            dispatched(*old(self), *final(self), req, r),
            final(self).last_sent_id() == old(self).last_sent_id(),
            final(self).sent_ids() == old(self).sent_ids(),
    {
        match req {
            Request::Ping => Step::Reply(Response::Pong),
            Request::Handshake { .. } => Step::Reply(Response::InvalidRequest),
            Request::PostResults { temperature, humidity, air_pressure } => {
                if self.last_submit().is_some() {
                    Step::Reply(Response::InvalidRequest)
                } else {
                    Step::Query(
                        BackendCall::PostResults {
                            node: self.id(),
                            temperature,
                            humidity,
                            air_pressure,
                        },
                    )
                }
            },
            Request::PostStats { battery, wifi_ssid, wifi_rssi } => match self.last_submit() {
                Some(measurement) => Step::Query(
                    BackendCall::PostStats { measurement, battery, wifi_ssid, wifi_rssi },
                ),
                None => Step::Reply(Response::InvalidRequest),
            },
            Request::SendNotification(content) => Step::Query(
                BackendCall::CreateNotification { node: self.id(), content },
            ),
            Request::GetSettings => Step::Query(BackendCall::GetSettings { node: self.id() }),
            Request::UpdateCheck(current) => Step::Query(
                BackendCall::CheckOsUpdate { node: self.id(), current },
            ),
            Request::NextUpdateChunk(size) => {
                let current = self.current_version();
                let new = self.update_version();
                match self.update_chunk(size) {
                    None => Step::Reply(Response::InvalidRequest),
                    Some(chunk) => {
                        if chunk.len() == 0 {
                            assert(chunk@ =~= Seq::<u8>::empty());
                            match (current, new) {
                                (Some(old), Some(new)) => Step::Query(
                                    BackendCall::SendOsUpdateStat { node: self.id(), old, new },
                                ),
                                _ => Step::Reply(Response::InvalidRequest),
                            }
                        } else {
                            Step::Reply(Response::UpdatePart(chunk))
                        }
                    },
                }
            },
            Request::ReportFirmwareUpdate(success) => Step::Query(
                BackendCall::MarkOsUpdateStat { node: self.id(), success },
            ),
            Request::Bye => Step::Reply(Response::InvalidRequest),
        }
    }

    /// Completes a request with the backend's reply to its call, and gives
    /// the response to send.
    pub fn finish_request(&mut self, call: BackendCall, reply: BackendReply) -> (r: Response)
        requires
            old(self).auth_wf(),
        ensures
            final(self).auth_wf(),
            completed(*old(self), *final(self), call, reply, r),
            final(self).last_sent_id() == old(self).last_sent_id(),
            final(self).sent_ids() == old(self).sent_ids(),
    {
        match (call, reply) {
            (BackendCall::PostResults { .. }, BackendReply::Measurement(id)) => {
                self.set_last_submit(id);
                Response::Success
            },
            (BackendCall::CheckOsUpdate { current, .. }, BackendReply::Update(found)) => {
                match found {
                    Some((version, blob)) => {
                        self.store_update_check_result(current, version, blob);
                        Response::UpdateAvailable(version)
                    },
                    None => {
                        self.mark_up_to_date();
                        Response::FirmwareUpToDate
                    },
                }
            },
            (BackendCall::GetSettings { .. }, BackendReply::Settings(values)) => Response::Settings(
                values,
            ),
            (BackendCall::SendOsUpdateStat { .. }, BackendReply::UpdateStat(_)) => Response::UpdateEnd,
            (BackendCall::PostStats { .. }, BackendReply::Done) => Response::Success,
            (BackendCall::CreateNotification { .. }, BackendReply::Done) => Response::Success,
            (BackendCall::MarkOsUpdateStat { .. }, BackendReply::Done) => Response::Success,
            _ => Response::InternalServerError,
        }
    }

    /// Decides what follows a received request at time `now`: a request
    /// beyond the session's rate ends it with `RateLimitExceeded` and
    /// `TooManyRequests`; `Bye` ends
    /// it without a response; any other request is dispatched, and answered
    /// or handed to the backend.
    pub fn on_request(&mut self, limiter: &mut RateLimiter, now: u64, req: Request) -> (r: Action)
        requires
            old(self).auth_wf(),
            old(limiter).wf(),
            not_after(old(limiter).history(), now),
            old(self).last_sent_id() < u64::MAX,
        ensures
            final(self).auth_wf(),
            final(limiter).wf(),
            final(limiter).window_spec() == old(limiter).window_spec(),
            final(limiter).budget_spec() == old(limiter).budget_spec(),
            final(limiter).history() == if would_exceed(*old(limiter), now) {
                old(limiter).history()
            } else {
                old(limiter).history().push(now)
            },
            would_exceed(*old(limiter), now) ==> r == Action::Close(
                Some(
                    Message::new_response_spec(
                        Response::RateLimitExceeded,
                        (old(self).last_sent_id() + 1) as MsgId,
                    ),
                ),
                Err(Error::TooManyRequests),
            ) && final(self).sent_ids() == old(self).sent_ids().push(
                (old(self).last_sent_id() + 1) as MsgId,
            ) && same_session(*old(self), *final(self)) && same_progress(*old(self), *final(self)),
            !would_exceed(*old(limiter), now) && req is Bye ==> r == Action::Close(None, Ok(()))
                && final(self).sent_ids() == old(self).sent_ids() && same_session(
                *old(self),
                *final(self),
            ) && same_progress(*old(self), *final(self)),
            !would_exceed(*old(limiter), now) && !(req is Bye) ==> match r {
                Action::Send(m) => {
                    &&& m.id == old(self).last_sent_id() + 1
                    &&& final(self).sent_ids() == old(self).sent_ids().push(m.id)
                    &&& match m.payload {
                        Payload::Response(res) => dispatched(
                            *old(self),
                            *final(self),
                            req,
                            Step::Reply(res),
                        ),
                        _ => false,
                    }
                },
                Action::Query(call) => {
                    &&& final(self).sent_ids() == old(self).sent_ids()
                    &&& dispatched(*old(self), *final(self), req, Step::Query(call))
                },
                Action::Close(..) => false,
            },
    {
        if limiter.hit(now) {
            let m = self.send_response(Response::RateLimitExceeded);
            return Action::Close(Some(m), Err(Error::TooManyRequests));
        }
        if let Request::Bye = req {
            return Action::Close(None, Ok(()));
        }
        match self.handle_request(req) {
            Step::Reply(res) => Action::Send(self.send_response(res)),
            Step::Query(call) => Action::Query(call),
        }
    }

    /// Decides what follows the backend's outcome for a call: a reply
    /// completes the request and is answered; a failure ends the session with
    /// `InternalServerError` and the failure.
    pub fn on_reply(&mut self, call: BackendCall, outcome: Result<BackendReply, Error>) -> (r:
        Action)
        requires
            old(self).auth_wf(),
            old(self).last_sent_id() < u64::MAX,
        ensures
            final(self).auth_wf(),
            final(self).sent_ids() == old(self).sent_ids().push(
                (old(self).last_sent_id() + 1) as MsgId,
            ),
            match outcome {
                Ok(reply) => match r {
                    Action::Send(m) => {
                        &&& m.id == old(self).last_sent_id() + 1
                        &&& match m.payload {
                            Payload::Response(res) => completed(
                                *old(self),
                                *final(self),
                                call,
                                reply,
                                res,
                            ),
                            _ => false,
                        }
                    },
                    _ => false,
                },
                Err(e) => {
                    &&& r == Action::Close(
                        Some(
                            Message::new_response_spec(
                                Response::InternalServerError,
                                (old(self).last_sent_id() + 1) as MsgId,
                            ),
                        ),
                        Err(e),
                    )
                    &&& same_session(*old(self), *final(self))
                    &&& same_progress(*old(self), *final(self))
                },
            },
    {
        match outcome {
            Ok(reply) => {
                let res = self.finish_request(call, reply);
                Action::Send(self.send_response(res))
            },
            Err(e) => {
                let m = self.send_response(Response::InternalServerError);
                Action::Close(Some(m), Err(e))
            },
        }
    }

    /// Decides what follows when the node stayed silent for longer than
    /// allowed: the session ends with `Stalling` and `StallTimeExceeded`.
    pub fn on_stall(&mut self) -> (r: Action)
        requires
            old(self).auth_wf(),
            old(self).last_sent_id() < u64::MAX,
        ensures
            final(self).auth_wf(),
            r == Action::Close(
                Some(
                    Message::new_response_spec(
                        Response::Stalling,
                        (old(self).last_sent_id() + 1) as MsgId,
                    ),
                ),
                Err(Error::StallTimeExceeded),
            ),
            final(self).sent_ids() == old(self).sent_ids().push(
                (old(self).last_sent_id() + 1) as MsgId,
            ),
            same_session(*old(self), *final(self)),
            same_progress(*old(self), *final(self)),
    {
        let m = self.send_response(Response::Stalling);
        Action::Close(Some(m), Err(Error::StallTimeExceeded))
    }
}

/// Two states of one authenticated session agree on everything but the
/// numbering of responses and the progress of requests.
pub open spec fn same_session(a: Client<Authenticated>, b: Client<Authenticated>) -> bool {
    &&& a.node_spec() == b.node_spec()
    &&& a.mac_spec() == b.mac_spec()
    &&& a.recent_ids() == b.recent_ids()
    &&& a.accepted_ids() == b.accepted_ids()
    &&& a.peer_addr_spec() == b.peer_addr_spec()
}

/// Two states of one session agree on the posted measurements and the
/// update state.
pub open spec fn same_progress(a: Client<Authenticated>, b: Client<Authenticated>) -> bool {
    &&& a.last_submit_spec() == b.last_submit_spec()
    &&& a.posted_spec() == b.posted_spec()
    &&& a.update_spec() == b.update_spec()
}

/// What the dispatcher does with a request other than a chunk request, in
/// a session in state `c`.
pub open spec fn planned(c: Client<Authenticated>, req: Request) -> Step {
    match req {
        Request::Ping => Step::Reply(Response::Pong),
        Request::PostResults { temperature, humidity, air_pressure } => {
            if c.last_submit_spec() is Some {
                Step::Reply(Response::InvalidRequest)
            } else {
                Step::Query(
                    BackendCall::PostResults {
                        node: c.node_spec(),
                        temperature,
                        humidity,
                        air_pressure,
                    },
                )
            }
        },
        Request::PostStats { battery, wifi_ssid, wifi_rssi } => match c.last_submit_spec() {
            Some(measurement) => Step::Query(
                BackendCall::PostStats { measurement, battery, wifi_ssid, wifi_rssi },
            ),
            None => Step::Reply(Response::InvalidRequest),
        },
        Request::SendNotification(content) => Step::Query(
            BackendCall::CreateNotification { node: c.node_spec(), content },
        ),
        Request::GetSettings => Step::Query(BackendCall::GetSettings { node: c.node_spec() }),
        Request::UpdateCheck(current) => Step::Query(
            BackendCall::CheckOsUpdate { node: c.node_spec(), current },
        ),
        Request::ReportFirmwareUpdate(success) => Step::Query(
            BackendCall::MarkOsUpdateStat { node: c.node_spec(), success },
        ),
        _ => Step::Reply(Response::InvalidRequest),
    }
}

/// The dispatcher took `req` in state `before` to state `after` with `step`.
/// A chunk request delivers the next bytes of the available firmware; once
/// none are left, it asks the backend to record the update; without
/// available firmware it is invalid. Other requests change nothing and take
/// the `planned` step.
pub open spec fn dispatched(
    before: Client<Authenticated>,
    after: Client<Authenticated>,
    req: Request,
    step: Step,
) -> bool {
    &&& same_session(before, after)
    &&& after.last_submit_spec() == before.last_submit_spec()
    &&& after.posted_spec() == before.posted_spec()
    &&& match req {
        Request::NextUpdateChunk(size) => match before.update_spec() {
            UpdateState::Available { current, new, .. } => match step {
                Step::Reply(Response::UpdatePart(chunk)) => {
                    &&& chunk@.len() > 0
                    &&& chunk_delivered(
                        before.update_spec(),
                        after.update_spec(),
                        chunk@,
                        size as nat,
                    )
                },
                Step::Query(BackendCall::SendOsUpdateStat { node, old, new: n }) => {
                    &&& node == before.node_spec()
                    &&& old == current
                    &&& n == new
                    &&& chunk_delivered(
                        before.update_spec(),
                        after.update_spec(),
                        Seq::empty(),
                        size as nat,
                    )
                },
                _ => false,
            },
            _ => step == Step::Reply(Response::InvalidRequest) && after.update_spec()
                == before.update_spec(),
        },
        _ => step == planned(before, req) && after.update_spec() == before.update_spec(),
    }
}

/// The backend's `reply` to `call` took the session from `before` to
/// `after`, with response `res`. A stored measurement is remembered for the
/// statistics that follow; found firmware becomes available from its first
/// byte; a reply that does not answer the call gives `InternalServerError`.
pub open spec fn completed(
    before: Client<Authenticated>,
    after: Client<Authenticated>,
    call: BackendCall,
    reply: BackendReply,
    res: Response,
) -> bool {
    &&& same_session(before, after)
    &&& match (call, reply) {
        (BackendCall::PostResults { .. }, BackendReply::Measurement(id)) => {
            &&& res == Response::Success
            &&& after.last_submit_spec() == Some(id)
            &&& after.posted_spec() == before.posted_spec().push(id)
            &&& after.update_spec() == before.update_spec()
        },
        (BackendCall::CheckOsUpdate { current, .. }, BackendReply::Update(Some((v, blob)))) => {
            &&& res == Response::UpdateAvailable(v)
            &&& after.last_submit_spec() == before.last_submit_spec()
            &&& after.posted_spec() == before.posted_spec()
            &&& after.update_spec() matches UpdateState::Available {
                current: c,
                new: n,
                blob: b,
                position: p,
            }
            &&& after.update_spec()->current == current
            &&& after.update_spec()->new == v
            &&& after.update_spec()->blob@ == blob@
            &&& after.update_spec()->position == 0
        },
        (BackendCall::CheckOsUpdate { .. }, BackendReply::Update(None)) => {
            &&& res == Response::FirmwareUpToDate
            &&& after.last_submit_spec() == before.last_submit_spec()
            &&& after.posted_spec() == before.posted_spec()
            &&& after.update_spec() is UpToDate
        },
        (BackendCall::GetSettings { .. }, BackendReply::Settings(v)) => {
            &&& res == Response::Settings(v)
            &&& same_progress(before, after)
        },
        (BackendCall::SendOsUpdateStat { .. }, BackendReply::UpdateStat(_)) => {
            &&& res == Response::UpdateEnd
            &&& same_progress(before, after)
        },
        (BackendCall::PostStats { .. }, BackendReply::Done) => {
            &&& res == Response::Success
            &&& same_progress(before, after)
        },
        (BackendCall::CreateNotification { .. }, BackendReply::Done) => {
            &&& res == Response::Success
            &&& same_progress(before, after)
        },
        (BackendCall::MarkOsUpdateStat { .. }, BackendReply::Done) => {
            &&& res == Response::Success
            &&& same_progress(before, after)
        },
        _ => {
            &&& res == Response::InternalServerError
            &&& same_progress(before, after)
        },
    }
}

/// What reading one frame gives: the framing error of its length prefix, or
/// what receiving its decoded payload gives.
pub open spec fn frame_outcome(
    header: Seq<u8>,
    capacity: nat,
    decoded: Option<Message>,
    recent: Seq<u64>,
) -> Result<Request, Error> {
    match frame_length_result(be_value(header), capacity) {
        Err(e) => Err(e),
        Ok(_) => receive_outcome(decoded, recent),
    }
}

/// Whatever frame arrives, reading it either yields the request of a decoded
/// message whose id is not among the recent ones, or fails with one of the
/// framing errors.
pub proof fn lemma_frame_outcome(
    header: Seq<u8>,
    capacity: nat,
    decoded: Option<Message>,
    recent: Seq<u64>,
)
    ensures
        match frame_outcome(header, capacity, decoded, recent) {
            Ok(req) => {
                &&& decoded is Some
                &&& decoded->0.payload == Payload::Request(req)
                &&& !recent.contains(decoded->0.id)
            },
            Err(e) => e.is_framing(),
        },
{
}

/// A duplicate is only reported for an id among the last `ID_CACHE_SIZE`
/// ids that the session accepted.
pub proof fn lemma_duplicate_was_recent<S>(c: Client<S>, decoded: Option<Message>)
    requires
        c.wf(),
        receive_outcome(decoded, c.recent_ids()) == Err::<Request, Error>(
            Error::DuplicateMessage,
        ),
    ensures
        decoded is Some,
        last_n(c.accepted_ids(), ID_CACHE_SIZE as nat).contains(decoded->0.id),
{
    c.lemma_wf();
}

/// The responses of a session are numbered one after another: each id is
/// one more than the one of the response before, starting after `FIRST_ID`.
pub proof fn lemma_response_ids_consecutive<S>(c: Client<S>, i: int)
    requires
        c.wf(),
        0 <= i < c.sent_ids().len() - 1,
    ensures
        c.sent_ids()[i + 1] == c.sent_ids()[i] + 1,
        c.sent_ids()[0] == FIRST_ID + 1,
{
    c.lemma_wf();
}

/// Statistics are only accepted for a measurement posted earlier in the
/// same session.
pub proof fn lemma_stats_follow_results(
    before: Client<Authenticated>,
    after: Client<Authenticated>,
    req: Request,
    step: Step,
)
    requires
        before.auth_wf(),
        dispatched(before, after, req, step),
        step is Query,
        step->Query_0 is PostStats,
    ensures
        req is PostStats,
        before.posted_spec().contains(step->Query_0->PostStats_measurement),
{
    let m = step->Query_0->PostStats_measurement;
    assert(before.posted_spec()[before.posted_spec().len() - 1] == m);
}

/// A chunk request is only served while firmware is available, which only
/// an update check that found firmware makes so; a chunk of bytes is only
/// sent while some remain.
pub proof fn lemma_chunk_needs_update_check(
    before: Client<Authenticated>,
    after: Client<Authenticated>,
    size: usize,
    step: Step,
)
    requires
        before.auth_wf(),
        dispatched(before, after, Request::NextUpdateChunk(size), step),
        step != Step::Reply(Response::InvalidRequest),
    ensures
        before.update_spec() is Available,
        step matches Step::Reply(Response::UpdatePart(_)) ==> before.update_spec()->position
            < before.update_spec()->blob@.len(),
{
}

/// Firmware only becomes available through an update check that found it.
pub proof fn lemma_available_from_update_check(
    before: Client<Authenticated>,
    after: Client<Authenticated>,
    call: BackendCall,
    reply: BackendReply,
    res: Response,
)
    requires
        completed(before, after, call, reply, res),
        !(before.update_spec() is Available),
        after.update_spec() is Available,
    ensures
        call is CheckOsUpdate,
        reply matches BackendReply::Update(Some(_)),
        res == Response::UpdateAvailable(after.update_spec()->new),
{
}

/// Once results are posted in a session, posting results again is answered
/// with `InvalidRequest` and calls no backend.
pub proof fn lemma_second_post_rejected(
    before: Client<Authenticated>,
    mid: Client<Authenticated>,
    call: BackendCall,
    id: MeasurementId,
    res: Response,
    after: Client<Authenticated>,
    req: Request,
    step: Step,
)
    requires
        call is PostResults,
        completed(before, mid, call, BackendReply::Measurement(id), res),
        req is PostResults,
        dispatched(mid, after, req, step),
    ensures
        step == Step::Reply(Response::InvalidRequest),
{
}

/// A chunk request of `size` delivered `chunk`, the next bytes of the
/// available firmware, and moved past them.
pub open spec fn chunk_delivered(
    before: UpdateState,
    after: UpdateState,
    chunk: Seq<u8>,
    size: nat,
) -> bool {
    match (before, after) {
        (
            UpdateState::Available { current, new, blob, position },
            UpdateState::Available {
                current: next_current,
                new: next_new,
                blob: next_blob,
                position: next_position,
            },
        ) => {
            &&& chunk == blob@.subrange(
                position as int,
                position + chunk_len(blob@.len(), position as nat, size),
            )
            &&& next_current == current
            &&& next_new == new
            &&& next_blob@ == blob@
            &&& next_position == position + chunk.len()
        },
        _ => false,
    }
}

/// The number of bytes that a chunk request of `size` delivers from
/// `position` in firmware of `len` bytes.
pub open spec fn chunk_len(len: nat, position: nat, size: nat) -> nat {
    if position + size <= len {
        size
    } else if position <= len {
        (len - position) as nat
    } else {
        0
    }
}

} // verus!
