//! ChainX-specific network protocol: which peers are connected, which of
//! them claimed the authority role, and which session key each validator
//! announced.
//!
//! The consensus gossip and the network context live with the caller; the
//! protocol tells the caller what to do with them through the values that
//! its handlers return.

use std::collections::HashMap;

use vstd::prelude::*;

use crate::primitives::{H256, NodeIndex, SessionKey};
use crate::validator_map::ValidatorMap;

verus! {

broadcast use {vstd::std_specs::hash::group_hash_axioms, vstd::array::group_array_axioms};

/// ChainX protocol id.
pub const CHAINX_PROTOCOL_ID: [u8; 3] = [112, 99, 120];

/// The byte that tags a `Message::SessionKey` on the wire.
pub const SESSION_KEY_TAG: u8 = 0;

/// What the protocol knows of one connected peer.
#[derive(Clone, Copy, Debug)]
pub struct PeerInfo {
    /// The session key that the peer announced, if any.
    pub validator_key: Option<SessionKey>,
    /// Whether the peer connected with the authority role.
    pub claimed_validator: bool,
}

/// A `PeerInfo` with its key taken by its bytes.
pub struct PeerModel {
    pub validator_key: Option<Seq<u8>>,
    pub claimed_validator: bool,
}

impl View for PeerInfo {
    type V = PeerModel;

    open spec fn view(&self) -> PeerModel {
        PeerModel {
            validator_key: match self.validator_key {
                Some(k) => Some(k@),
                None => None,
            },
            claimed_validator: self.claimed_validator,
        }
    }
}

/// The consensus session that this node currently takes part in.
#[derive(Clone, Copy, Debug)]
pub struct CurrentConsensus {
    pub parent_hash: H256,
    pub local_session_key: SessionKey,
}

/// ChainX-specific messages.
#[derive(Clone, Copy, Debug)]
pub enum Message {
    /// As a validator, tell the peer your current session key.
    SessionKey(SessionKey),
}

/// A `Message` with its key taken by its bytes.
pub enum MessageModel {
    SessionKey(Seq<u8>),
}

impl View for Message {
    type V = MessageModel;

    open spec fn view(&self) -> MessageModel {
        match self {
            Message::SessionKey(k) => MessageModel::SessionKey(k@),
        }
    }
}

/// The wire form of a message: the variant's tag, then its payload.
pub open spec fn spec_encode(m: MessageModel) -> Seq<u8> {
    match m {
        MessageModel::SessionKey(k) => seq![SESSION_KEY_TAG] + k,
    }
}

/// The message that a byte string starts with, if any: the tag of the
/// session-key variant followed by at least 32 bytes. Bytes after the
/// message are not read.
pub open spec fn spec_decode(raw: Seq<u8>) -> Option<MessageModel> {
    if raw.len() >= 33 && raw[0] == SESSION_KEY_TAG {
        Some(MessageModel::SessionKey(raw.subrange(1, 33)))
    } else {
        None
    }
}

impl Message {
    /// The wire form of this message.
    pub fn encode(&self) -> (bytes: Vec<u8>)
        ensures
            bytes@ == spec_encode(self@),
            bytes@.len() == 33,
            bytes@[0] == SESSION_KEY_TAG,
            match self {
                Message::SessionKey(key) => forall|i: int| 0 <= i < 32 ==> bytes@[i + 1] == key@[i],
            },
    {
        match self {
            Message::SessionKey(key) => {
                let mut bytes: Vec<u8> = Vec::new();
                bytes.push(SESSION_KEY_TAG);
                let mut i: usize = 0;
                while i < 32
                    invariant
                        i <= 32,
                        key@.len() == 32,
                        bytes@ == seq![SESSION_KEY_TAG] + key@.subrange(0, i as int),
                    decreases 32 - i,
                {
                    bytes.push(key[i]);
                    i = i + 1;
                    assert(bytes@ =~= seq![SESSION_KEY_TAG] + key@.subrange(0, i as int));
                }
                assert(key@.subrange(0, 32) =~= key@);
                bytes
            },
        }
    }

    /// Reads a message from the start of `raw`.
    pub fn decode(raw: &[u8]) -> (msg: Option<Message>)
        ensures
            msg is Some <==> (raw@.len() >= 33 && raw@[0] == SESSION_KEY_TAG),
            match msg {
                Some(Message::SessionKey(key)) => forall|i: int| 0 <= i < 32 ==> key@[i] == raw@[i + 1],
                None => true,
            },
            match msg {
                Some(m) => spec_decode(raw@) == Some(m@),
                None => spec_decode(raw@) is None,
            },
    {
        if raw.len() < 33 || raw[0] != SESSION_KEY_TAG {
            return None;
        }
        let mut key: SessionKey = [0u8; 32];
        let mut i: usize = 0;
        while i < 32
            invariant
                i <= 32,
                raw@.len() >= 33,
                key@.len() == 32,
                forall|j: int| 0 <= j < i ==> key@[j] == raw@[j + 1],
            decreases 32 - i,
        {
            key.set(i, raw[i + 1]);
            i = i + 1;
        }
        assert(key@ =~= raw@.subrange(1, 33));
        Some(Message::SessionKey(key))
    }
}

/// Decoding the wire form of a message, with any bytes after it, gives the
/// message back.
pub proof fn lemma_message_round_trip(m: Message, rest: Seq<u8>)
    ensures
        spec_decode(spec_encode(m@) + rest) == Some(m@),
{
    match m {
        Message::SessionKey(k) => {
            let bytes = spec_encode(m@) + rest;
            assert(bytes.subrange(1, 33) =~= k@);
        },
    }
}

/// Why a peer is reported to the network.
#[derive(Clone, Copy, Debug, PartialEq, Eq, Structural)]
pub enum ReportReason {
    /// The peer sent a session key without having claimed the authority role.
    SessionKeyWithoutAuthority,
    /// The peer sent chain-specific bytes that are no message.
    InvalidMessageFormat,
}

impl ReportReason {
    /// The text with which the peer is reported.
    pub fn description(&self) -> (text: &'static str)
        ensures
            text@ == match self {
                ReportReason::SessionKeyWithoutAuthority => "Session key broadcasted without setting authority role"@,
                ReportReason::InvalidMessageFormat => "Invalid chainx protocol message format"@,
            },
    {
        match self {
            ReportReason::SessionKeyWithoutAuthority => "Session key broadcasted without setting authority role",
            ReportReason::InvalidMessageFormat => "Invalid chainx protocol message format",
        }
    }
}

/// What the caller has to do after a handler returns.
#[derive(Clone, Copy, Debug, PartialEq, Eq, Structural)]
pub enum ProtocolAction {
    /// Nothing.
    Nothing,
    /// Hand the BFT message to the consensus gossip.
    ForwardBft,
    /// Report the peer as misbehaving.
    ReportPeer(NodeIndex, ReportReason),
}

/// A message from a peer, as the generic network layer delivers it.
pub enum IncomingMessage {
    /// A BFT consensus message; its payload stays with the caller.
    Bft,
    /// Chain-specific bytes.
    ChainSpecific(Vec<u8>),
    /// Any other message of the generic protocol.
    Other,
}

/// The state of the protocol, keys taken by their bytes.
pub struct ProtocolModel {
    pub peers: Map<NodeIndex, PeerModel>,
    pub validators: Map<Seq<u8>, NodeIndex>,
    pub live_consensus: Option<CurrentConsensus>,
}

/// The state after `who` connected, with the authority role or not.
pub open spec fn after_connect(s: ProtocolModel, who: NodeIndex, authority: bool) -> ProtocolModel {
    ProtocolModel {
        peers: s.peers.insert(who, PeerModel { validator_key: None, claimed_validator: authority }),
        validators: s.validators,
        live_consensus: s.live_consensus,
    }
}

/// The state after `who` disconnected: the peer is forgotten, and so is the
/// key that it announced.
pub open spec fn after_disconnect(s: ProtocolModel, who: NodeIndex) -> ProtocolModel {
    if s.peers.contains_key(who) {
        ProtocolModel {
            peers: s.peers.remove(who),
            validators: match s.peers[who].validator_key {
                Some(k) => s.validators.remove(k),
                None => s.validators,
            },
            live_consensus: s.live_consensus,
        }
    } else {
        s
    }
}

/// A session key from `who` is taken: the peer is connected and claimed the
/// authority role.
pub open spec fn session_key_accepted(s: ProtocolModel, who: NodeIndex) -> bool {
    s.peers.contains_key(who) && s.peers[who].claimed_validator
}

/// The state after `who` announced `key`.
pub open spec fn after_session_key(s: ProtocolModel, who: NodeIndex, key: Seq<u8>) -> ProtocolModel {
    if session_key_accepted(s, who) {
        let others = match s.peers[who].validator_key {
            Some(k) => s.validators.remove(k),
            None => s.validators,
        };
        ProtocolModel {
            peers: s.peers.insert(who, PeerModel { validator_key: Some(key), claimed_validator: true }),
            validators: others.insert(key, who),
            live_consensus: s.live_consensus,
        }
    } else {
        s
    }
}

/// What the caller is told after `who` announced a session key.
pub open spec fn session_key_action(s: ProtocolModel, who: NodeIndex) -> ProtocolAction {
    if s.peers.contains_key(who) && !s.peers[who].claimed_validator {
        ProtocolAction::ReportPeer(who, ReportReason::SessionKeyWithoutAuthority)
    } else {
        ProtocolAction::Nothing
    }
}

/// The state after a chain-specific message `raw` arrived from `who`.
pub open spec fn after_chain_specific(s: ProtocolModel, who: NodeIndex, raw: Seq<u8>) -> ProtocolModel {
    match spec_decode(raw) {
        Some(MessageModel::SessionKey(k)) => after_session_key(s, who, k),
        None => s,
    }
}

/// What the caller is told after a chain-specific message `raw` arrived from `who`.
pub open spec fn chain_specific_action(s: ProtocolModel, who: NodeIndex, raw: Seq<u8>) -> ProtocolAction {
    match spec_decode(raw) {
        Some(MessageModel::SessionKey(_)) => session_key_action(s, who),
        None => ProtocolAction::ReportPeer(who, ReportReason::InvalidMessageFormat),
    }
}

/// A peer that connects and then disconnects is no longer known, and the
/// announced session keys are as they were before it connected; when it was
/// not connected before, the whole state is as it was.
pub proof fn lemma_connect_then_disconnect(s: ProtocolModel, who: NodeIndex, authority: bool)
    ensures
        after_disconnect(after_connect(s, who, authority), who) == (ProtocolModel {
            peers: s.peers.remove(who),
            validators: s.validators,
            live_consensus: s.live_consensus,
        }),
        !s.peers.contains_key(who) ==> after_disconnect(after_connect(s, who, authority), who) == s,
{
    let c = after_connect(s, who, authority);
    assert(c.peers.remove(who) =~= s.peers.remove(who));
    if !s.peers.contains_key(who) {
        assert(s.peers.remove(who) =~= s.peers);
    }
}

/// Every indexed session key belongs to a connected peer that announced it.
pub open spec fn keys_bound(s: ProtocolModel) -> bool {
    forall|k: Seq<u8>|
        #[trigger] s.validators.contains_key(k) ==> {
            &&& s.peers.contains_key(s.validators[k])
            &&& s.peers[s.validators[k]].validator_key == Some(k)
        }
}

/// An empty state binds its keys.
pub proof fn lemma_keys_bound_empty(live_consensus: Option<CurrentConsensus>)
    ensures
        keys_bound(ProtocolModel {
            peers: Map::empty(),
            validators: Map::empty(),
            live_consensus,
        }),
{
}

/// Announcing a session key keeps every indexed key bound to a connected
/// peer that announced it.
pub proof fn lemma_session_key_keeps_keys_bound(s: ProtocolModel, who: NodeIndex, key: Seq<u8>)
    requires
        keys_bound(s),
    ensures
        keys_bound(after_session_key(s, who, key)),
{
}

/// A newly connecting peer keeps every indexed key bound to a connected peer
/// that announced it.
pub proof fn lemma_connect_keeps_keys_bound(s: ProtocolModel, who: NodeIndex, authority: bool)
    requires
        keys_bound(s),
        !s.peers.contains_key(who),
    ensures
        keys_bound(after_connect(s, who, authority)),
{
}

/// A disconnecting peer keeps every indexed key bound to a connected peer
/// that announced it.
pub proof fn lemma_disconnect_keeps_keys_bound(s: ProtocolModel, who: NodeIndex)
    requires
        keys_bound(s),
    ensures
        keys_bound(after_disconnect(s, who)),
{
}

/// A chain-specific message holding the encoding of a session key has the
/// effect, and gets the answer, of announcing that key.
pub proof fn lemma_session_key_message(s: ProtocolModel, who: NodeIndex, key: SessionKey)
    ensures
        after_chain_specific(s, who, spec_encode(MessageModel::SessionKey(key@))) == after_session_key(
            s,
            who,
            key@,
        ),
        chain_specific_action(s, who, spec_encode(MessageModel::SessionKey(key@))) == session_key_action(
            s,
            who,
        ),
{
    lemma_message_round_trip(Message::SessionKey(key), Seq::empty());
    assert(spec_encode(MessageModel::SessionKey(key@)) + Seq::<u8>::empty() =~= spec_encode(
        MessageModel::SessionKey(key@),
    ));
}

/// The wire form of a session-key message is the tag followed by the key's
/// bytes in order.
pub proof fn lemma_encode_layout(k: Seq<u8>)
    ensures
        spec_encode(MessageModel::SessionKey(k)).len() == k.len() + 1,
        spec_encode(MessageModel::SessionKey(k))[0] == SESSION_KEY_TAG,
        forall|i: int| 0 <= i < k.len() ==> #[trigger] spec_encode(MessageModel::SessionKey(k))[i + 1] == k[i],
{
}

/// Bytes that start with the tag and hold at least 32 more bytes decode to
/// the key made of bytes 1 to 32, in order; any other bytes decode to nothing.
pub proof fn lemma_decode_layout(raw: Seq<u8>)
    ensures
        spec_decode(raw) is Some <==> (raw.len() >= 33 && raw[0] == SESSION_KEY_TAG),
        spec_decode(raw) matches Some(MessageModel::SessionKey(k)) ==> {
            &&& k.len() == 32
            &&& forall|i: int| 0 <= i < 32 ==> #[trigger] k[i] == raw[i + 1]
        },
{
}

/// Announcing a key changes no entry of the index but the announced key and
/// the announcer's previous key.
pub proof fn lemma_session_key_frame(s: ProtocolModel, who: NodeIndex, key: Seq<u8>, k: Seq<u8>)
    requires
        k != key,
        !(s.peers.contains_key(who) && s.peers[who].validator_key == Some(k)),
    ensures
        after_session_key(s, who, key).validators.contains_key(k) == s.validators.contains_key(k),
        s.validators.contains_key(k) ==> after_session_key(s, who, key).validators[k] == s.validators[k],
{
}

/// Announcing a key changes no peer but the announcer.
pub proof fn lemma_session_key_peers_frame(s: ProtocolModel, who: NodeIndex, key: Seq<u8>, other: NodeIndex)
    requires
        other != who,
    ensures
        after_session_key(s, who, key).peers.contains_key(other) == s.peers.contains_key(other),
        s.peers.contains_key(other) ==> after_session_key(s, who, key).peers[other] == s.peers[other],
{
}

/// A connected peer that claimed the authority role is never reported for
/// a session key, whether it announces a first key or a new one.
pub proof fn lemma_authority_never_reported(s: ProtocolModel, who: NodeIndex)
    requires
        session_key_accepted(s, who),
    ensures
        session_key_action(s, who) == ProtocolAction::Nothing,
{
}

/// A connected peer that did not claim the authority role is reported for a
/// session key.
pub proof fn lemma_non_authority_reported(s: ProtocolModel, who: NodeIndex)
    requires
        s.peers.contains_key(who),
        !s.peers[who].claimed_validator,
    ensures
        session_key_action(s, who) == ProtocolAction::ReportPeer(who, ReportReason::SessionKeyWithoutAuthority),
{
}

/// Disconnecting a peer keeps every key that the peer did not announce, with
/// its node, and every other peer.
pub proof fn lemma_disconnect_frame(s: ProtocolModel, who: NodeIndex, k: Seq<u8>, other: NodeIndex)
    requires
        !(s.peers.contains_key(who) && s.peers[who].validator_key == Some(k)),
        other != who,
    ensures
        after_disconnect(s, who).validators.contains_key(k) == s.validators.contains_key(k),
        s.validators.contains_key(k) ==> after_disconnect(s, who).validators[k] == s.validators[k],
        after_disconnect(s, who).peers.contains_key(other) == s.peers.contains_key(other),
        s.peers.contains_key(other) ==> after_disconnect(s, who).peers[other] == s.peers[other],
{
}

/// A taken session key maps to the peer that announced it, and the peer is
/// known under that key.
pub proof fn lemma_session_key_taken(s: ProtocolModel, who: NodeIndex, key: Seq<u8>)
    requires
        session_key_accepted(s, who),
    ensures
        after_session_key(s, who, key).validators[key] == who,
        after_session_key(s, who, key).peers[who].validator_key == Some(key),
        after_session_key(s, who, key).peers[who].claimed_validator,
{
}

/// Once a validator whose session key was taken disconnects, no node is
/// known under that key any more.
pub proof fn lemma_disconnect_forgets_key(s: ProtocolModel, who: NodeIndex, key: Seq<u8>)
    requires
        session_key_accepted(s, who),
    ensures
        !after_disconnect(after_session_key(s, who, key), who).validators.contains_key(key),
        !after_disconnect(after_session_key(s, who, key), who).peers.contains_key(who),
{
}

/// A taken session key maps to the peer that announced it, and the key that
/// peer announced before no longer maps to any node.
pub proof fn lemma_session_key_replaces(s: ProtocolModel, who: NodeIndex, first: Seq<u8>, second: Seq<u8>)
    requires
        session_key_accepted(s, who),
        first != second,
    ensures
        after_session_key(after_session_key(s, who, first), who, second).validators[second] == who,
        !after_session_key(after_session_key(s, who, first), who, second).validators.contains_key(first),
{
}

/// Announcing the same session key twice has the effect of announcing it once.
pub proof fn lemma_session_key_idempotent(s: ProtocolModel, who: NodeIndex, key: Seq<u8>)
    ensures
        after_session_key(after_session_key(s, who, key), who, key) == after_session_key(s, who, key),
{
    if session_key_accepted(s, who) {
        let once = after_session_key(s, who, key);
        let twice = after_session_key(once, who, key);
        assert(twice.peers =~= once.peers);
        assert(twice.validators =~= once.validators);
    }
}

/// A session key from a peer that is not connected, or that did not claim
/// the authority role, changes nothing.
pub proof fn lemma_unaccepted_session_key_ignored(s: ProtocolModel, who: NodeIndex, key: Seq<u8>)
    requires
        !session_key_accepted(s, who),
    ensures
        after_session_key(s, who, key) == s,
{
}

/// Chain-specific bytes that hold no message change nothing and get the
/// sender reported.
pub proof fn lemma_undecodable_reported(s: ProtocolModel, who: NodeIndex, raw: Seq<u8>)
    requires
        spec_decode(raw) is None,
    ensures
        after_chain_specific(s, who, raw) == s,
        chain_specific_action(s, who, raw) == ProtocolAction::ReportPeer(who, ReportReason::InvalidMessageFormat),
{
}

/// ChainX protocol attachment for the generic network layer.
pub struct ChainXProtocol {
    peers: HashMap<NodeIndex, PeerInfo>,
    validators: ValidatorMap,
    live_consensus: Option<CurrentConsensus>,
}

impl View for ChainXProtocol {
    type V = ProtocolModel;

    closed spec fn view(&self) -> ProtocolModel {
        ProtocolModel {
            peers: self.peers@.map_values(|p: PeerInfo| p@),
            validators: self.validators@,
            live_consensus: self.live_consensus,
        }
    }
}

impl ChainXProtocol {
    /// The protocol's internal well-formedness.
    pub closed spec fn wf(&self) -> bool {
        self.validators.wf()
    }

    /// Instantiate a chainx protocol handler.
    pub fn new() -> (p: Self)
        ensures
            p.wf(),
            p@.peers == Map::<NodeIndex, PeerModel>::empty(),
            p@.validators == Map::<Seq<u8>, NodeIndex>::empty(),
            p@.live_consensus is None,
    {
        let p = ChainXProtocol {
            peers: HashMap::new(),
            validators: ValidatorMap::new(),
            live_consensus: None,
        };
        assert(p@.peers =~= Map::<NodeIndex, PeerModel>::empty());
        p
    }

    /// Notes a new consensus session. Returns the parent hash of the session
    /// it replaces, whose gossip the caller collects as garbage.
    pub fn new_consensus(&mut self, consensus: CurrentConsensus) -> (old_parent: Option<H256>)
        requires
            old(self).wf(),
        ensures
            final(self).wf(),
            final(self)@ == (ProtocolModel { live_consensus: Some(consensus), ..old(self)@ }),
            old_parent == match old(self)@.live_consensus {
                Some(c) => Some(c.parent_hash),
                None => None::<H256>,
            },
    {
        let old_parent = match &self.live_consensus {
            Some(c) => Some(c.parent_hash),
            None => None,
        };
        self.live_consensus = Some(consensus);
        old_parent
    }

    /// A peer connected; `authority` says whether its status claims the
    /// authority role. The caller then tells the consensus gossip.
    pub fn on_connect(&mut self, who: NodeIndex, authority: bool)
        requires
            old(self).wf(),
        ensures
            final(self).wf(),
            final(self)@ == after_connect(old(self)@, who, authority),
    {
        let info = PeerInfo { validator_key: None, claimed_validator: authority };
        self.peers.insert(who, info);
        assert(self@.peers =~= old(self)@.peers.insert(who, info@));
    }

    /// A peer disconnected. Returns whether it was connected; only then does
    /// the caller tell the consensus gossip.
    pub fn on_disconnect(&mut self, who: NodeIndex) -> (was_connected: bool)
        requires
            old(self).wf(),
        ensures
            final(self).wf(),
            was_connected == old(self)@.peers.contains_key(who),
            final(self)@ == after_disconnect(old(self)@, who),
            !final(self)@.peers.contains_key(who),
            forall|k: Seq<u8>|
                !(old(self)@.peers.contains_key(who) && old(self)@.peers[who].validator_key == Some(k))
                    ==> (#[trigger] final(self)@.validators.contains_key(k)
                        == old(self)@.validators.contains_key(k) && (final(self)@.validators.contains_key(k)
                        ==> final(self)@.validators[k] == old(self)@.validators[k])),
    {
        match self.peers.remove(&who) {
            Some(info) => {
                assert(self@.peers =~= old(self)@.peers.remove(who));
                if let Some(validator_key) = info.validator_key {
                    self.validators.remove(&validator_key);
                }
                true
            },
            None => {
                assert(self@.peers =~= old(self)@.peers);
                false
            },
        }
    }

    /// A peer announced its session key.
    pub fn on_session_key(&mut self, who: NodeIndex, key: SessionKey) -> (action: ProtocolAction)
        requires
            old(self).wf(),
        ensures
            final(self).wf(),
            final(self)@ == after_session_key(old(self)@, who, key@),
            action == session_key_action(old(self)@, who),
            session_key_accepted(old(self)@, who) ==> {
                &&& action == ProtocolAction::Nothing
                &&& final(self)@.validators.contains_key(key@)
                &&& final(self)@.validators[key@] == who
            },
            forall|k: Seq<u8>|
                k != key@ && !(old(self)@.peers.contains_key(who) && old(self)@.peers[who].validator_key
                    == Some(k)) ==> (#[trigger] final(self)@.validators.contains_key(k)
                    == old(self)@.validators.contains_key(k) && (final(self)@.validators.contains_key(k)
                    ==> final(self)@.validators[k] == old(self)@.validators[k])),
    {
        let info = match self.peers.get(&who) {
            Some(peer) => *peer,
            None => {
                return ProtocolAction::Nothing;
            },
        };
        if !info.claimed_validator {
            return ProtocolAction::ReportPeer(who, ReportReason::SessionKeyWithoutAuthority);
        }
        let updated = PeerInfo { validator_key: Some(key), claimed_validator: true };
        self.peers.insert(who, updated);
        assert(self@.peers =~= old(self)@.peers.insert(who, updated@));
        if let Some(old_key) = info.validator_key {
            self.validators.remove(&old_key);
        }
        self.validators.insert(key, who);
        ProtocolAction::Nothing
    }

    /// A chain-specific message arrived from a peer.
    pub fn on_chainx_message(&mut self, who: NodeIndex, msg: Message) -> (action: ProtocolAction)
        requires
            old(self).wf(),
        ensures
            final(self).wf(),
            final(self)@ == match msg@ {
                MessageModel::SessionKey(k) => after_session_key(old(self)@, who, k),
            },
            action == session_key_action(old(self)@, who),
    {
        match msg {
            Message::SessionKey(key) => self.on_session_key(who, key),
        }
    }

    /// A message arrived from a peer.
    pub fn on_message(&mut self, who: NodeIndex, message: IncomingMessage) -> (action: ProtocolAction)
        requires
            old(self).wf(),
        ensures
            final(self).wf(),
            match message {
                IncomingMessage::Bft => {
                    &&& final(self)@ == old(self)@
                    &&& action == ProtocolAction::ForwardBft
                },
                IncomingMessage::ChainSpecific(raw) => {
                    &&& final(self)@ == after_chain_specific(old(self)@, who, raw@)
                    &&& action == chain_specific_action(old(self)@, who, raw@)
                },
                IncomingMessage::Other => {
                    &&& final(self)@ == old(self)@
                    &&& action == ProtocolAction::Nothing
                },
            },
    {
        match message {
            IncomingMessage::Bft => ProtocolAction::ForwardBft,
            IncomingMessage::ChainSpecific(raw) => {
                match Message::decode(raw.as_slice()) {
                    Some(msg) => self.on_chainx_message(who, msg),
                    None => ProtocolAction::ReportPeer(who, ReportReason::InvalidMessageFormat),
                }
            },
            IncomingMessage::Other => ProtocolAction::Nothing,
        }
    }

    /// The chain-specific part of this node's status.
    pub fn status(&self) -> (status: Vec<u8>)
        ensures
            status@ == seq![0u8, 0u8],
    {
        let mut status: Vec<u8> = Vec::new();
        status.push(0);
        status.push(0);
        assert(status@ =~= seq![0u8, 0u8]);
        status
    }

    /// What is known of peer `who`, if it is connected.
    pub fn peer(&self, who: NodeIndex) -> (info: Option<PeerInfo>)
        ensures
            match info {
                Some(i) => self@.peers.contains_key(who) && self@.peers[who] == i@,
                None => !self@.peers.contains_key(who),
            },
    {
        match self.peers.get(&who) {
            Some(info) => Some(*info),
            None => None,
        }
    }

    /// The peer under whose name `key` is known, if any.
    pub fn validator(&self, key: &SessionKey) -> (node: Option<NodeIndex>)
        requires
            self.wf(),
        ensures
            node == (if self@.validators.contains_key(key@) {
                Some(self@.validators[key@])
            } else {
                None::<NodeIndex>
            }),
    {
        self.validators.get(key)
    }

    /// The consensus session that this node takes part in, if any.
    pub fn live_consensus(&self) -> (c: Option<CurrentConsensus>)
        ensures
            c == self@.live_consensus,
    {
        self.live_consensus
    }
}

} // verus!
