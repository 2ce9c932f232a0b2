use vstd::prelude::*;
use crate::account_abstraction::AAMode;
use crate::error::Error;
use crate::principal::contains;
use crate::principal::Principal;

verus! {

/// What an event reports.
#[derive(Clone, Copy, Debug, PartialEq, Eq, Structural)]
pub enum Topic {
    Mode,
    Sponsor,
    Session,
    Multisig,
    MetaTx,
    Fund,
    Store,
    Access,
    Revoke,
    Permission,
    Pause,
    Unpause,
}

impl Topic {
    /// The short symbol under which the host files the topic.
    pub open spec fn spec_symbol(self) -> Seq<char> {
        match self {
            Topic::Mode => "aa_mode"@,
            Topic::Sponsor => "sponsor"@,
            Topic::Session => "session"@,
            Topic::Multisig => "multisig"@,
            Topic::MetaTx => "metatx"@,
            Topic::Fund => "fund"@,
            Topic::Store => "store"@,
            Topic::Access => "access"@,
            Topic::Revoke => "revoke"@,
            Topic::Permission => "perm"@,
            Topic::Pause => "pause"@,
            Topic::Unpause => "unpause"@,
        }
    }

    /// The short symbol under which the host files the topic.
    pub fn symbol(&self) -> (text: &'static str)
        ensures
            text@ == self.spec_symbol(),
    {
        match self {
            Topic::Mode => "aa_mode",
            Topic::Sponsor => "sponsor",
            Topic::Session => "session",
            Topic::Multisig => "multisig",
            Topic::MetaTx => "metatx",
            Topic::Fund => "fund",
            Topic::Store => "store",
            Topic::Access => "access",
            Topic::Revoke => "revoke",
            Topic::Permission => "perm",
            Topic::Pause => "pause",
            Topic::Unpause => "unpause",
        }
    }
}

/// What an event carries besides its topic and principal.
#[derive(Debug, PartialEq, Eq)]
pub enum Payload {
    /// The mode now in force.
    Mode(AAMode),
    /// Another principal, such as the sponsor that was linked.
    Principal(Principal),
    /// A ledger time.
    Timestamp(u64),
    /// An amount of gas.
    Amount(i128),
    /// A threshold and the number of signers it was set for.
    Multisig { threshold: u32, signers: usize },
    /// The call that was authorized and when.
    MetaTx { target: Principal, function: String, timestamp: u64 },
    /// The credential that was stored and when.
    Stored { token_hash: [u8; 32], card_network: String, timestamp: u64 },
}

/// The mathematical value of a [`Payload`].
pub enum PayloadView {
    Mode(AAMode),
    Principal(Seq<u8>),
    Timestamp(u64),
    Amount(i128),
    Multisig { threshold: u32, signers: usize },
    MetaTx { target: Seq<u8>, function: Seq<char>, timestamp: u64 },
    Stored { token_hash: [u8; 32], card_network: Seq<char>, timestamp: u64 },
}

impl DeepView for Payload {
    type V = PayloadView;

    open spec fn deep_view(&self) -> PayloadView {
        match *self {
            Payload::Mode(mode) => PayloadView::Mode(mode),
            Payload::Principal(p) => PayloadView::Principal(p@),
            Payload::Timestamp(t) => PayloadView::Timestamp(t),
            Payload::Amount(a) => PayloadView::Amount(a),
            Payload::Multisig { threshold, signers } => PayloadView::Multisig {
                threshold,
                signers,
            },
            Payload::MetaTx { target, function, timestamp } => PayloadView::MetaTx {
                target: target@,
                function: function@,
                timestamp,
            },
            Payload::Stored { token_hash, card_network, timestamp } => PayloadView::Stored {
                token_hash,
                card_network: card_network@,
                timestamp,
            },
        }
    }
}

impl View for Payload {
    type V = PayloadView;

    open spec fn view(&self) -> PayloadView {
        self.deep_view()
    }
}

/// One entry of the host's event sink: filed under a topic and a principal,
/// with a payload.
#[derive(Debug, PartialEq, Eq)]
pub struct Event {
    pub topic: Topic,
    pub principal: Principal,
    pub payload: Payload,
}

/// The mathematical value of an [`Event`].
pub struct EventView {
    pub topic: Topic,
    pub principal: Seq<u8>,
    pub payload: PayloadView,
}

impl DeepView for Event {
    type V = EventView;

    open spec fn deep_view(&self) -> EventView {
        EventView { topic: self.topic, principal: self.principal@, payload: self.payload@ }
    }
}

impl View for Event {
    type V = EventView;

    open spec fn view(&self) -> EventView {
        self.deep_view()
    }
}

/// What the ledger host lends to one invocation: its clock, the principals
/// that proved they authorized the invocation, and the event sink.
#[derive(Debug)]
pub struct Host {
    /// The ledger time, in seconds.
    pub timestamp: u64,
    /// The principals whose authorization the host has checked.
    pub authorized: Vec<Principal>,
    /// The events published so far, oldest first.
    pub events: Vec<Event>,
}

/// The mathematical value of a [`Host`].
#[verifier::ext_equal]
pub struct HostView {
    pub timestamp: u64,
    pub authorized: Set<Seq<u8>>,
    pub events: Seq<EventView>,
}

impl HostView {
    /// The host after `event`, if there is one, was published: the sink only
    /// grows, and neither the clock nor the authorizations change.
    pub open spec fn published(self, event: Option<EventView>) -> HostView {
        match event {
            Some(e) => HostView { events: self.events.push(e), ..self },
            None => self,
        }
    }
}

/// What one invocation does to a contract in state `S`: the state it leaves,
/// the event it publishes, if any, and what it answers.
pub struct Step<S, T> {
    pub state: S,
    pub event: Option<EventView>,
    pub result: Result<T, Error>,
}

impl<S, T> Step<S, T> {
    /// The invocation is rejected with `error`: the state stays as it was and
    /// nothing is published.
    pub open spec fn rejected(state: S, error: Error) -> Step<S, T> {
        Step { state, event: None, result: Err(error) }
    }

    /// The invocation answers `value` and changes nothing.
    pub open spec fn unchanged(state: S, value: T) -> Step<S, T> {
        Step { state, event: None, result: Ok(value) }
    }
}

impl View for Host {
    type V = HostView;

    open spec fn view(&self) -> HostView {
        HostView {
            timestamp: self.timestamp,
            authorized: self.authorized.deep_view().to_set(),
            events: self.events.deep_view(),
        }
    }
}

impl Host {
    /// A host at ledger time `timestamp`, with no authorization checked and
    /// nothing published.
    pub fn new(timestamp: u64) -> (host: Host)
        ensures
            host@ == (HostView {
                timestamp,
                authorized: Set::<Seq<u8>>::empty(),
                events: Seq::<EventView>::empty(),
            }),
    {
        let host = Host { timestamp, authorized: Vec::new(), events: Vec::new() };
        assert(host@.authorized =~= Set::<Seq<u8>>::empty());
        assert(host@.events =~= Seq::<EventView>::empty());
        host
    }

    /// Records that `who` authorized the invocation.
    pub fn authorize(&mut self, who: Principal)
        ensures
            final(self)@ == (HostView {
                authorized: old(self)@.authorized.insert(who@),
                ..old(self)@
            }),
    {
        self.authorized.push(who);
        proof {
            let before = old(self).authorized.deep_view();
            let after = self.authorized.deep_view();
            assert(after =~= before.push(who@));
            assert forall|id: Seq<u8>| after.contains(id) <==> (before.contains(id) || id
                == who@) by {
                if before.contains(id) {
                    let i = choose|i: int| 0 <= i < before.len() && before[i] == id;
                    assert(after[i] == id);
                }
                if id == who@ {
                    assert(after[before.len() as int] == id);
                }
            }
            assert(self@.authorized =~= old(self)@.authorized.insert(who@));
        }
    }

    /// Whether `who` authorized the invocation.
    pub fn is_authorized(&self, who: &Principal) -> (r: bool)
        ensures
            r == self@.authorized.contains(who@),
    {
        contains(&self.authorized, who)
    }

    /// Appends `event` to the sink.
    pub fn publish(&mut self, event: Event)
        ensures
            final(self)@ == old(self)@.published(Some(event@)),
    {
        self.events.push(event);
        assert(self.events.deep_view() =~= old(self).events.deep_view().push(event@));
    }
}

} // verus!
