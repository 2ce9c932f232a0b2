use vstd::prelude::*;
use crate::error::Error;
use crate::host::Event;
use crate::host::Host;
use crate::host::Payload;
use crate::host::Topic;
use crate::policy_state::PolicyState;
use crate::policy_state::SessionKeyView;
use crate::principal::clone_all;
use crate::principal::contains;
use crate::principal::Principal;
use crate::table::Table;

verus! {

/// What one authorized meta-transaction takes from the gas pool.
pub const META_TX_GAS_COST: i128 = 1000;

/// How a principal's actions are authorized.
#[derive(Clone, Copy, Debug, PartialEq, Eq, Structural)]
pub enum AAMode {
    /// The principal authenticates and pays for itself.
    Standard,
    /// A sponsor pays for the principal's meta-transactions.
    Sponsored,
    /// A short-lived session key stands in for the principal.
    SessionKey,
    /// A threshold of signers stands in for the principal.
    MultiSig,
}

impl DeepView for AAMode {
    type V = AAMode;

    open spec fn deep_view(&self) -> AAMode {
        *self
    }
}

/// A short-lived key that stands in for a principal until it expires, with
/// the operations it is meant for.
#[derive(Debug, PartialEq, Eq)]
pub struct SessionKey {
    pub key: [u8; 32],
    pub expires_at: u64,
    pub permissions: Vec<String>,
}

impl DeepView for SessionKey {
    type V = SessionKeyView;

    open spec fn deep_view(&self) -> SessionKeyView {
        SessionKeyView {
            key: self.key,
            expires_at: self.expires_at,
            permissions: self.permissions.deep_view(),
        }
    }
}

impl View for SessionKey {
    type V = SessionKeyView;

    open spec fn view(&self) -> SessionKeyView {
        self.deep_view()
    }
}

impl Clone for SessionKey {
    fn clone(&self) -> (copy: SessionKey)
        ensures
            copy@ == self@,
    {
        let mut permissions: Vec<String> = Vec::new();
        let mut i: usize = 0;
        while i < self.permissions.len()
            invariant
                i <= self.permissions.len(),
                permissions.len() == i,
                forall|j: int| 0 <= j < i ==> (#[trigger] permissions@[j])@ == self.permissions@[j]@,
            decreases self.permissions.len() - i,
        {
            permissions.push(self.permissions[i].clone());
            i += 1;
        }
        assert(permissions.deep_view() =~= self.permissions.deep_view());
        SessionKey { key: self.key, expires_at: self.expires_at, permissions }
    }
}

/// A copy of a list of session keys, record for record.
pub fn clone_keys(keys: &Vec<SessionKey>) -> (copy: Vec<SessionKey>)
    ensures
        copy.deep_view() == keys.deep_view(),
{
    let mut copy: Vec<SessionKey> = Vec::new();
    let mut i: usize = 0;
    while i < keys.len()
        invariant
            i <= keys.len(),
            copy.len() == i,
            forall|j: int| 0 <= j < i ==> (#[trigger] copy@[j])@ == keys@[j]@,
        decreases keys.len() - i,
    {
        copy.push(keys[i].clone());
        i += 1;
    }
    assert(copy.deep_view() =~= keys.deep_view());
    copy
}

/// The slots of the engine's storage.
#[derive(Debug, PartialEq, Eq)]
pub enum DataKey {
    /// The mode of a principal.
    Mode(Principal),
    /// The sponsor of a principal.
    Sponsor(Principal),
    /// The session keys of a principal.
    SessionKey(Principal),
    /// The signers of a principal.
    Signers(Principal),
    /// How many signers it takes for a principal.
    Threshold(Principal),
    /// The balance of the gas pool.
    GasPool,
    /// The engine's owner.
    Owner,
}

/// A slot of the engine's storage together with the value it holds.
#[derive(Debug, PartialEq, Eq)]
pub enum Entry {
    Mode(Principal, AAMode),
    Sponsor(Principal, Principal),
    SessionKey(Principal, Vec<SessionKey>),
    Signers(Principal, Vec<Principal>),
    Threshold(Principal, u32),
    GasPool(i128),
    Owner(Principal),
}

impl Entry {
    /// Whether the entry belongs in the slot `key`.
    pub open spec fn fills(self, key: DataKey) -> bool {
        match (self, key) {
            (Entry::Mode(p, _), DataKey::Mode(q)) => p@ == q@,
            (Entry::Sponsor(p, _), DataKey::Sponsor(q)) => p@ == q@,
            (Entry::SessionKey(p, _), DataKey::SessionKey(q)) => p@ == q@,
            (Entry::Signers(p, _), DataKey::Signers(q)) => p@ == q@,
            (Entry::Threshold(p, _), DataKey::Threshold(q)) => p@ == q@,
            (Entry::GasPool(_), DataKey::GasPool) => true,
            (Entry::Owner(_), DataKey::Owner) => true,
            _ => false,
        }
    }
}

impl PolicyState {
    /// Whether the slot `key` holds a value.
    pub open spec fn has(self, key: DataKey) -> bool {
        match key {
            DataKey::Mode(p) => self.modes.contains_key(p@),
            DataKey::Sponsor(p) => self.sponsors.contains_key(p@),
            DataKey::SessionKey(p) => self.session_keys.contains_key(p@),
            DataKey::Signers(p) => self.signers.contains_key(p@),
            DataKey::Threshold(p) => self.thresholds.contains_key(p@),
            DataKey::GasPool => self.gas_pool is Some,
            DataKey::Owner => self.owner is Some,
        }
    }

    /// Whether the slot that `entry` belongs in holds the value of `entry`.
    pub open spec fn holds(self, entry: Entry) -> bool {
        match entry {
            Entry::Mode(p, mode) => self.modes.contains_key(p@) && self.modes[p@] == mode,
            Entry::Sponsor(p, sponsor) => self.sponsors.contains_key(p@) && self.sponsors[p@]
                == sponsor@,
            Entry::SessionKey(p, keys) => self.session_keys.contains_key(p@)
                && self.session_keys[p@] == keys.deep_view(),
            Entry::Signers(p, signers) => self.signers.contains_key(p@) && self.signers[p@]
                == signers.deep_view(),
            Entry::Threshold(p, threshold) => self.thresholds.contains_key(p@)
                && self.thresholds[p@] == threshold,
            Entry::GasPool(balance) => self.gas_pool == Some(balance),
            Entry::Owner(p) => self.owner == Some(p@),
        }
    }

    /// The storage after `entry` was written to its slot.
    pub open spec fn put(self, entry: Entry) -> PolicyState {
        match entry {
            Entry::Mode(p, mode) => PolicyState { modes: self.modes.insert(p@, mode), ..self },
            Entry::Sponsor(p, sponsor) => PolicyState {
                sponsors: self.sponsors.insert(p@, sponsor@),
                ..self
            },
            Entry::SessionKey(p, keys) => PolicyState {
                session_keys: self.session_keys.insert(p@, keys.deep_view()),
                ..self
            },
            Entry::Signers(p, signers) => PolicyState {
                signers: self.signers.insert(p@, signers.deep_view()),
                ..self
            },
            Entry::Threshold(p, threshold) => PolicyState {
                thresholds: self.thresholds.insert(p@, threshold),
                ..self
            },
            Entry::GasPool(balance) => PolicyState { gas_pool: Some(balance), ..self },
            Entry::Owner(p) => PolicyState { owner: Some(p@), ..self },
        }
    }
}

/// Whether two keys are the same 32 bytes.
pub fn same_key(a: &[u8; 32], b: &[u8; 32]) -> (r: bool)
    ensures
        r == (*a == *b),
{
    let mut i: usize = 0;
    while i < 32
        invariant
            i <= 32,
            forall|j: int| 0 <= j < i ==> a[j] == b[j],
        decreases 32 - i,
    {
        if a[i] != b[i] {
            return false;
        }
        i += 1;
    }
    assert(*a =~= *b);
    true
}

/// The account-abstraction policy engine: a mode per principal, with the
/// sponsor link, session keys or signer set that the mode rests on, and the
/// gas pool that sponsored calls draw on.
pub struct AccountAbstraction {
    owner: Option<Principal>,
    gas_pool: Option<i128>,
    modes: Table<AAMode>,
    sponsors: Table<Principal>,
    session_keys: Table<Vec<SessionKey>>,
    signers: Table<Vec<Principal>>,
    thresholds: Table<u32>,
}

impl View for AccountAbstraction {
    type V = PolicyState;

    closed spec fn view(&self) -> PolicyState {
        PolicyState {
            owner: self.owner.deep_view(),
            gas_pool: self.gas_pool,
            modes: self.modes@,
            sponsors: self.sponsors@,
            session_keys: self.session_keys@,
            signers: self.signers@,
            thresholds: self.thresholds@,
        }
    }
}

impl AccountAbstraction {
    /// An engine whose storage was never touched.
    pub fn new() -> (engine: AccountAbstraction)
        ensures
            engine@ == PolicyState::empty(),
    {
        AccountAbstraction {
            owner: None,
            gas_pool: None,
            modes: Table::new(),
            sponsors: Table::new(),
            session_keys: Table::new(),
            signers: Table::new(),
            thresholds: Table::new(),
        }
    }

    /// The mode of `user`: `Standard` until one is set.
    pub fn get_mode(&self, user: &Principal) -> (mode: AAMode)
        ensures
            mode == self@.get_mode(user@),
    {
        match self.modes.get(user) {
            Some(mode) => *mode,
            None => AAMode::Standard,
        }
    }

    /// The balance of the gas pool: zero until one is set.
    pub fn get_gas_pool(&self) -> (balance: i128)
        ensures
            balance == self@.get_gas_pool(),
    {
        match self.gas_pool {
            Some(balance) => balance,
            None => 0,
        }
    }

    /// Authorizes one call of `function` on `target` on behalf of `user` and
    /// takes its cost from the gas pool. The call is not made here, and
    /// `args` is not looked at: the answer is an empty payload.
    ///
    /// A sponsored principal needs a sponsor; one in session-key mode is let
    /// through, its key being the caller's to check; no other mode is. Either
    /// the pool is charged and the event published, or nothing happens.
    pub fn execute_metatx(
        &mut self,
        host: &mut Host,
        user: Principal,
        target: Principal,
        function: String,
        args: Vec<u8>,
    ) -> (r: Result<Vec<u8>, Error>)
        ensures
            ({
                let step = old(self)@.execute_metatx(old(host)@, user@, target@, function@);
                &&& final(self)@ == step.state
                &&& final(host)@ == old(host)@.published(step.event)
                &&& match step.result {
                    Ok(payload) => r matches Ok(bytes) && bytes@ == payload,
                    Err(e) => r == Err::<Vec<u8>, Error>(e),
                }
            }),
    {
        if !host.is_authorized(&user) {
            return Err(Error::AuthenticationFailure);
        }
        match self.get_mode(&user) {
            AAMode::Sponsored => {
                if !self.sponsors.contains_key(&user) {
                    return Err(Error::NoSponsor);
                }
            },
            AAMode::SessionKey => {},
            _ => {
                return Err(Error::UnsupportedMode);
            },
        }
        let balance = self.get_gas_pool();
        if balance < META_TX_GAS_COST {
            return Err(Error::InsufficientGasPool);
        }
        self.gas_pool = Some(balance - META_TX_GAS_COST);
        host.publish(
            Event {
                topic: Topic::MetaTx,
                principal: user,
                payload: Payload::MetaTx { target, function, timestamp: host.timestamp },
            },
        );
        Ok(Vec::new())
    }

    /// Whether `user` has a multi-signature setup and at least its threshold
    /// of the entries of `signatures` name one of its signers. An identity
    /// that is repeated in `signatures` is counted each time.
    pub fn verify_multisig(&self, user: &Principal, signatures: &Vec<Principal>) -> (r: bool)
        ensures
            r == self@.verify_multisig(user@, signatures.deep_view()),
    {
        let signers = match self.signers.get(user) {
            Some(signers) => signers,
            None => {
                return false;
            },
        };
        let threshold = match self.thresholds.get(user) {
            Some(threshold) => *threshold,
            None => {
                return false;
            },
        };
        let ghost valid = |s: Seq<u8>| signers.deep_view().contains(s);
        let ghost all = signatures.deep_view();
        let mut count: usize = 0;
        let mut i: usize = 0;
        assert(all.take(0) =~= Seq::<Seq<u8>>::empty());
        proof {
            reveal(Seq::filter);
        }
        while i < signatures.len()
            invariant
                i <= signatures.len(),
                all == signatures.deep_view(),
                valid == |s: Seq<u8>| signers.deep_view().contains(s),
                count == all.take(i as int).filter(valid).len(),
                count <= i,
            decreases signatures.len() - i,
        {
            proof {
                reveal(Seq::filter);
                assert(all.take(i + 1).drop_last() =~= all.take(i as int));
                assert(all.take(i + 1).last() == signatures@[i as int]@);
            }
            if contains(signers, &signatures[i]) {
                count += 1;
            }
            i += 1;
        }
        assert(all.take(i as int) =~= all);
        count >= threshold as usize
    }

    /// Registers one more session key for `user`, good until `duration`
    /// seconds from now, and puts `user` in session-key mode. Keys already
    /// registered stay, in their order; none is ever removed.
    ///
    /// Rejected when `user` did not authorize the invocation. Where it is
    /// not rejected, the time of expiry must fit the clock's integer type.
    pub fn add_session_key(
        &mut self,
        host: &mut Host,
        user: Principal,
        session_key: [u8; 32],
        duration: u64,
        permissions: Vec<String>,
    ) -> (r: Result<(), Error>)
        requires
            old(host)@.authorized.contains(user@) ==> old(host)@.timestamp + duration <= u64::MAX,
        ensures
            ({
                let step = old(self)@.add_session_key(
                    old(host)@,
                    user@,
                    session_key,
                    duration,
                    permissions.deep_view(),
                );
                &&& final(self)@ == step.state
                &&& final(host)@ == old(host)@.published(step.event)
                &&& r == step.result
            }),
    {
        if !host.is_authorized(&user) {
            return Err(Error::AuthenticationFailure);
        }
        let expires_at = host.timestamp + duration;
        let record = SessionKey { key: session_key, expires_at, permissions };
        let mut keys = match self.session_keys.take(&user) {
            Some(keys) => keys,
            None => Vec::new(),
        };
        let ghost before = keys.deep_view();
        assert(before =~= old(self)@.session_keys_of(user@));
        keys.push(record);
        assert(keys.deep_view() =~= before.push(record@));
        self.session_keys.insert(user.clone(), keys);
        self.modes.insert(user.clone(), AAMode::SessionKey);
        host.publish(
            Event { topic: Topic::Session, principal: user, payload: Payload::Timestamp(expires_at) },
        );
        Ok(())
    }

    /// Whether some session key registered for `user` is `key` and has not
    /// expired at the host's time. Reads only; what follows from the answer
    /// is the caller's to decide.
    pub fn verify_session_key(&self, host: &Host, user: &Principal, key: &[u8; 32]) -> (r: bool)
        ensures
            r == self@.verify_session_key(host@.timestamp, user@, *key),
    {
        let keys = match self.session_keys.get(user) {
            Some(keys) => keys,
            None => {
                return false;
            },
        };
        let now = host.timestamp;
        let ghost records = self@.session_keys_of(user@);
        assert(records == keys.deep_view());
        let mut i: usize = 0;
        while i < keys.len()
            invariant
                i <= keys.len(),
                records == keys.deep_view(),
                records == self@.session_keys_of(user@),
                now == host@.timestamp,
                forall|j: int| 0 <= j < i ==> !(#[trigger] records[j]).accepts(*key, now),
            decreases keys.len() - i,
        {
            if same_key(&keys[i].key, key) && now < keys[i].expires_at {
                assert(records[i as int].accepts(*key, now));
                return true;
            }
            i += 1;
        }
        false
    }

    /// Stores the signers of `user` and how many of them it takes, and puts
    /// `user` in multi-signature mode.
    ///
    /// Rejected when `user` did not authorize the invocation, and otherwise
    /// when `threshold` is zero or more than the number of signers.
    pub fn setup_multisig(
        &mut self,
        host: &mut Host,
        user: Principal,
        signers: Vec<Principal>,
        threshold: u32,
    ) -> (r: Result<(), Error>)
        ensures
            ({
                let step = old(self)@.setup_multisig(
                    old(host)@,
                    user@,
                    signers.deep_view(),
                    threshold,
                );
                &&& final(self)@ == step.state
                &&& final(host)@ == old(host)@.published(step.event)
                &&& r == step.result
            }),
    {
        if !host.is_authorized(&user) {
            return Err(Error::AuthenticationFailure);
        }
        let signer_count = signers.len();
        if threshold == 0 || threshold as usize > signer_count {
            return Err(Error::InvalidThreshold);
        }
        self.signers.insert(user.clone(), signers);
        self.thresholds.insert(user.clone(), threshold);
        self.modes.insert(user.clone(), AAMode::MultiSig);
        host.publish(
            Event {
                topic: Topic::Multisig,
                principal: user,
                payload: Payload::Multisig { threshold, signers: signer_count },
            },
        );
        Ok(())
    }

    /// Adds `amount` to the gas pool.
    ///
    /// Rejected unless the engine has an owner who authorized the
    /// invocation. Where it is not rejected, the new balance must fit the
    /// pool's integer type.
    pub fn fund_gas_pool(&mut self, host: &mut Host, amount: i128) -> (r: Result<(), Error>)
        requires
            old(self)@.owner_authorized(old(host)@) ==> i128::MIN <= old(self)@.get_gas_pool()
                + amount <= i128::MAX,
        ensures
            ({
                let step = old(self)@.fund_gas_pool(old(host)@, amount);
                &&& final(self)@ == step.state
                &&& final(host)@ == old(host)@.published(step.event)
                &&& r == step.result
            }),
    {
        let owner = match &self.owner {
            Some(owner) => owner.clone(),
            None => {
                return Err(Error::AuthenticationFailure);
            },
        };
        if !host.is_authorized(&owner) {
            return Err(Error::AuthenticationFailure);
        }
        let balance = self.get_gas_pool();
        self.gas_pool = Some(balance + amount);
        host.publish(Event { topic: Topic::Fund, principal: owner, payload: Payload::Amount(amount) });
        Ok(())
    }

    /// Links `sponsor` to `user` and makes `user` sponsored. It is the
    /// sponsor, not the one sponsored, who must have authorized this.
    ///
    /// Rejected when `sponsor` did not authorize the invocation.
    pub fn set_sponsor(&mut self, host: &mut Host, user: Principal, sponsor: Principal) -> (r:
        Result<(), Error>)
        ensures
            ({
                let step = old(self)@.set_sponsor(old(host)@, user@, sponsor@);
                &&& final(self)@ == step.state
                &&& final(host)@ == old(host)@.published(step.event)
                &&& r == step.result
            }),
    {
        if !host.is_authorized(&sponsor) {
            return Err(Error::AuthenticationFailure);
        }
        self.sponsors.insert(user.clone(), sponsor.clone());
        self.modes.insert(user.clone(), AAMode::Sponsored);
        host.publish(
            Event { topic: Topic::Sponsor, principal: user, payload: Payload::Principal(sponsor) },
        );
        Ok(())
    }

    /// Records the engine's owner and the gas pool's first balance.
    ///
    /// Rejected when the engine already has an owner, and otherwise when
    /// `owner` did not authorize the invocation.
    pub fn initialize(&mut self, host: &mut Host, owner: Principal, initial_gas_pool: i128) -> (r:
        Result<(), Error>)
        ensures
            ({
                let step = old(self)@.initialize(old(host)@, owner@, initial_gas_pool);
                &&& final(self)@ == step.state
                &&& final(host)@ == old(host)@.published(step.event)
                &&& r == step.result
            }),
    {
        if self.owner.is_some() {
            return Err(Error::AlreadyInitialized);
        }
        if !host.is_authorized(&owner) {
            return Err(Error::AuthenticationFailure);
        }
        self.owner = Some(owner);
        self.gas_pool = Some(initial_gas_pool);
        Ok(())
    }

    /// Sets the mode of `user`, whatever it was.
    ///
    /// Rejected when `user` did not authorize the invocation.
    pub fn set_mode(&mut self, host: &mut Host, user: Principal, mode: AAMode) -> (r: Result<
        (),
        Error,
    >)
        ensures
            ({
                let step = old(self)@.set_mode(old(host)@, user@, mode);
                &&& final(self)@ == step.state
                &&& final(host)@ == old(host)@.published(step.event)
                &&& r == step.result
            }),
    {
        if !host.is_authorized(&user) {
            return Err(Error::AuthenticationFailure);
        }
        self.modes.insert(user.clone(), mode);
        host.publish(Event { topic: Topic::Mode, principal: user, payload: Payload::Mode(mode) });
        Ok(())
    }

    /// Whether the slot `key` holds a value.
    pub fn has(&self, key: &DataKey) -> (r: bool)
        ensures
            r == self@.has(*key),
    {
        match key {
            DataKey::Mode(user) => self.modes.contains_key(user),
            DataKey::Sponsor(user) => self.sponsors.contains_key(user),
            DataKey::SessionKey(user) => self.session_keys.contains_key(user),
            DataKey::Signers(user) => self.signers.contains_key(user),
            DataKey::Threshold(user) => self.thresholds.contains_key(user),
            DataKey::GasPool => self.gas_pool.is_some(),
            DataKey::Owner => self.owner.is_some(),
        }
    }

    /// A copy of what the slot `key` holds, if it holds anything.
    pub fn get(&self, key: &DataKey) -> (r: Option<Entry>)
        ensures
            match r {
                Some(entry) => entry.fills(*key) && self@.holds(entry),
                None => !self@.has(*key),
            },
    {
        match key {
            DataKey::Mode(user) => match self.modes.get(user) {
                Some(mode) => Some(Entry::Mode(user.clone(), *mode)),
                None => None,
            },
            DataKey::Sponsor(user) => match self.sponsors.get(user) {
                Some(sponsor) => Some(Entry::Sponsor(user.clone(), sponsor.clone())),
                None => None,
            },
            DataKey::SessionKey(user) => match self.session_keys.get(user) {
                Some(keys) => Some(Entry::SessionKey(user.clone(), clone_keys(keys))),
                None => None,
            },
            DataKey::Signers(user) => match self.signers.get(user) {
                Some(signers) => Some(Entry::Signers(user.clone(), clone_all(signers))),
                None => None,
            },
            DataKey::Threshold(user) => match self.thresholds.get(user) {
                Some(threshold) => Some(Entry::Threshold(user.clone(), *threshold)),
                None => None,
            },
            DataKey::GasPool => match self.gas_pool {
                Some(balance) => Some(Entry::GasPool(balance)),
                None => None,
            },
            DataKey::Owner => match &self.owner {
                Some(owner) => Some(Entry::Owner(owner.clone())),
                None => None,
            },
        }
    }

    /// Writes `entry` to its slot, as the host does when it loads the
    /// engine's storage. Checks no authorization and publishes nothing.
    pub fn put(&mut self, entry: Entry)
        ensures
            final(self)@ == old(self)@.put(entry),
    {
        match entry {
            Entry::Mode(user, mode) => {
                self.modes.insert(user, mode);
            },
            Entry::Sponsor(user, sponsor) => {
                self.sponsors.insert(user, sponsor);
            },
            Entry::SessionKey(user, keys) => {
                self.session_keys.insert(user, keys);
            },
            Entry::Signers(user, signers) => {
                self.signers.insert(user, signers);
            },
            Entry::Threshold(user, threshold) => {
                self.thresholds.insert(user, threshold);
            },
            Entry::GasPool(balance) => {
                self.gas_pool = Some(balance);
            },
            Entry::Owner(owner) => {
                self.owner = Some(owner);
            },
        }
    }
}

} // verus!
