use vstd::prelude::*;
use crate::error::Error;
use crate::host::Event;
use crate::host::Host;
use crate::host::Payload;
use crate::host::Topic;
use crate::principal::Principal;
use crate::table::Table;
use crate::vault_state::TokenRecord;
use crate::vault_state::VaultState;

verus! {

/// What a principal may do with the record kept for it.
#[derive(Clone, Copy, Debug, PartialEq, Eq, Structural)]
pub enum Permission {
    /// Full access.
    Owner,
    /// May read the record.
    Read,
    /// No access.
    Revoked,
}

impl DeepView for Permission {
    type V = Permission;

    open spec fn deep_view(&self) -> Permission {
        *self
    }
}

/// Where a credential record stands in its life.
#[derive(Clone, Copy, Debug, PartialEq, Eq, Structural)]
pub enum TokenStatus {
    Active,
    Expired,
    Revoked,
}

impl TokenStatus {
    /// The status in the word the vault's callers know it by.
    pub open spec fn spec_as_str(self) -> Seq<char> {
        match self {
            TokenStatus::Active => "active"@,
            TokenStatus::Expired => "expired"@,
            TokenStatus::Revoked => "revoked"@,
        }
    }

    /// The status in the word the vault's callers know it by.
    pub fn as_str(&self) -> (text: &'static str)
        ensures
            text@ == self.spec_as_str(),
    {
        match self {
            TokenStatus::Active => "active",
            TokenStatus::Expired => "expired",
            TokenStatus::Revoked => "revoked",
        }
    }
}

/// The record kept for one principal: an encrypted credential, its integrity
/// hash, what may be shown of it, and its life.
#[derive(Debug, PartialEq, Eq)]
pub struct TokenMetadata {
    pub user: Principal,
    pub encrypted_payload: Vec<u8>,
    pub token_hash: [u8; 32],
    pub last_4_digits: String,
    pub card_network: String,
    pub status: TokenStatus,
    pub created_at: u64,
    pub expires_at: u64,
}

impl DeepView for TokenMetadata {
    type V = TokenRecord;

    open spec fn deep_view(&self) -> TokenRecord {
        TokenRecord {
            user: self.user@,
            encrypted_payload: self.encrypted_payload@,
            token_hash: self.token_hash,
            last_4_digits: self.last_4_digits@,
            card_network: self.card_network@,
            status: self.status,
            created_at: self.created_at,
            expires_at: self.expires_at,
        }
    }
}

impl View for TokenMetadata {
    type V = TokenRecord;

    open spec fn view(&self) -> TokenRecord {
        self.deep_view()
    }
}

impl Clone for TokenMetadata {
    fn clone(&self) -> (copy: TokenMetadata)
        ensures
            copy@ == self@,
    {
        TokenMetadata {
            user: self.user.clone(),
            encrypted_payload: self.encrypted_payload.clone(),
            token_hash: self.token_hash,
            last_4_digits: self.last_4_digits.clone(),
            card_network: self.card_network.clone(),
            status: self.status,
            created_at: self.created_at,
            expires_at: self.expires_at,
        }
    }
}

/// The slots of the vault's storage.
#[derive(Debug, PartialEq, Eq)]
pub enum DataKey {
    /// The record of a principal.
    TokenData(Principal),
    /// The permission of a principal.
    Permissions(Principal),
    /// The vault's owner.
    Owner,
    /// The number of records stored.
    TokenCount,
    /// The pause flag.
    Paused,
}

/// A slot of the vault's storage together with the value it holds.
#[derive(Debug, PartialEq, Eq)]
pub enum Entry {
    TokenData(Principal, TokenMetadata),
    Permissions(Principal, Permission),
    Owner(Principal),
    TokenCount(u32),
    Paused(bool),
}

impl Entry {
    /// Whether the entry belongs in the slot `key`.
    pub open spec fn fills(self, key: DataKey) -> bool {
        match (self, key) {
            (Entry::TokenData(p, _), DataKey::TokenData(q)) => p@ == q@,
            (Entry::Permissions(p, _), DataKey::Permissions(q)) => p@ == q@,
            (Entry::Owner(_), DataKey::Owner) => true,
            (Entry::TokenCount(_), DataKey::TokenCount) => true,
            (Entry::Paused(_), DataKey::Paused) => true,
            _ => false,
        }
    }
}

impl VaultState {
    /// Whether the slot `key` holds a value.
    pub open spec fn has(self, key: DataKey) -> bool {
        match key {
            DataKey::TokenData(p) => self.tokens.contains_key(p@),
            DataKey::Permissions(p) => self.permissions.contains_key(p@),
            DataKey::Owner => self.owner is Some,
            DataKey::TokenCount => self.token_count is Some,
            DataKey::Paused => self.paused is Some,
        }
    }

    /// Whether the slot that `entry` belongs in holds the value of `entry`.
    pub open spec fn holds(self, entry: Entry) -> bool {
        match entry {
            Entry::TokenData(p, record) => self.tokens.contains_key(p@) && self.tokens[p@]
                == record@,
            Entry::Permissions(p, permission) => self.permissions.contains_key(p@)
                && self.permissions[p@] == permission,
            Entry::Owner(p) => self.owner == Some(p@),
            Entry::TokenCount(n) => self.token_count == Some(n),
            Entry::Paused(flag) => self.paused == Some(flag),
        }
    }

    /// The storage after `entry` was written to its slot.
    pub open spec fn put(self, entry: Entry) -> VaultState {
        match entry {
            Entry::TokenData(p, record) => VaultState {
                tokens: self.tokens.insert(p@, record@),
                ..self
            },
            Entry::Permissions(p, permission) => VaultState {
                permissions: self.permissions.insert(p@, permission),
                ..self
            },
            Entry::Owner(p) => VaultState { owner: Some(p@), ..self },
            Entry::TokenCount(n) => VaultState { token_count: Some(n), ..self },
            Entry::Paused(flag) => VaultState { paused: Some(flag), ..self },
        }
    }
}

/// A credential vault: one encrypted record per principal, guarded by a
/// permission per principal, with records that expire when read past their
/// time.
pub struct TokenVault {
    owner: Option<Principal>,
    token_count: Option<u32>,
    paused: Option<bool>,
    tokens: Table<TokenMetadata>,
    permissions: Table<Permission>,
}

impl View for TokenVault {
    type V = VaultState;

    closed spec fn view(&self) -> VaultState {
        VaultState {
            owner: self.owner.deep_view(),
            token_count: self.token_count,
            paused: self.paused,
            tokens: self.tokens@,
            permissions: self.permissions@,
        }
    }
}

impl TokenVault {
    /// A vault whose storage was never touched.
    pub fn new() -> (vault: TokenVault)
        ensures
            vault@ == VaultState::empty(),
    {
        TokenVault {
            owner: None,
            token_count: None,
            paused: None,
            tokens: Table::new(),
            permissions: Table::new(),
        }
    }

    /// Stores the one record that `user` may have, grants `user` the owner
    /// permission on it and counts it.
    ///
    /// Rejected when `user` did not authorize the invocation, when `user`
    /// already has a record, and when `expires_at` is not in the future, in
    /// this order. Where it is not rejected, the counter must have room for
    /// one more.
    pub fn store_token(
        &mut self,
        host: &mut Host,
        user: Principal,
        encrypted_payload: Vec<u8>,
        token_hash: [u8; 32],
        last_4_digits: String,
        card_network: String,
        expires_at: u64,
    ) -> (r: Result<TokenMetadata, Error>)
        requires
            old(self)@.store_token(
                old(host)@,
                user@,
                encrypted_payload@,
                token_hash,
                last_4_digits@,
                card_network@,
                expires_at,
            ).result is Ok ==> old(self)@.get_token_count() < u32::MAX,
        ensures
            ({
                let step = old(self)@.store_token(
                    old(host)@,
                    user@,
                    encrypted_payload@,
                    token_hash,
                    last_4_digits@,
                    card_network@,
                    expires_at,
                );
                &&& final(self)@ == step.state
                &&& final(host)@ == old(host)@.published(step.event)
                &&& match step.result {
                    Ok(record) => r matches Ok(metadata) && metadata@ == record,
                    Err(e) => r == Err::<TokenMetadata, Error>(e),
                }
            }),
    {
        if !host.is_authorized(&user) {
            return Err(Error::AuthenticationFailure);
        }
        if self.tokens.contains_key(&user) {
            return Err(Error::AlreadyExists);
        }
        let now = host.timestamp;
        if expires_at <= now {
            return Err(Error::ExpiredAtCreation);
        }
        let event = Event {
            topic: Topic::Store,
            principal: user.clone(),
            payload: Payload::Stored {
                token_hash,
                card_network: card_network.clone(),
                timestamp: now,
            },
        };
        let metadata = TokenMetadata {
            user: user.clone(),
            encrypted_payload,
            token_hash,
            last_4_digits,
            card_network,
            status: TokenStatus::Active,
            created_at: now,
            expires_at,
        };
        let stored = metadata.clone();
        self.tokens.insert(user.clone(), stored);
        self.permissions.insert(user, Permission::Owner);
        let count = match self.token_count {
            Some(n) => n,
            None => 0,
        };
        self.token_count = Some(count + 1);
        host.publish(event);
        Ok(metadata)
    }

    /// Hands `user` its record. A record read past its expiry is first marked
    /// expired, in storage too; one read in time is reported as accessed.
    ///
    /// Answers `None`, changing nothing, when `user` holds neither the owner
    /// nor the read permission or has no record. Rejected when `user` did not
    /// authorize the invocation.
    pub fn retrieve_token(&mut self, host: &mut Host, user: Principal) -> (r: Result<
        Option<TokenMetadata>,
        Error,
    >)
        ensures
            ({
                let step = old(self)@.retrieve_token(old(host)@, user@);
                &&& final(self)@ == step.state
                &&& final(host)@ == old(host)@.published(step.event)
                &&& match step.result {
                    Ok(Some(record)) => r matches Ok(Some(metadata)) && metadata@ == record,
                    Ok(None) => r == Ok::<Option<TokenMetadata>, Error>(None),
                    Err(e) => r == Err::<Option<TokenMetadata>, Error>(e),
                }
            }),
    {
        if !host.is_authorized(&user) {
            return Err(Error::AuthenticationFailure);
        }
        let readable = match self.permissions.get(&user) {
            Some(permission) => match permission {
                Permission::Owner => true,
                Permission::Read => true,
                Permission::Revoked => false,
            },
            None => false,
        };
        if !readable {
            return Ok(None);
        }
        let now = host.timestamp;
        match self.tokens.take(&user) {
            None => {
                assert(self@ == old(self)@);
                Ok(None)
            },
            Some(token) => {
                if now > token.expires_at {
                    let mut expired = token;
                    expired.status = TokenStatus::Expired;
                    let copy = expired.clone();
                    self.tokens.insert(user, expired);
                    assert(self@ == old(self)@.retrieve_token(old(host)@, user@).state);
                    Ok(Some(copy))
                } else {
                    let copy = token.clone();
                    self.tokens.insert(user.clone(), token);
                    assert(self@ == old(self)@);
                    host.publish(
                        Event { topic: Topic::Access, principal: user, payload: Payload::Timestamp(now) },
                    );
                    Ok(Some(copy))
                }
            },
        }
    }

    /// Marks the record of `user` revoked and withdraws its permission.
    ///
    /// Answers whether there was a record; without one nothing changes.
    /// Rejected when `user` did not authorize the invocation.
    pub fn revoke_token(&mut self, host: &mut Host, user: Principal) -> (r: Result<bool, Error>)
        ensures
            ({
                let step = old(self)@.revoke_token(old(host)@, user@);
                &&& final(self)@ == step.state
                &&& final(host)@ == old(host)@.published(step.event)
                &&& r == step.result
            }),
    {
        if !host.is_authorized(&user) {
            return Err(Error::AuthenticationFailure);
        }
        match self.tokens.take(&user) {
            None => {
                assert(self@ == old(self)@);
                Ok(false)
            },
            Some(token) => {
                let mut revoked = token;
                revoked.status = TokenStatus::Revoked;
                self.tokens.insert(user.clone(), revoked);
                self.permissions.insert(user.clone(), Permission::Revoked);
                assert(self@ == old(self)@.revoke_token(old(host)@, user@).state);
                host.publish(
                    Event {
                        topic: Topic::Revoke,
                        principal: user,
                        payload: Payload::Timestamp(host.timestamp),
                    },
                );
                Ok(true)
            },
        }
    }

    /// Records the vault's owner and resets the record counter.
    ///
    /// Rejected when the vault already has an owner, and otherwise when
    /// `owner` did not authorize the invocation.
    pub fn initialize(&mut self, host: &mut Host, owner: Principal) -> (r: Result<(), Error>)
        ensures
            ({
                let step = old(self)@.initialize(old(host)@, owner@);
                &&& final(self)@ == step.state
                &&& final(host)@ == old(host)@.published(step.event)
                &&& r == step.result
            }),
    {
        if self.owner.is_some() {
            return Err(Error::AlreadyInitialized);
        }
        if !host.is_authorized(&owner) {
            return Err(Error::AuthenticationFailure);
        }
        self.owner = Some(owner);
        self.token_count = Some(0);
        Ok(())
    }

    fn owner_authorized(&self, host: &Host) -> (r: bool)
        ensures
            r == self@.owner_authorized(host@),
    {
        match &self.owner {
            Some(owner) => host.is_authorized(owner),
            None => false,
        }
    }

    /// Sets the permission of `user`, whatever it was.
    ///
    /// Rejected unless the vault has an owner who authorized the invocation.
    pub fn update_permissions(
        &mut self,
        host: &mut Host,
        user: Principal,
        permission: Permission,
    ) -> (r: Result<(), Error>)
        ensures
            ({
                let step = old(self)@.update_permissions(old(host)@, user@, permission);
                &&& final(self)@ == step.state
                &&& final(host)@ == old(host)@.published(step.event)
                &&& r == step.result
            }),
    {
        if !self.owner_authorized(host) {
            return Err(Error::AuthenticationFailure);
        }
        self.permissions.insert(user.clone(), permission);
        host.publish(
            Event {
                topic: Topic::Permission,
                principal: user,
                payload: Payload::Timestamp(host.timestamp),
            },
        );
        Ok(())
    }

    /// The number of records stored since the counter was last reset.
    pub fn get_token_count(&self) -> (n: u32)
        ensures
            n == self@.get_token_count(),
    {
        match self.token_count {
            Some(n) => n,
            None => 0,
        }
    }

    /// The status of the record kept for `user`, if there is one. Shows
    /// nothing else of the record.
    pub fn get_token_status(&self, user: &Principal) -> (status: Option<TokenStatus>)
        ensures
            status == self@.get_token_status(user@),
    {
        match self.tokens.get(user) {
            Some(token) => Some(token.status),
            None => None,
        }
    }

    fn set_paused(&mut self, host: &mut Host, paused: bool) -> (r: Result<(), Error>)
        ensures
            ({
                let step = old(self)@.set_paused(old(host)@, paused);
                &&& final(self)@ == step.state
                &&& final(host)@ == old(host)@.published(step.event)
                &&& r == step.result
            }),
    {
        let owner = match &self.owner {
            Some(owner) => owner.clone(),
            None => {
                return Err(Error::AuthenticationFailure);
            },
        };
        if !host.is_authorized(&owner) {
            return Err(Error::AuthenticationFailure);
        }
        self.paused = Some(paused);
        let topic = if paused {
            Topic::Pause
        } else {
            Topic::Unpause
        };
        host.publish(Event { topic, principal: owner, payload: Payload::Timestamp(host.timestamp) });
        Ok(())
    }

    /// Raises the pause flag. No other operation consults the flag.
    ///
    /// Rejected unless the vault has an owner who authorized the invocation.
    pub fn pause(&mut self, host: &mut Host) -> (r: Result<(), Error>)
        ensures
            ({
                let step = old(self)@.set_paused(old(host)@, true);
                &&& final(self)@ == step.state
                &&& final(host)@ == old(host)@.published(step.event)
                &&& r == step.result
            }),
    {
        self.set_paused(host, true)
    }

    /// Lowers the pause flag.
    ///
    /// Rejected unless the vault has an owner who authorized the invocation.
    pub fn unpause(&mut self, host: &mut Host) -> (r: Result<(), Error>)
        ensures
            ({
                let step = old(self)@.set_paused(old(host)@, false);
                &&& final(self)@ == step.state
                &&& final(host)@ == old(host)@.published(step.event)
                &&& r == step.result
            }),
    {
        self.set_paused(host, false)
    }

    /// Whether the pause flag is raised.
    pub fn is_paused(&self) -> (r: bool)
        ensures
            r == self@.is_paused(),
    {
        match self.paused {
            Some(flag) => flag,
            None => false,
        }
    }

    /// Whether the slot `key` holds a value.
    pub fn has(&self, key: &DataKey) -> (r: bool)
        ensures
            r == self@.has(*key),
    {
        match key {
            DataKey::TokenData(user) => self.tokens.contains_key(user),
            DataKey::Permissions(user) => self.permissions.contains_key(user),
            DataKey::Owner => self.owner.is_some(),
            DataKey::TokenCount => self.token_count.is_some(),
            DataKey::Paused => self.paused.is_some(),
        }
    }

    /// A copy of what the slot `key` holds, if it holds anything.
    pub fn get(&self, key: &DataKey) -> (r: Option<Entry>)
        ensures
            match r {
                Some(entry) => entry.fills(*key) && self@.holds(entry),
                None => !self@.has(*key),
            },
    {
        match key {
            DataKey::TokenData(user) => match self.tokens.get(user) {
                Some(token) => Some(Entry::TokenData(user.clone(), token.clone())),
                None => None,
            },
            DataKey::Permissions(user) => match self.permissions.get(user) {
                Some(permission) => Some(Entry::Permissions(user.clone(), *permission)),
                None => None,
            },
            DataKey::Owner => match &self.owner {
                Some(owner) => Some(Entry::Owner(owner.clone())),
                None => None,
            },
            DataKey::TokenCount => match self.token_count {
                Some(n) => Some(Entry::TokenCount(n)),
                None => None,
            },
            DataKey::Paused => match self.paused {
                Some(flag) => Some(Entry::Paused(flag)),
                None => None,
            },
        }
    }

    /// Writes `entry` to its slot, as the host does when it loads the
    /// vault's storage. Checks no authorization and publishes nothing.
    pub fn put(&mut self, entry: Entry)
        ensures
            final(self)@ == old(self)@.put(entry),
    {
        match entry {
            Entry::TokenData(user, token) => {
                self.tokens.insert(user, token);
            },
            Entry::Permissions(user, permission) => {
                self.permissions.insert(user, permission);
            },
            Entry::Owner(owner) => {
                self.owner = Some(owner);
            },
            Entry::TokenCount(n) => {
                self.token_count = Some(n);
            },
            Entry::Paused(flag) => {
                self.paused = Some(flag);
            },
        }
    }
}

} // verus!
