use vstd::prelude::*;
use crate::error::Error;
use crate::host::EventView;
use crate::host::HostView;
use crate::host::PayloadView;
use crate::host::Step;
use crate::host::Topic;
use crate::token_vault::Permission;
use crate::token_vault::TokenStatus;

verus! {

/// The mathematical value of a credential record.
pub struct TokenRecord {
    pub user: Seq<u8>,
    pub encrypted_payload: Seq<u8>,
    pub token_hash: [u8; 32],
    pub last_4_digits: Seq<char>,
    pub card_network: Seq<char>,
    pub status: TokenStatus,
    pub created_at: u64,
    pub expires_at: u64,
}

/// The vault's storage as a mathematical value: one optional value per
/// contract-wide slot, and one partial map per kind of per-principal slot.
#[verifier::ext_equal]
pub struct VaultState {
    pub owner: Option<Seq<u8>>,
    pub token_count: Option<u32>,
    pub paused: Option<bool>,
    pub tokens: Map<Seq<u8>, TokenRecord>,
    pub permissions: Map<Seq<u8>, Permission>,
}

impl VaultState {
    /// The storage of a vault that was never touched.
    pub open spec fn empty() -> VaultState {
        VaultState {
            owner: None,
            token_count: None,
            paused: None,
            tokens: Map::empty(),
            permissions: Map::empty(),
        }
    }

    /// The number of records stored since the counter was last reset.
    pub open spec fn get_token_count(self) -> u32 {
        match self.token_count {
            Some(n) => n,
            None => 0,
        }
    }

    /// Whether the pause flag is raised.
    pub open spec fn is_paused(self) -> bool {
        self.paused == Some(true)
    }

    /// The status of the record kept for `user`, if there is one.
    pub open spec fn get_token_status(self, user: Seq<u8>) -> Option<TokenStatus> {
        if self.tokens.contains_key(user) {
            Some(self.tokens[user].status)
        } else {
            None
        }
    }

    /// Whether `user` may read its record.
    pub open spec fn may_read(self, user: Seq<u8>) -> bool {
        self.permissions.contains_key(user) && (self.permissions[user] == Permission::Owner
            || self.permissions[user] == Permission::Read)
    }

    /// Whether the vault has an owner and that owner authorized the
    /// invocation.
    pub open spec fn owner_authorized(self, host: HostView) -> bool {
        self.owner matches Some(owner) && host.authorized.contains(owner)
    }

    /// `initialize`: records the owner and resets the counter, once.
    pub open spec fn initialize(self, host: HostView, owner: Seq<u8>) -> Step<VaultState, ()> {
        if self.owner is Some {
            Step::rejected(self, Error::AlreadyInitialized)
        } else if !host.authorized.contains(owner) {
            Step::rejected(self, Error::AuthenticationFailure)
        } else {
            Step {
                state: VaultState { owner: Some(owner), token_count: Some(0), ..self },
                event: None,
                result: Ok(()),
            }
        }
    }

    /// `store_token`: creates the one record that `user` may have.
    pub open spec fn store_token(
        self,
        host: HostView,
        user: Seq<u8>,
        encrypted_payload: Seq<u8>,
        token_hash: [u8; 32],
        last_4_digits: Seq<char>,
        card_network: Seq<char>,
        expires_at: u64,
    ) -> Step<VaultState, TokenRecord> {
        if !host.authorized.contains(user) {
            Step::rejected(self, Error::AuthenticationFailure)
        } else if self.tokens.contains_key(user) {
            Step::rejected(self, Error::AlreadyExists)
        } else if expires_at <= host.timestamp {
            Step::rejected(self, Error::ExpiredAtCreation)
        } else {
            let record = TokenRecord {
                user,
                encrypted_payload,
                token_hash,
                last_4_digits,
                card_network,
                status: TokenStatus::Active,
                created_at: host.timestamp,
                expires_at,
            };
            Step {
                state: VaultState {
                    tokens: self.tokens.insert(user, record),
                    permissions: self.permissions.insert(user, Permission::Owner),
                    token_count: Some((self.get_token_count() + 1) as u32),
                    ..self
                },
                event: Some(
                    EventView {
                        topic: Topic::Store,
                        principal: user,
                        payload: PayloadView::Stored {
                            token_hash,
                            card_network,
                            timestamp: host.timestamp,
                        },
                    },
                ),
                result: Ok(record),
            }
        }
    }

    /// `retrieve_token`: hands `user` its record, marking it expired first
    /// when its time has passed.
    pub open spec fn retrieve_token(self, host: HostView, user: Seq<u8>) -> Step<
        VaultState,
        Option<TokenRecord>,
    > {
        if !host.authorized.contains(user) {
            Step::rejected(self, Error::AuthenticationFailure)
        } else if !self.may_read(user) || !self.tokens.contains_key(user) {
            Step::unchanged(self, None)
        } else if host.timestamp > self.tokens[user].expires_at {
            let expired = TokenRecord { status: TokenStatus::Expired, ..self.tokens[user] };
            Step {
                state: VaultState { tokens: self.tokens.insert(user, expired), ..self },
                event: None,
                result: Ok(Some(expired)),
            }
        } else {
            Step {
                state: self,
                event: Some(
                    EventView {
                        topic: Topic::Access,
                        principal: user,
                        payload: PayloadView::Timestamp(host.timestamp),
                    },
                ),
                result: Ok(Some(self.tokens[user])),
            }
        }
    }

    /// `revoke_token`: marks the record of `user` revoked and withdraws its
    /// permission; answers whether there was a record.
    pub open spec fn revoke_token(self, host: HostView, user: Seq<u8>) -> Step<VaultState, bool> {
        if !host.authorized.contains(user) {
            Step::rejected(self, Error::AuthenticationFailure)
        } else if !self.tokens.contains_key(user) {
            Step::unchanged(self, false)
        } else {
            let revoked = TokenRecord { status: TokenStatus::Revoked, ..self.tokens[user] };
            Step {
                state: VaultState {
                    tokens: self.tokens.insert(user, revoked),
                    permissions: self.permissions.insert(user, Permission::Revoked),
                    ..self
                },
                event: Some(
                    EventView {
                        topic: Topic::Revoke,
                        principal: user,
                        payload: PayloadView::Timestamp(host.timestamp),
                    },
                ),
                result: Ok(true),
            }
        }
    }

    /// `update_permissions`: the owner sets the permission of `user`.
    pub open spec fn update_permissions(
        self,
        host: HostView,
        user: Seq<u8>,
        permission: Permission,
    ) -> Step<VaultState, ()> {
        if !self.owner_authorized(host) {
            Step::rejected(self, Error::AuthenticationFailure)
        } else {
            Step {
                state: VaultState {
                    permissions: self.permissions.insert(user, permission),
                    ..self
                },
                event: Some(
                    EventView {
                        topic: Topic::Permission,
                        principal: user,
                        payload: PayloadView::Timestamp(host.timestamp),
                    },
                ),
                result: Ok(()),
            }
        }
    }

    /// `pause` and `unpause`: the owner raises or lowers the pause flag.
    pub open spec fn set_paused(self, host: HostView, paused: bool) -> Step<VaultState, ()> {
        if !self.owner_authorized(host) {
            Step::rejected(self, Error::AuthenticationFailure)
        } else {
            Step {
                state: VaultState { paused: Some(paused), ..self },
                event: Some(
                    EventView {
                        topic: if paused {
                            Topic::Pause
                        } else {
                            Topic::Unpause
                        },
                        principal: self.owner->0,
                        payload: PayloadView::Timestamp(host.timestamp),
                    },
                ),
                result: Ok(()),
            }
        }
    }
}

} // verus!
