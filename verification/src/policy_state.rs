use vstd::prelude::*;
use crate::account_abstraction::AAMode;
use crate::account_abstraction::META_TX_GAS_COST;
use crate::error::Error;
use crate::host::EventView;
use crate::host::HostView;
use crate::host::PayloadView;
use crate::host::Step;
use crate::host::Topic;

verus! {

/// The mathematical value of a session key record.
pub struct SessionKeyView {
    pub key: [u8; 32],
    pub expires_at: u64,
    pub permissions: Seq<Seq<char>>,
}

impl SessionKeyView {
    /// Whether the record vouches for `key` at ledger time `now`.
    pub open spec fn accepts(self, key: [u8; 32], now: u64) -> bool {
        self.key == key && now < self.expires_at
    }
}

/// The policy engine's storage as a mathematical value: one optional value
/// per contract-wide slot, and one partial map per kind of per-principal
/// slot.
#[verifier::ext_equal]
pub struct PolicyState {
    pub owner: Option<Seq<u8>>,
    pub gas_pool: Option<i128>,
    pub modes: Map<Seq<u8>, AAMode>,
    pub sponsors: Map<Seq<u8>, Seq<u8>>,
    pub session_keys: Map<Seq<u8>, Seq<SessionKeyView>>,
    pub signers: Map<Seq<u8>, Seq<Seq<u8>>>,
    pub thresholds: Map<Seq<u8>, u32>,
}

impl PolicyState {
    /// The storage of an engine that was never touched.
    pub open spec fn empty() -> PolicyState {
        PolicyState {
            owner: None,
            gas_pool: None,
            modes: Map::empty(),
            sponsors: Map::empty(),
            session_keys: Map::empty(),
            signers: Map::empty(),
            thresholds: Map::empty(),
        }
    }

    /// The mode of `user`: the one stored, or `Standard`.
    pub open spec fn get_mode(self, user: Seq<u8>) -> AAMode {
        if self.modes.contains_key(user) {
            self.modes[user]
        } else {
            AAMode::Standard
        }
    }

    /// The balance of the gas pool: the one stored, or zero.
    pub open spec fn get_gas_pool(self) -> i128 {
        match self.gas_pool {
            Some(balance) => balance,
            None => 0,
        }
    }

    /// The session keys registered for `user`, oldest first.
    pub open spec fn session_keys_of(self, user: Seq<u8>) -> Seq<SessionKeyView> {
        if self.session_keys.contains_key(user) {
            self.session_keys[user]
        } else {
            Seq::empty()
        }
    }

    /// Whether the engine has an owner and that owner authorized the
    /// invocation.
    pub open spec fn owner_authorized(self, host: HostView) -> bool {
        self.owner matches Some(owner) && host.authorized.contains(owner)
    }

    /// `initialize`: records the owner and the pool's first balance, once.
    pub open spec fn initialize(self, host: HostView, owner: Seq<u8>, initial_gas_pool: i128) -> Step<
        PolicyState,
        (),
    > {
        if self.owner is Some {
            Step::rejected(self, Error::AlreadyInitialized)
        } else if !host.authorized.contains(owner) {
            Step::rejected(self, Error::AuthenticationFailure)
        } else {
            Step {
                state: PolicyState { owner: Some(owner), gas_pool: Some(initial_gas_pool), ..self },
                event: None,
                result: Ok(()),
            }
        }
    }

    /// `set_mode`: `user` chooses its mode.
    pub open spec fn set_mode(self, host: HostView, user: Seq<u8>, mode: AAMode) -> Step<
        PolicyState,
        (),
    > {
        if !host.authorized.contains(user) {
            Step::rejected(self, Error::AuthenticationFailure)
        } else {
            Step {
                state: PolicyState { modes: self.modes.insert(user, mode), ..self },
                event: Some(
                    EventView { topic: Topic::Mode, principal: user, payload: PayloadView::Mode(mode) },
                ),
                result: Ok(()),
            }
        }
    }

    /// `set_sponsor`: `sponsor` takes `user` on, which makes `user`
    /// sponsored.
    pub open spec fn set_sponsor(self, host: HostView, user: Seq<u8>, sponsor: Seq<u8>) -> Step<
        PolicyState,
        (),
    > {
        if !host.authorized.contains(sponsor) {
            Step::rejected(self, Error::AuthenticationFailure)
        } else {
            Step {
                state: PolicyState {
                    sponsors: self.sponsors.insert(user, sponsor),
                    modes: self.modes.insert(user, AAMode::Sponsored),
                    ..self
                },
                event: Some(
                    EventView {
                        topic: Topic::Sponsor,
                        principal: user,
                        payload: PayloadView::Principal(sponsor),
                    },
                ),
                result: Ok(()),
            }
        }
    }

    /// `add_session_key`: `user` registers one more key, good for `duration`
    /// seconds from now, which puts `user` in session-key mode.
    pub open spec fn add_session_key(
        self,
        host: HostView,
        user: Seq<u8>,
        session_key: [u8; 32],
        duration: u64,
        permissions: Seq<Seq<char>>,
    ) -> Step<PolicyState, ()> {
        if !host.authorized.contains(user) {
            Step::rejected(self, Error::AuthenticationFailure)
        } else {
            let expires_at = (host.timestamp + duration) as u64;
            let record = SessionKeyView { key: session_key, expires_at, permissions };
            Step {
                state: PolicyState {
                    session_keys: self.session_keys.insert(
                        user,
                        self.session_keys_of(user).push(record),
                    ),
                    modes: self.modes.insert(user, AAMode::SessionKey),
                    ..self
                },
                event: Some(
                    EventView {
                        topic: Topic::Session,
                        principal: user,
                        payload: PayloadView::Timestamp(expires_at),
                    },
                ),
                result: Ok(()),
            }
        }
    }

    /// `verify_session_key`: whether some key registered for `user` is `key`
    /// and has not expired at ledger time `now`.
    pub open spec fn verify_session_key(self, now: u64, user: Seq<u8>, key: [u8; 32]) -> bool {
        exists|i: int|
            0 <= i < self.session_keys_of(user).len() && (#[trigger] self.session_keys_of(
                user,
            )[i]).accepts(key, now)
    }

    /// `setup_multisig`: `user` names its signers and how many of them it
    /// takes, which puts `user` in multi-signature mode.
    pub open spec fn setup_multisig(
        self,
        host: HostView,
        user: Seq<u8>,
        signers: Seq<Seq<u8>>,
        threshold: u32,
    ) -> Step<PolicyState, ()> {
        if !host.authorized.contains(user) {
            Step::rejected(self, Error::AuthenticationFailure)
        } else if threshold == 0 || threshold > signers.len() {
            Step::rejected(self, Error::InvalidThreshold)
        } else {
            Step {
                state: PolicyState {
                    signers: self.signers.insert(user, signers),
                    thresholds: self.thresholds.insert(user, threshold),
                    modes: self.modes.insert(user, AAMode::MultiSig),
                    ..self
                },
                event: Some(
                    EventView {
                        topic: Topic::Multisig,
                        principal: user,
                        payload: PayloadView::Multisig {
                            threshold,
                            signers: signers.len() as usize,
                        },
                    },
                ),
                result: Ok(()),
            }
        }
    }

    /// How many entries of `signatures` name one of `signers`. An identity
    /// that occurs twice in `signatures` counts twice.
    pub open spec fn valid_count(signatures: Seq<Seq<u8>>, signers: Seq<Seq<u8>>) -> nat {
        signatures.filter(|s: Seq<u8>| signers.contains(s)).len()
    }

    /// `verify_multisig`: whether `user` has a multi-signature setup and at
    /// least its threshold of the entries of `signatures` name a signer.
    pub open spec fn verify_multisig(self, user: Seq<u8>, signatures: Seq<Seq<u8>>) -> bool {
        &&& self.signers.contains_key(user)
        &&& self.thresholds.contains_key(user)
        &&& Self::valid_count(signatures, self.signers[user]) >= self.thresholds[user]
    }

    /// Whether the mode of `user` lets a meta-transaction through, and if
    /// not, why.
    pub open spec fn meta_tx_admitted(self, user: Seq<u8>) -> Result<(), Error> {
        match self.get_mode(user) {
            AAMode::Sponsored => if self.sponsors.contains_key(user) {
                Ok(())
            } else {
                Err(Error::NoSponsor)
            },
            AAMode::SessionKey => Ok(()),
            _ => Err(Error::UnsupportedMode),
        }
    }

    /// `execute_metatx`: authorizes one call on behalf of `user` and charges
    /// the pool for it. The call itself is not made here.
    pub open spec fn execute_metatx(
        self,
        host: HostView,
        user: Seq<u8>,
        target: Seq<u8>,
        function: Seq<char>,
    ) -> Step<PolicyState, Seq<u8>> {
        if !host.authorized.contains(user) {
            Step::rejected(self, Error::AuthenticationFailure)
        } else if self.meta_tx_admitted(user) is Err {
            Step::rejected(self, self.meta_tx_admitted(user)->Err_0)
        } else if self.get_gas_pool() < META_TX_GAS_COST {
            Step::rejected(self, Error::InsufficientGasPool)
        } else {
            Step {
                state: PolicyState {
                    gas_pool: Some((self.get_gas_pool() - META_TX_GAS_COST) as i128),
                    ..self
                },
                event: Some(
                    EventView {
                        topic: Topic::MetaTx,
                        principal: user,
                        payload: PayloadView::MetaTx { target, function, timestamp: host.timestamp },
                    },
                ),
                result: Ok(Seq::empty()),
            }
        }
    }

    /// `fund_gas_pool`: the owner adds `amount` to the pool.
    pub open spec fn fund_gas_pool(self, host: HostView, amount: i128) -> Step<PolicyState, ()> {
        if !self.owner_authorized(host) {
            Step::rejected(self, Error::AuthenticationFailure)
        } else {
            Step {
                state: PolicyState {
                    gas_pool: Some((self.get_gas_pool() + amount) as i128),
                    ..self
                },
                event: Some(
                    EventView {
                        topic: Topic::Fund,
                        principal: self.owner->0,
                        payload: PayloadView::Amount(amount),
                    },
                ),
                result: Ok(()),
            }
        }
    }
}

} // verus!
