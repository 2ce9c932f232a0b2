//! What holds of the credential vault across invocations, proved of its
//! storage model.

use vstd::prelude::*;
use crate::error::Error;
use crate::host::HostView;
use crate::token_vault::Permission;
use crate::token_vault::TokenStatus;
use crate::vault_state::TokenRecord;
use crate::vault_state::VaultState;

verus! {

/// Once `initialize` has succeeded, every later `initialize` is rejected as
/// `AlreadyInitialized`, whoever asks, and leaves the owner and all else as
/// the first one set them.
pub proof fn law_initialize_only_once(
    state: VaultState,
    first_host: HostView,
    first_owner: Seq<u8>,
    second_host: HostView,
    second_owner: Seq<u8>,
)
    requires
        state.initialize(first_host, first_owner).result is Ok,
    ensures
        ({
            let first = state.initialize(first_host, first_owner);
            let second = first.state.initialize(second_host, second_owner);
            &&& first.state.owner == Some(first_owner)
            &&& first.state.get_token_count() == 0
            &&& second.result == Err::<(), Error>(Error::AlreadyInitialized)
            &&& second.state == first.state
            &&& second.event is None
        }),
{
}

/// Once the vault has an owner, no operation changes it.
pub proof fn law_owner_is_kept(
    state: VaultState,
    host: HostView,
    user: Seq<u8>,
    permission: Permission,
    paused: bool,
    encrypted_payload: Seq<u8>,
    token_hash: [u8; 32],
    last_4_digits: Seq<char>,
    card_network: Seq<char>,
    expires_at: u64,
)
    requires
        state.owner is Some,
    ensures
        state.initialize(host, user).state.owner == state.owner,
        state.store_token(
            host,
            user,
            encrypted_payload,
            token_hash,
            last_4_digits,
            card_network,
            expires_at,
        ).state.owner == state.owner,
        state.retrieve_token(host, user).state.owner == state.owner,
        state.revoke_token(host, user).state.owner == state.owner,
        state.update_permissions(host, user, permission).state.owner == state.owner,
        state.set_paused(host, paused).state.owner == state.owner,
{
}

/// A successful `store_token` leaves an active record that expires after it
/// was created, makes its principal the record's owner and raises the
/// counter by exactly one.
pub proof fn law_stored_record_is_active(
    state: VaultState,
    host: HostView,
    user: Seq<u8>,
    encrypted_payload: Seq<u8>,
    token_hash: [u8; 32],
    last_4_digits: Seq<char>,
    card_network: Seq<char>,
    expires_at: u64,
)
    requires
        state.get_token_count() < u32::MAX,
        state.store_token(
            host,
            user,
            encrypted_payload,
            token_hash,
            last_4_digits,
            card_network,
            expires_at,
        ).result is Ok,
    ensures
        ({
            let step = state.store_token(
                host,
                user,
                encrypted_payload,
                token_hash,
                last_4_digits,
                card_network,
                expires_at,
            );
            let record = step.state.tokens[user];
            &&& step.result == Ok::<TokenRecord, Error>(record)
            &&& record.user == user
            &&& record.encrypted_payload == encrypted_payload
            &&& record.token_hash == token_hash
            &&& record.status == TokenStatus::Active
            &&& record.created_at == host.timestamp
            &&& record.expires_at > record.created_at
            &&& step.state.get_token_status(user) == Some(TokenStatus::Active)
            &&& step.state.may_read(user)
            &&& step.state.get_token_count() == state.get_token_count() + 1
        }),
{
}

/// After `store_token` has succeeded for a principal, every later
/// `store_token` for that principal is rejected and leaves the first record
/// untouched: as `AlreadyExists` when the principal authorized it.
pub proof fn law_one_record_per_principal(
    state: VaultState,
    first_host: HostView,
    user: Seq<u8>,
    first_payload: Seq<u8>,
    first_hash: [u8; 32],
    first_digits: Seq<char>,
    first_network: Seq<char>,
    first_expiry: u64,
    second_host: HostView,
    second_payload: Seq<u8>,
    second_hash: [u8; 32],
    second_digits: Seq<char>,
    second_network: Seq<char>,
    second_expiry: u64,
)
    requires
        state.store_token(
            first_host,
            user,
            first_payload,
            first_hash,
            first_digits,
            first_network,
            first_expiry,
        ).result is Ok,
    ensures
        ({
            let first = state.store_token(
                first_host,
                user,
                first_payload,
                first_hash,
                first_digits,
                first_network,
                first_expiry,
            );
            let second = first.state.store_token(
                second_host,
                user,
                second_payload,
                second_hash,
                second_digits,
                second_network,
                second_expiry,
            );
            &&& second.result is Err
            &&& second_host.authorized.contains(user) ==> second.result == Err::<
                TokenRecord,
                Error,
            >(Error::AlreadyExists)
            &&& second.state == first.state
            &&& second.state.tokens[user] == first.result->Ok_0
            &&& second.event is None
        }),
{
}

/// `store_token` with an expiry that is not after the host's time is always
/// rejected and stores nothing: as `ExpiredAtCreation` when the principal
/// authorized it and has no record yet.
pub proof fn law_expiry_must_be_ahead(
    state: VaultState,
    host: HostView,
    user: Seq<u8>,
    encrypted_payload: Seq<u8>,
    token_hash: [u8; 32],
    last_4_digits: Seq<char>,
    card_network: Seq<char>,
    expires_at: u64,
)
    requires
        expires_at <= host.timestamp,
    ensures
        ({
            let step = state.store_token(
                host,
                user,
                encrypted_payload,
                token_hash,
                last_4_digits,
                card_network,
                expires_at,
            );
            &&& step.result is Err
            &&& step.state == state
            &&& step.event is None
            &&& host.authorized.contains(user) && !state.tokens.contains_key(user) ==> step.result
                == Err::<TokenRecord, Error>(Error::ExpiredAtCreation)
        }),
{
}

/// `retrieve_token` past the record's expiry, by a principal that may read
/// it, answers the record with status `Expired` and stores it so:
/// `get_token_status` shows `Expired` from then on. Nothing else of the
/// record changes, and no access is reported.
pub proof fn law_read_past_expiry_expires(state: VaultState, host: HostView, user: Seq<u8>)
    requires
        host.authorized.contains(user),
        state.may_read(user),
        state.tokens.contains_key(user),
        host.timestamp > state.tokens[user].expires_at,
    ensures
        ({
            let step = state.retrieve_token(host, user);
            let expired = TokenRecord { status: TokenStatus::Expired, ..state.tokens[user] };
            &&& step.result == Ok::<Option<TokenRecord>, Error>(Some(expired))
            &&& step.state.tokens[user] == expired
            &&& step.state.get_token_status(user) == Some(TokenStatus::Expired)
            &&& step.state == (VaultState { tokens: step.state.tokens, ..state })
            &&& step.event is None
        }),
{
}

/// `retrieve_token` in time, by a principal that may read its record,
/// answers the record as stored, changes nothing and reports the access.
pub proof fn law_read_in_time_changes_nothing(state: VaultState, host: HostView, user: Seq<u8>)
    requires
        host.authorized.contains(user),
        state.may_read(user),
        state.tokens.contains_key(user),
        host.timestamp <= state.tokens[user].expires_at,
    ensures
        ({
            let step = state.retrieve_token(host, user);
            &&& step.result == Ok::<Option<TokenRecord>, Error>(Some(state.tokens[user]))
            &&& step.state == state
            &&& step.event is Some
        }),
{
}

/// `retrieve_token` answers nothing, and changes nothing, for a principal
/// whose permission is neither `Owner` nor `Read`, whatever its record.
pub proof fn law_read_needs_permission(state: VaultState, host: HostView, user: Seq<u8>)
    requires
        host.authorized.contains(user),
        !state.may_read(user),
    ensures
        ({
            let step = state.retrieve_token(host, user);
            &&& step.result == Ok::<Option<TokenRecord>, Error>(None)
            &&& step.state == state
            &&& step.event is None
        }),
{
}

/// `revoke_token` by a principal without a record answers `false` and
/// changes nothing. With a record it answers `true`; from then on
/// `get_token_status` shows `Revoked` and `retrieve_token` answers nothing,
/// at whatever time it is asked.
pub proof fn law_revocation(state: VaultState, host: HostView, user: Seq<u8>, later: HostView)
    requires
        host.authorized.contains(user),
        later.authorized.contains(user),
    ensures
        ({
            let step = state.revoke_token(host, user);
            let read = step.state.retrieve_token(later, user);
            &&& !state.tokens.contains_key(user) ==> step.result == Ok::<bool, Error>(false)
                && step.state == state && step.event is None
            &&& state.tokens.contains_key(user) ==> {
                &&& step.result == Ok::<bool, Error>(true)
                &&& step.state.get_token_status(user) == Some(TokenStatus::Revoked)
                &&& step.state.permissions[user] == Permission::Revoked
                &&& read.result == Ok::<Option<TokenRecord>, Error>(None)
                &&& read.state == step.state
            }
        }),
{
}

/// `update_permissions`, `pause` and `unpause` are rejected as
/// `AuthenticationFailure`, changing nothing, unless the vault's owner
/// authorized them; when the owner did, the permission or the flag is what
/// was asked for. A permission is set without a look at, or a change to, the
/// records.
pub proof fn law_owner_gated(
    state: VaultState,
    host: HostView,
    user: Seq<u8>,
    permission: Permission,
    paused: bool,
)
    ensures
        ({
            let by_owner = state.owner matches Some(owner) && host.authorized.contains(owner);
            let update = state.update_permissions(host, user, permission);
            let flag = state.set_paused(host, paused);
            &&& !by_owner ==> update.result == Err::<(), Error>(Error::AuthenticationFailure)
                && update.state == state && update.event is None
            &&& !by_owner ==> flag.result == Err::<(), Error>(Error::AuthenticationFailure)
                && flag.state == state && flag.event is None
            &&& by_owner ==> update.result is Ok && update.state.permissions[user] == permission
            &&& update.state.tokens == state.tokens
            &&& by_owner ==> flag.result is Ok && flag.state.is_paused() == paused
        }),
{
}

/// The pause flag has no effect on storing, reading or revoking: each
/// answers the same and changes the same, whatever the flag.
pub proof fn law_pause_flag_is_inert(
    state: VaultState,
    paused: Option<bool>,
    host: HostView,
    user: Seq<u8>,
    encrypted_payload: Seq<u8>,
    token_hash: [u8; 32],
    last_4_digits: Seq<char>,
    card_network: Seq<char>,
    expires_at: u64,
)
    ensures
        ({
            let flagged = VaultState { paused, ..state };
            let store = state.store_token(
                host,
                user,
                encrypted_payload,
                token_hash,
                last_4_digits,
                card_network,
                expires_at,
            );
            let store_flagged = flagged.store_token(
                host,
                user,
                encrypted_payload,
                token_hash,
                last_4_digits,
                card_network,
                expires_at,
            );
            let read = state.retrieve_token(host, user);
            let read_flagged = flagged.retrieve_token(host, user);
            let revoke = state.revoke_token(host, user);
            let revoke_flagged = flagged.revoke_token(host, user);
            &&& store_flagged.result == store.result
            &&& store_flagged.event == store.event
            &&& store_flagged.state == (VaultState { paused, ..store.state })
            &&& read_flagged.result == read.result
            &&& read_flagged.event == read.event
            &&& read_flagged.state == (VaultState { paused, ..read.state })
            &&& revoke_flagged.result == revoke.result
            &&& revoke_flagged.event == revoke.event
            &&& revoke_flagged.state == (VaultState { paused, ..revoke.state })
        }),
{
}

/// No operation removes a record or brings one back to `Active`: a
/// principal with a record keeps one, and a record that is not active stays
/// so, through `retrieve_token`, `revoke_token`, `update_permissions`,
/// `pause`, `unpause` and every `store_token`.
pub proof fn law_records_are_kept(
    state: VaultState,
    host: HostView,
    actor: Seq<u8>,
    user: Seq<u8>,
    permission: Permission,
    paused: bool,
    encrypted_payload: Seq<u8>,
    token_hash: [u8; 32],
    last_4_digits: Seq<char>,
    card_network: Seq<char>,
    expires_at: u64,
)
    requires
        state.tokens.contains_key(user),
    ensures
        ({
            let was_active = state.tokens[user].status == TokenStatus::Active;
            let read = state.retrieve_token(host, actor).state;
            let revoke = state.revoke_token(host, actor).state;
            let update = state.update_permissions(host, actor, permission).state;
            let flag = state.set_paused(host, paused).state;
            let store = state.store_token(
                host,
                actor,
                encrypted_payload,
                token_hash,
                last_4_digits,
                card_network,
                expires_at,
            ).state;
            &&& read.tokens.contains_key(user)
            &&& revoke.tokens.contains_key(user)
            &&& update.tokens.contains_key(user)
            &&& flag.tokens.contains_key(user)
            &&& store.tokens.contains_key(user)
            &&& !was_active ==> {
                &&& read.tokens[user].status != TokenStatus::Active
                &&& revoke.tokens[user].status != TokenStatus::Active
                &&& update.tokens[user].status != TokenStatus::Active
                &&& flag.tokens[user].status != TokenStatus::Active
                &&& store.tokens[user].status != TokenStatus::Active
            }
        }),
{
}

} // verus!
