//! What holds of the policy engine across invocations, proved of its
//! storage model.

use vstd::prelude::*;
use crate::account_abstraction::AAMode;
use crate::account_abstraction::META_TX_GAS_COST;
use crate::error::Error;
use crate::host::HostView;
use crate::policy_state::PolicyState;

verus! {

/// In storage that was never touched, every principal is in `Standard`
/// mode.
pub proof fn law_mode_defaults_to_standard(user: Seq<u8>)
    ensures
        PolicyState::empty().get_mode(user) == AAMode::Standard,
{
}

/// A principal keeps its mode through every invocation that is not a
/// successful `set_mode`, `set_sponsor`, `add_session_key` or
/// `setup_multisig` for that very principal. So a principal that never had
/// one of these is in `Standard` mode.
pub proof fn law_mode_changes_only_for_its_principal(
    state: PolicyState,
    host: HostView,
    user: Seq<u8>,
    other: Seq<u8>,
    mode: AAMode,
    sponsor: Seq<u8>,
    session_key: [u8; 32],
    duration: u64,
    permissions: Seq<Seq<char>>,
    signers: Seq<Seq<u8>>,
    threshold: u32,
    target: Seq<u8>,
    function: Seq<char>,
    amount: i128,
)
    ensures
        state.initialize(host, other, amount).state.get_mode(user) == state.get_mode(user),
        state.fund_gas_pool(host, amount).state.get_mode(user) == state.get_mode(user),
        state.execute_metatx(host, other, target, function).state.get_mode(user) == state.get_mode(
            user,
        ),
        other != user ==> state.set_mode(host, other, mode).state.get_mode(user) == state.get_mode(
            user,
        ),
        other != user ==> state.set_sponsor(host, other, sponsor).state.get_mode(user)
            == state.get_mode(user),
        other != user ==> state.add_session_key(
            host,
            other,
            session_key,
            duration,
            permissions,
        ).state.get_mode(user) == state.get_mode(user),
        other != user ==> state.setup_multisig(host, other, signers, threshold).state.get_mode(user)
            == state.get_mode(user),
        state.set_mode(host, user, mode).result is Err ==> state.set_mode(
            host,
            user,
            mode,
        ).state.get_mode(user) == state.get_mode(user),
{
}

/// A successful `set_mode`, `set_sponsor`, `add_session_key` or
/// `setup_multisig` leaves its principal in the mode it names, whatever the
/// mode was.
pub proof fn law_mode_is_what_was_set_last(
    state: PolicyState,
    host: HostView,
    user: Seq<u8>,
    mode: AAMode,
    sponsor: Seq<u8>,
    session_key: [u8; 32],
    duration: u64,
    permissions: Seq<Seq<char>>,
    signers: Seq<Seq<u8>>,
    threshold: u32,
)
    ensures
        ({
            let step = state.set_mode(host, user, mode);
            step.result is Ok ==> step.state.get_mode(user) == mode
        }),
        ({
            let step = state.set_sponsor(host, user, sponsor);
            step.result is Ok ==> step.state.get_mode(user) == AAMode::Sponsored
                && step.state.sponsors[user] == sponsor
        }),
        ({
            let step = state.add_session_key(host, user, session_key, duration, permissions);
            step.result is Ok ==> step.state.get_mode(user) == AAMode::SessionKey
        }),
        ({
            let step = state.setup_multisig(host, user, signers, threshold);
            step.result is Ok ==> step.state.get_mode(user) == AAMode::MultiSig
        }),
{
}

/// Once the engine has an owner, no operation changes it.
pub proof fn law_owner_is_kept(
    state: PolicyState,
    host: HostView,
    user: Seq<u8>,
    other: Seq<u8>,
    mode: AAMode,
    session_key: [u8; 32],
    duration: u64,
    permissions: Seq<Seq<char>>,
    signers: Seq<Seq<u8>>,
    threshold: u32,
    function: Seq<char>,
    amount: i128,
)
    requires
        state.owner is Some,
    ensures
        state.initialize(host, user, amount).state.owner == state.owner,
        state.set_mode(host, user, mode).state.owner == state.owner,
        state.set_sponsor(host, user, other).state.owner == state.owner,
        state.add_session_key(host, user, session_key, duration, permissions).state.owner
            == state.owner,
        state.setup_multisig(host, user, signers, threshold).state.owner == state.owner,
        state.execute_metatx(host, user, other, function).state.owner == state.owner,
        state.fund_gas_pool(host, amount).state.owner == state.owner,
{
}

/// Once `initialize` has succeeded, every later `initialize` is rejected as
/// `AlreadyInitialized`, whoever asks and with whatever balance, and leaves
/// the owner, the pool and all else as the first one set them.
pub proof fn law_initialize_only_once(
    state: PolicyState,
    first_host: HostView,
    first_owner: Seq<u8>,
    first_balance: i128,
    second_host: HostView,
    second_owner: Seq<u8>,
    second_balance: i128,
)
    requires
        state.initialize(first_host, first_owner, first_balance).result is Ok,
    ensures
        ({
            let first = state.initialize(first_host, first_owner, first_balance);
            let second = first.state.initialize(second_host, second_owner, second_balance);
            &&& first.state.owner == Some(first_owner)
            &&& first.state.get_gas_pool() == first_balance
            &&& second.result == Err::<(), Error>(Error::AlreadyInitialized)
            &&& second.state == first.state
            &&& second.event is None
        }),
{
}

/// `setup_multisig` by an authorized principal with a threshold of zero, or
/// one above the number of signers, is rejected as `InvalidThreshold` and
/// stores nothing; with any other threshold it succeeds. Whoever asks, a
/// threshold out of range is rejected and stores nothing.
pub proof fn law_threshold_is_checked(
    state: PolicyState,
    host: HostView,
    user: Seq<u8>,
    signers: Seq<Seq<u8>>,
    threshold: u32,
)
    ensures
        ({
            let step = state.setup_multisig(host, user, signers, threshold);
            let out_of_range = threshold == 0 || threshold > signers.len();
            &&& out_of_range ==> step.result is Err && step.state == state && step.event is None
            &&& host.authorized.contains(user) && out_of_range ==> step.result == Err::<(), Error>(
                Error::InvalidThreshold,
            )
            &&& host.authorized.contains(user) && !out_of_range ==> step.result is Ok
        }),
{
}

/// After a successful `setup_multisig` the stored threshold is at least one
/// and at most the number of stored signers, and the principal is in
/// multi-signature mode.
pub proof fn law_stored_threshold_in_range(
    state: PolicyState,
    host: HostView,
    user: Seq<u8>,
    signers: Seq<Seq<u8>>,
    threshold: u32,
)
    requires
        state.setup_multisig(host, user, signers, threshold).result is Ok,
    ensures
        ({
            let after = state.setup_multisig(host, user, signers, threshold).state;
            &&& after.signers[user] == signers
            &&& after.thresholds[user] == threshold
            &&& 1 <= after.thresholds[user] <= after.signers[user].len()
            &&& after.get_mode(user) == AAMode::MultiSig
        }),
{
}

/// Each entry of `signatures` that names a signer raises the count by one,
/// whether or not the entries before it named the same signer; an entry that
/// names none leaves the count as it was.
pub proof fn law_each_signature_counts(
    signatures: Seq<Seq<u8>>,
    signers: Seq<Seq<u8>>,
    next: Seq<u8>,
)
    ensures
        PolicyState::valid_count(signatures.push(next), signers) == PolicyState::valid_count(
            signatures,
            signers,
        ) + if signers.contains(next) {
            1nat
        } else {
            0nat
        },
        PolicyState::valid_count(Seq::empty(), signers) == 0,
        PolicyState::valid_count(signatures, signers) <= signatures.len(),
{
    reveal(Seq::filter);
    assert(signatures.push(next).drop_last() =~= signatures);
    signatures.lemma_filter_len(|s: Seq<u8>| signers.contains(s));
}

/// One signer named as often as the threshold asks verifies, with no other
/// signer taking part: `verify_multisig` does not tell a repeated identity
/// from distinct ones.
pub proof fn law_one_signer_repeated_meets_the_threshold(
    state: PolicyState,
    user: Seq<u8>,
    signer: Seq<u8>,
    times: nat,
)
    requires
        state.signers.contains_key(user),
        state.thresholds.contains_key(user),
        state.signers[user].contains(signer),
    ensures
        PolicyState::valid_count(Seq::new(times, |i: int| signer), state.signers[user]) == times,
        state.verify_multisig(user, Seq::new(times, |i: int| signer)) == (times
            >= state.thresholds[user]),
    decreases times,
{
    let signers = state.signers[user];
    if times == 0 {
        assert(Seq::new(times, |i: int| signer) =~= Seq::<Seq<u8>>::empty());
        law_each_signature_counts(Seq::empty(), signers, signer);
    } else {
        let shorter = Seq::new((times - 1) as nat, |i: int| signer);
        law_one_signer_repeated_meets_the_threshold(state, user, signer, (times - 1) as nat);
        law_each_signature_counts(shorter, signers, signer);
        assert(Seq::new(times, |i: int| signer) =~= shorter.push(signer));
    }
}

/// What `execute_metatx` answers an authorized principal, by its mode:
/// sponsored without a sponsor, `NoSponsor`; standard or multi-signature,
/// `UnsupportedMode`; sponsored with a sponsor, or in session-key mode, it
/// goes through if the pool holds the cost, and is rejected as
/// `InsufficientGasPool` if not. Going through takes exactly the cost from
/// the pool, which is then not negative; a rejection takes nothing.
pub proof fn law_meta_tx_by_mode(
    state: PolicyState,
    host: HostView,
    user: Seq<u8>,
    target: Seq<u8>,
    function: Seq<char>,
)
    requires
        host.authorized.contains(user),
    ensures
        ({
            let step = state.execute_metatx(host, user, target, function);
            let mode = state.get_mode(user);
            let sponsored = state.sponsors.contains_key(user);
            let admitted = (mode == AAMode::Sponsored && sponsored) || mode == AAMode::SessionKey;
            &&& mode == AAMode::Sponsored && !sponsored ==> step.result == Err::<Seq<u8>, Error>(
                Error::NoSponsor,
            )
            &&& mode == AAMode::Standard || mode == AAMode::MultiSig ==> step.result == Err::<
                Seq<u8>,
                Error,
            >(Error::UnsupportedMode)
            &&& admitted && state.get_gas_pool() < META_TX_GAS_COST ==> step.result == Err::<
                Seq<u8>,
                Error,
            >(Error::InsufficientGasPool)
            &&& admitted && state.get_gas_pool() >= META_TX_GAS_COST ==> {
                &&& step.result == Ok::<Seq<u8>, Error>(Seq::empty())
                &&& step.state.get_gas_pool() == state.get_gas_pool() - 1000
                &&& step.state.get_gas_pool() >= 0
                &&& step.event is Some
            }
            &&& step.result is Err ==> step.state == state && step.event is None
        }),
{
}

/// `execute_metatx` touches nothing but the pool's balance.
pub proof fn law_meta_tx_touches_only_the_pool(
    state: PolicyState,
    host: HostView,
    user: Seq<u8>,
    target: Seq<u8>,
    function: Seq<char>,
)
    ensures
        ({
            let after = state.execute_metatx(host, user, target, function).state;
            after == (PolicyState { gas_pool: after.gas_pool, ..state })
        }),
{
}

/// `fund_gas_pool` is rejected as `AuthenticationFailure`, leaving the pool
/// as it was, unless the engine's owner authorized it; when the owner did,
/// the pool grows by exactly the amount.
pub proof fn law_only_the_owner_funds(state: PolicyState, host: HostView, amount: i128)
    requires
        i128::MIN <= state.get_gas_pool() + amount <= i128::MAX,
    ensures
        ({
            let step = state.fund_gas_pool(host, amount);
            let by_owner = state.owner matches Some(owner) && host.authorized.contains(owner);
            &&& !by_owner ==> step.result == Err::<(), Error>(Error::AuthenticationFailure)
                && step.state == state && step.event is None
            &&& by_owner ==> step.result is Ok && step.state.get_gas_pool() == state.get_gas_pool()
                + amount
        }),
{
}

/// After `add_session_key` has registered a key that expires at
/// `now + duration`, `verify_session_key` accepts that key at any time before
/// then. At that time and later it answers what it answered before the key
/// was added: `false`, unless an older record of the same key is still
/// good.
pub proof fn law_session_key_good_until_expiry(
    state: PolicyState,
    host: HostView,
    user: Seq<u8>,
    session_key: [u8; 32],
    duration: u64,
    permissions: Seq<Seq<char>>,
    later: u64,
)
    requires
        host.timestamp + duration <= u64::MAX,
        state.add_session_key(host, user, session_key, duration, permissions).result is Ok,
    ensures
        ({
            let after = state.add_session_key(host, user, session_key, duration, permissions).state;
            let expires_at = host.timestamp + duration;
            &&& later < expires_at ==> after.verify_session_key(later, user, session_key)
            &&& later >= expires_at ==> after.verify_session_key(later, user, session_key)
                == state.verify_session_key(later, user, session_key)
            &&& later >= expires_at && state.session_keys_of(user).len() == 0
                ==> !after.verify_session_key(later, user, session_key)
        }),
{
    let after = state.add_session_key(host, user, session_key, duration, permissions).state;
    let before_keys = state.session_keys_of(user);
    let after_keys = after.session_keys_of(user);
    assert(after_keys == before_keys.push(after_keys[before_keys.len() as int]));
    let expires_at = host.timestamp + duration;
    if later < expires_at {
        assert(after_keys[before_keys.len() as int].accepts(session_key, later));
    } else {
        if state.verify_session_key(later, user, session_key) {
            let i = choose|i: int|
                0 <= i < before_keys.len() && (#[trigger] before_keys[i]).accepts(
                    session_key,
                    later,
                );
            assert(after_keys[i].accepts(session_key, later));
        }
        if after.verify_session_key(later, user, session_key) {
            let i = choose|i: int|
                0 <= i < after_keys.len() && (#[trigger] after_keys[i]).accepts(session_key, later);
            assert(i < before_keys.len());
            assert(before_keys[i].accepts(session_key, later));
        }
    }
}

/// `add_session_key` only appends: the keys a principal had stay, in their
/// order, in front of the new one, and no other principal's keys change.
pub proof fn law_session_keys_only_grow(
    state: PolicyState,
    host: HostView,
    user: Seq<u8>,
    session_key: [u8; 32],
    duration: u64,
    permissions: Seq<Seq<char>>,
    other: Seq<u8>,
)
    ensures
        ({
            let step = state.add_session_key(host, user, session_key, duration, permissions);
            let before = state.session_keys_of(user);
            let after = step.state.session_keys_of(user);
            &&& step.result is Ok ==> after.len() == before.len() + 1 && after.drop_last()
                == before
            &&& step.result is Err ==> after == before
            &&& other != user ==> step.state.session_keys_of(other) == state.session_keys_of(other)
        }),
{
    let step = state.add_session_key(host, user, session_key, duration, permissions);
    if step.result is Ok {
        assert(step.state.session_keys_of(user).drop_last() =~= state.session_keys_of(user));
    }
}

/// A rejected invocation leaves the storage as it was and publishes
/// nothing, whichever operation it was.
pub proof fn law_rejection_changes_nothing(
    state: PolicyState,
    host: HostView,
    user: Seq<u8>,
    other: Seq<u8>,
    mode: AAMode,
    session_key: [u8; 32],
    duration: u64,
    permissions: Seq<Seq<char>>,
    signers: Seq<Seq<u8>>,
    threshold: u32,
    function: Seq<char>,
    amount: i128,
)
    ensures
        ({
            let step = state.initialize(host, user, amount);
            step.result is Err ==> step.state == state && step.event is None
        }),
        ({
            let step = state.set_mode(host, user, mode);
            step.result is Err ==> step.state == state && step.event is None
        }),
        ({
            let step = state.set_sponsor(host, user, other);
            step.result is Err ==> step.state == state && step.event is None
        }),
        ({
            let step = state.add_session_key(host, user, session_key, duration, permissions);
            step.result is Err ==> step.state == state && step.event is None
        }),
        ({
            let step = state.setup_multisig(host, user, signers, threshold);
            step.result is Err ==> step.state == state && step.event is None
        }),
        ({
            let step = state.execute_metatx(host, user, other, function);
            step.result is Err ==> step.state == state && step.event is None
        }),
        ({
            let step = state.fund_gas_pool(host, amount);
            step.result is Err ==> step.state == state && step.event is None
        }),
{
}

} // verus!
