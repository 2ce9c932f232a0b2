use policy_vault::account_abstraction::AAMode;
use policy_vault::account_abstraction::AccountAbstraction;
use policy_vault::account_abstraction::DataKey;
use policy_vault::account_abstraction::Entry;
use policy_vault::account_abstraction::SessionKey;
use policy_vault::error::Error;
use policy_vault::host::Event;
use policy_vault::host::Host;
use policy_vault::host::Payload;
use policy_vault::host::Topic;
use policy_vault::account_abstraction::META_TX_GAS_COST;
use policy_vault::principal::Principal;

fn principal(tag: u8) -> Principal {
    Principal::new(vec![tag; 32])
}

fn host_for(who: &[&Principal]) -> Host {
    let mut host = Host::new(0);
    for p in who {
        host.authorize((*p).clone());
    }
    host
}

fn meta_tx(
    engine: &mut AccountAbstraction,
    host: &mut Host,
    user: &Principal,
) -> Result<Vec<u8>, Error> {
    engine.execute_metatx(host, user.clone(), principal(200), String::from("pay"), vec![1, 2, 3])
}

#[test]
fn mode_is_standard_until_set() {
    let engine = AccountAbstraction::new();
    assert_eq!(engine.get_mode(&principal(1)), AAMode::Standard);
    assert_eq!(engine.get_mode(&Principal::new(vec![])), AAMode::Standard);
    assert_eq!(engine.get_gas_pool(), 0);
}

#[test]
fn mode_of_others_stays_standard() {
    let a = principal(1);
    let b = principal(2);
    let mut host = host_for(&[&a]);
    let mut engine = AccountAbstraction::new();

    engine.set_mode(&mut host, a.clone(), AAMode::MultiSig).unwrap();
    assert_eq!(engine.get_mode(&a), AAMode::MultiSig);
    assert_eq!(engine.get_mode(&b), AAMode::Standard);
    assert_eq!(
        host.events,
        vec![Event { topic: Topic::Mode, principal: a, payload: Payload::Mode(AAMode::MultiSig) }]
    );
}

#[test]
fn set_mode_needs_the_user_to_authorize() {
    let a = principal(1);
    let b = principal(2);
    let mut host = host_for(&[&b]);
    let mut engine = AccountAbstraction::new();

    assert_eq!(
        engine.set_mode(&mut host, a.clone(), AAMode::Sponsored),
        Err(Error::AuthenticationFailure)
    );
    assert_eq!(engine.get_mode(&a), AAMode::Standard);
    assert!(!engine.has(&DataKey::Mode(a)));
    assert!(host.events.is_empty());
}

#[test]
fn engine_initialize_again_is_rejected_and_keeps_the_first_state() {
    let owner = principal(1);
    let other = principal(2);
    let mut host = host_for(&[&owner, &other]);
    let mut engine = AccountAbstraction::new();

    assert_eq!(engine.initialize(&mut host, owner.clone(), 5000), Ok(()));
    assert_eq!(engine.initialize(&mut host, other, 1), Err(Error::AlreadyInitialized));
    assert_eq!(engine.initialize(&mut host, owner.clone(), 0), Err(Error::AlreadyInitialized));

    assert_eq!(engine.get_gas_pool(), 5000);
    assert_eq!(engine.get(&DataKey::Owner), Some(Entry::Owner(owner)));
}

#[test]
fn engine_initialize_needs_the_owner_to_authorize() {
    let owner = principal(1);
    let mut host = Host::new(0);
    let mut engine = AccountAbstraction::new();

    assert_eq!(engine.initialize(&mut host, owner, 5000), Err(Error::AuthenticationFailure));
    assert!(!engine.has(&DataKey::Owner));
    assert!(!engine.has(&DataKey::GasPool));
}

#[test]
fn setup_multisig_checks_the_threshold() {
    let user = principal(1);
    let signers = vec![principal(10), principal(11), principal(12)];
    let mut host = host_for(&[&user]);
    let mut engine = AccountAbstraction::new();

    assert_eq!(
        engine.setup_multisig(&mut host, user.clone(), signers.clone(), 0),
        Err(Error::InvalidThreshold)
    );
    assert_eq!(
        engine.setup_multisig(&mut host, user.clone(), signers.clone(), 4),
        Err(Error::InvalidThreshold)
    );
    assert_eq!(
        engine.setup_multisig(&mut host, user.clone(), vec![], 1),
        Err(Error::InvalidThreshold)
    );
    assert!(!engine.has(&DataKey::Signers(user.clone())));
    assert!(!engine.has(&DataKey::Threshold(user.clone())));
    assert_eq!(engine.get_mode(&user), AAMode::Standard);
    assert!(host.events.is_empty());

    assert_eq!(engine.setup_multisig(&mut host, user.clone(), signers.clone(), 3), Ok(()));
    assert_eq!(engine.get_mode(&user), AAMode::MultiSig);
    assert_eq!(
        engine.get(&DataKey::Signers(user.clone())),
        Some(Entry::Signers(user.clone(), signers.clone()))
    );
    assert_eq!(
        engine.get(&DataKey::Threshold(user.clone())),
        Some(Entry::Threshold(user.clone(), 3))
    );
    assert_eq!(
        host.events,
        vec![Event {
            topic: Topic::Multisig,
            principal: user.clone(),
            payload: Payload::Multisig { threshold: 3, signers: 3 },
        }]
    );

    assert_eq!(engine.setup_multisig(&mut host, user.clone(), signers, 1), Ok(()));
    assert_eq!(
        engine.get(&DataKey::Threshold(user.clone())),
        Some(Entry::Threshold(user, 1))
    );
}

#[test]
fn setup_multisig_needs_the_user_to_authorize() {
    let user = principal(1);
    let mut host = Host::new(0);
    let mut engine = AccountAbstraction::new();

    assert_eq!(
        engine.setup_multisig(&mut host, user.clone(), vec![principal(10)], 0),
        Err(Error::AuthenticationFailure)
    );
    assert_eq!(
        engine.setup_multisig(&mut host, user, vec![principal(10)], 1),
        Err(Error::AuthenticationFailure)
    );
}

#[test]
fn verify_multisig_counts_a_repeated_signer_each_time() {
    let user = principal(1);
    let a = principal(10);
    let b = principal(11);
    let c = principal(12);
    let mut host = host_for(&[&user]);
    let mut engine = AccountAbstraction::new();

    engine
        .setup_multisig(&mut host, user.clone(), vec![a.clone(), b.clone(), c.clone()], 2)
        .unwrap();

    assert!(engine.verify_multisig(&user, &vec![a.clone(), a.clone()]));
    assert!(!engine.verify_multisig(&user, &vec![a.clone()]));
    assert!(engine.verify_multisig(&user, &vec![a.clone(), b.clone()]));
    assert!(engine.verify_multisig(&user, &vec![c.clone(), principal(99), b.clone()]));
    assert!(!engine.verify_multisig(&user, &vec![principal(98), principal(99), b]));
    assert!(!engine.verify_multisig(&user, &vec![]));
    assert!(!engine.verify_multisig(&principal(2), &vec![a.clone(), c]));
}

#[test]
fn verify_multisig_needs_both_slots() {
    let user = principal(1);
    let a = principal(10);
    let mut engine = AccountAbstraction::new();

    engine.put(Entry::Signers(user.clone(), vec![a.clone()]));
    assert!(!engine.verify_multisig(&user, &vec![a.clone()]));

    engine.put(Entry::Threshold(user.clone(), 0));
    assert!(engine.verify_multisig(&user, &vec![]));

    engine.put(Entry::Threshold(user.clone(), 2));
    assert!(!engine.verify_multisig(&user, &vec![a.clone()]));
    assert!(engine.verify_multisig(&user, &vec![a.clone(), a]));
}

#[test]
fn meta_tx_by_mode() {
    let owner = principal(1);
    let user = principal(2);
    let sponsor = principal(3);
    let mut host = host_for(&[&owner, &user, &sponsor]);
    host.timestamp = 77;
    let mut engine = AccountAbstraction::new();
    engine.initialize(&mut host, owner, 2500).unwrap();

    assert_eq!(meta_tx(&mut engine, &mut host, &user), Err(Error::UnsupportedMode));

    engine.set_mode(&mut host, user.clone(), AAMode::MultiSig).unwrap();
    assert_eq!(meta_tx(&mut engine, &mut host, &user), Err(Error::UnsupportedMode));

    engine.set_mode(&mut host, user.clone(), AAMode::Sponsored).unwrap();
    assert_eq!(meta_tx(&mut engine, &mut host, &user), Err(Error::NoSponsor));
    assert_eq!(engine.get_gas_pool(), 2500);

    engine.set_sponsor(&mut host, user.clone(), sponsor.clone()).unwrap();
    assert_eq!(engine.get_mode(&user), AAMode::Sponsored);
    let events_before = host.events.len();
    assert_eq!(meta_tx(&mut engine, &mut host, &user), Ok(vec![]));
    assert_eq!(engine.get_gas_pool(), 1500);
    assert_eq!(host.events.len(), events_before + 1);
    assert_eq!(
        host.events.last(),
        Some(&Event {
            topic: Topic::MetaTx,
            principal: user.clone(),
            payload: Payload::MetaTx {
                target: principal(200),
                function: String::from("pay"),
                timestamp: 77,
            },
        })
    );

    assert_eq!(meta_tx(&mut engine, &mut host, &user), Ok(vec![]));
    assert_eq!(engine.get_gas_pool(), 500);

    let events_before = host.events.len();
    assert_eq!(meta_tx(&mut engine, &mut host, &user), Err(Error::InsufficientGasPool));
    assert_eq!(engine.get_gas_pool(), 500);
    assert_eq!(host.events.len(), events_before);
}

#[test]
fn meta_tx_takes_the_pool_down_to_zero() {
    let user = principal(2);
    let mut host = host_for(&[&user]);
    let mut engine = AccountAbstraction::new();
    engine.put(Entry::GasPool(META_TX_GAS_COST));
    engine.put(Entry::Mode(user.clone(), AAMode::SessionKey));

    assert_eq!(meta_tx(&mut engine, &mut host, &user), Ok(vec![]));
    assert_eq!(engine.get_gas_pool(), 0);
    assert_eq!(meta_tx(&mut engine, &mut host, &user), Err(Error::InsufficientGasPool));

    engine.put(Entry::GasPool(999));
    assert_eq!(meta_tx(&mut engine, &mut host, &user), Err(Error::InsufficientGasPool));
    engine.put(Entry::GasPool(-1));
    assert_eq!(meta_tx(&mut engine, &mut host, &user), Err(Error::InsufficientGasPool));
    assert_eq!(engine.get_gas_pool(), -1);
}

#[test]
fn meta_tx_without_a_pool_is_insufficient() {
    let user = principal(2);
    let mut host = host_for(&[&user]);
    let mut engine = AccountAbstraction::new();
    engine.set_mode(&mut host, user.clone(), AAMode::SessionKey).unwrap();

    assert_eq!(meta_tx(&mut engine, &mut host, &user), Err(Error::InsufficientGasPool));
    assert!(!engine.has(&DataKey::GasPool));
}

#[test]
fn meta_tx_needs_the_user_to_authorize() {
    let user = principal(2);
    let mut host = Host::new(0);
    let mut engine = AccountAbstraction::new();
    engine.put(Entry::GasPool(5000));
    engine.put(Entry::Mode(user.clone(), AAMode::SessionKey));

    assert_eq!(meta_tx(&mut engine, &mut host, &user), Err(Error::AuthenticationFailure));
    assert_eq!(engine.get_gas_pool(), 5000);
}

#[test]
fn set_sponsor_is_granted_by_the_sponsor() {
    let user = principal(2);
    let sponsor = principal(3);
    let mut engine = AccountAbstraction::new();

    let mut by_user = host_for(&[&user]);
    assert_eq!(
        engine.set_sponsor(&mut by_user, user.clone(), sponsor.clone()),
        Err(Error::AuthenticationFailure)
    );
    assert_eq!(engine.get_mode(&user), AAMode::Standard);
    assert!(!engine.has(&DataKey::Sponsor(user.clone())));

    let mut by_sponsor = host_for(&[&sponsor]);
    assert_eq!(engine.set_sponsor(&mut by_sponsor, user.clone(), sponsor.clone()), Ok(()));
    assert_eq!(engine.get_mode(&user), AAMode::Sponsored);
    assert_eq!(
        engine.get(&DataKey::Sponsor(user.clone())),
        Some(Entry::Sponsor(user.clone(), sponsor.clone()))
    );
    assert_eq!(
        by_sponsor.events,
        vec![Event {
            topic: Topic::Sponsor,
            principal: user,
            payload: Payload::Principal(sponsor),
        }]
    );
}

#[test]
fn fund_gas_pool_is_for_the_owner() {
    let owner = principal(1);
    let other = principal(2);
    let mut engine = AccountAbstraction::new();

    let mut by_other = host_for(&[&other]);
    assert_eq!(engine.fund_gas_pool(&mut by_other, 10), Err(Error::AuthenticationFailure));

    let mut host = host_for(&[&owner]);
    engine.initialize(&mut host, owner.clone(), 100).unwrap();

    assert_eq!(engine.fund_gas_pool(&mut by_other, 10), Err(Error::AuthenticationFailure));
    assert_eq!(engine.get_gas_pool(), 100);
    assert!(by_other.events.is_empty());

    assert_eq!(engine.fund_gas_pool(&mut host, 250), Ok(()));
    assert_eq!(engine.get_gas_pool(), 350);
    assert_eq!(engine.fund_gas_pool(&mut host, -50), Ok(()));
    assert_eq!(engine.get_gas_pool(), 300);
    assert_eq!(engine.fund_gas_pool(&mut host, 0), Ok(()));
    assert_eq!(engine.get_gas_pool(), 300);
    assert_eq!(
        host.events,
        vec![
            Event { topic: Topic::Fund, principal: owner.clone(), payload: Payload::Amount(250) },
            Event { topic: Topic::Fund, principal: owner.clone(), payload: Payload::Amount(-50) },
            Event { topic: Topic::Fund, principal: owner, payload: Payload::Amount(0) },
        ]
    );
}

#[test]
fn session_key_is_good_until_it_expires() {
    let user = principal(2);
    let key = [7u8; 32];
    let mut host = host_for(&[&user]);
    host.timestamp = 1000;
    let mut engine = AccountAbstraction::new();

    assert!(!engine.verify_session_key(&host, &user, &key));

    engine
        .add_session_key(
            &mut host,
            user.clone(),
            key,
            60,
            vec![String::from("transfer"), String::from("swap")],
        )
        .unwrap();

    assert_eq!(engine.get_mode(&user), AAMode::SessionKey);
    assert_eq!(
        host.events,
        vec![Event {
            topic: Topic::Session,
            principal: user.clone(),
            payload: Payload::Timestamp(1060),
        }]
    );
    assert_eq!(
        engine.get(&DataKey::SessionKey(user.clone())),
        Some(Entry::SessionKey(
            user.clone(),
            vec![SessionKey {
                key,
                expires_at: 1060,
                permissions: vec![String::from("transfer"), String::from("swap")],
            }]
        ))
    );

    assert!(engine.verify_session_key(&host, &user, &key));
    host.timestamp = 1059;
    assert!(engine.verify_session_key(&host, &user, &key));
    host.timestamp = 1060;
    assert!(!engine.verify_session_key(&host, &user, &key));
    host.timestamp = 5000;
    assert!(!engine.verify_session_key(&host, &user, &key));

    host.timestamp = 1000;
    let mut other_key = key;
    other_key[31] = 8;
    assert!(!engine.verify_session_key(&host, &user, &other_key));
    assert!(!engine.verify_session_key(&host, &principal(3), &key));
}

#[test]
fn session_keys_pile_up_in_order() {
    let user = principal(2);
    let mut host = host_for(&[&user]);
    let mut engine = AccountAbstraction::new();

    engine.add_session_key(&mut host, user.clone(), [1u8; 32], 10, vec![]).unwrap();
    engine.add_session_key(&mut host, user.clone(), [2u8; 32], 5, vec![]).unwrap();
    engine.add_session_key(&mut host, user.clone(), [1u8; 32], 3, vec![]).unwrap();

    assert_eq!(
        engine.get(&DataKey::SessionKey(user.clone())),
        Some(Entry::SessionKey(
            user.clone(),
            vec![
                SessionKey { key: [1u8; 32], expires_at: 10, permissions: vec![] },
                SessionKey { key: [2u8; 32], expires_at: 5, permissions: vec![] },
                SessionKey { key: [1u8; 32], expires_at: 3, permissions: vec![] },
            ]
        ))
    );

    host.timestamp = 4;
    assert!(engine.verify_session_key(&host, &user, &[1u8; 32]));
    assert!(engine.verify_session_key(&host, &user, &[2u8; 32]));
    host.timestamp = 5;
    assert!(engine.verify_session_key(&host, &user, &[1u8; 32]));
    assert!(!engine.verify_session_key(&host, &user, &[2u8; 32]));
    host.timestamp = 10;
    assert!(!engine.verify_session_key(&host, &user, &[1u8; 32]));
}

#[test]
fn add_session_key_needs_the_user_to_authorize() {
    let user = principal(2);
    let mut host = Host::new(0);
    let mut engine = AccountAbstraction::new();

    assert_eq!(
        engine.add_session_key(&mut host, user.clone(), [1u8; 32], 10, vec![]),
        Err(Error::AuthenticationFailure)
    );
    assert!(!engine.has(&DataKey::SessionKey(user.clone())));
    assert_eq!(engine.get_mode(&user), AAMode::Standard);
}

#[test]
fn engine_slots_can_be_written_and_read_back() {
    let user = principal(2);
    let mut engine = AccountAbstraction::new();
    assert_eq!(engine.get(&DataKey::Mode(user.clone())), None);
    assert_eq!(engine.get(&DataKey::GasPool), None);
    assert_eq!(engine.get(&DataKey::Owner), None);

    engine.put(Entry::Mode(user.clone(), AAMode::Sponsored));
    engine.put(Entry::GasPool(12));
    engine.put(Entry::Mode(user.clone(), AAMode::SessionKey));

    assert_eq!(
        engine.get(&DataKey::Mode(user.clone())),
        Some(Entry::Mode(user.clone(), AAMode::SessionKey))
    );
    assert_eq!(engine.get(&DataKey::GasPool), Some(Entry::GasPool(12)));
    assert_eq!(engine.get_mode(&user), AAMode::SessionKey);
    assert!(!engine.has(&DataKey::Mode(principal(3))));
}
