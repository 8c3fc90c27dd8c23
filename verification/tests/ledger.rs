use hotpotato::AccountId;
use hotpotato::HotPotatoError;
use hotpotato::Hotpotato;

fn alice() -> AccountId {
    AccountId::from([0x01; 32])
}

fn bob() -> AccountId {
    AccountId::from([0x02; 32])
}

fn charlie() -> AccountId {
    AccountId::from([0x03; 32])
}

#[test]
fn start_game_minted_works() {
    let mut hotpotato = Hotpotato::new(10);
    assert_eq!(hotpotato.get_next_token_id(), 0);
    assert_eq!(hotpotato.get_live_token_id(), None);

    assert_eq!(hotpotato.start_game_minted(alice(), bob(), 0, Ok(())), Ok(()));

    assert!(hotpotato.is_active());
    assert_eq!(hotpotato.get_holder(), Some(bob()));
    assert_eq!(hotpotato.get_live_token_id(), Some(0));
    assert_eq!(hotpotato.get_next_token_id(), 1);
}

#[test]
fn start_game_minted_ledger_failure_is_atomic() {
    let mut hotpotato = Hotpotato::new(10);

    assert_eq!(
        hotpotato.start_game_minted(alice(), bob(), 0, Err(7)),
        Err(HotPotatoError::LedgerError(7))
    );

    assert!(!hotpotato.is_active());
    assert_eq!(hotpotato.get_holder(), None);
    assert_eq!(hotpotato.get_live_token_id(), None);
    assert_eq!(hotpotato.get_next_token_id(), 0);
}

#[test]
fn pass_potato_transferred_works() {
    let mut hotpotato = Hotpotato::new(10);

    assert_eq!(hotpotato.start_game_minted(alice(), bob(), 0, Ok(())), Ok(()));
    assert_eq!(
        hotpotato.pass_potato_transferred(bob(), charlie(), 4, Ok(())),
        Ok(())
    );

    assert_eq!(hotpotato.get_holder(), Some(charlie()));
    assert_eq!(hotpotato.get_last_passed_block(), 4);
    assert_eq!(hotpotato.get_live_token_id(), Some(0));
}

#[test]
fn pass_potato_transferred_ledger_failure_is_atomic() {
    let mut hotpotato = Hotpotato::new(10);

    assert_eq!(hotpotato.start_game_minted(alice(), bob(), 0, Ok(())), Ok(()));
    assert_eq!(
        hotpotato.pass_potato_transferred(bob(), charlie(), 4, Err(9)),
        Err(HotPotatoError::LedgerError(9))
    );

    assert_eq!(hotpotato.get_holder(), Some(bob()));
    assert_eq!(hotpotato.get_last_passed_block(), 0);
    assert_eq!(hotpotato.get_live_token_id(), Some(0));
}

#[test]
fn pass_potato_transferred_checks_come_first() {
    let mut hotpotato = Hotpotato::new(10);

    // Authorization is judged before the ledger outcome is even looked at.
    assert_eq!(
        hotpotato.pass_potato_transferred(bob(), charlie(), 0, Err(9)),
        Err(HotPotatoError::GameNotActive)
    );

    assert_eq!(hotpotato.start_game_minted(alice(), bob(), 0, Ok(())), Ok(()));
    assert_eq!(
        hotpotato.pass_potato_transferred(charlie(), bob(), 1, Err(9)),
        Err(HotPotatoError::NotCurrentHolder)
    );
    assert_eq!(
        hotpotato.pass_potato_transferred(bob(), charlie(), 11, Err(9)),
        Err(HotPotatoError::DeadlinePassed)
    );
    assert_eq!(hotpotato.get_holder(), Some(bob()));
}

#[test]
fn check_deadline_burned_resolves() {
    let mut hotpotato = Hotpotato::new(10);

    assert_eq!(hotpotato.start_game_minted(alice(), bob(), 0, Ok(())), Ok(()));
    assert_eq!(hotpotato.check_deadline_burned(11, Ok(())), Ok(true));

    assert!(!hotpotato.is_active());
    assert_eq!(hotpotato.get_holder(), None);
    assert_eq!(hotpotato.get_live_token_id(), None);

    assert_eq!(hotpotato.check_deadline_burned(12, Ok(())), Ok(false));
}

#[test]
fn check_deadline_burned_failure_keeps_the_game() {
    let mut hotpotato = Hotpotato::new(10);

    assert_eq!(hotpotato.start_game_minted(alice(), bob(), 0, Ok(())), Ok(()));
    assert_eq!(
        hotpotato.check_deadline_burned(11, Err(3)),
        Err(HotPotatoError::LedgerError(3))
    );

    // The burn failed, so the game still stands and resolution can be retried.
    assert!(hotpotato.is_active());
    assert_eq!(hotpotato.get_holder(), Some(bob()));
    assert_eq!(hotpotato.get_live_token_id(), Some(0));

    assert_eq!(hotpotato.check_deadline_burned(12, Ok(())), Ok(true));
    assert!(!hotpotato.is_active());
}

#[test]
fn check_deadline_burned_ignores_burn_before_expiry() {
    let mut hotpotato = Hotpotato::new(10);

    assert_eq!(hotpotato.start_game_minted(alice(), bob(), 0, Ok(())), Ok(()));
    assert_eq!(hotpotato.check_deadline_burned(10, Err(3)), Ok(false));
    assert!(hotpotato.is_active());
}

#[test]
fn minted_games_use_fresh_token_identities() {
    let mut hotpotato = Hotpotato::new(10);

    assert_eq!(hotpotato.start_game_minted(alice(), bob(), 0, Ok(())), Ok(()));
    assert_eq!(hotpotato.end_game(alice()), Ok(()));
    assert_eq!(hotpotato.get_live_token_id(), None);

    assert_eq!(hotpotato.start_game_minted(alice(), charlie(), 20, Ok(())), Ok(()));
    assert_eq!(hotpotato.get_live_token_id(), Some(1));
    assert_eq!(hotpotato.get_next_token_id(), 2);
}

#[test]
fn caller_to_account_id_pads_with_zeroes() {
    let caller = [0xAB_u8; 20];
    let account = Hotpotato::caller_to_account_id(&caller);
    for i in 0..20 {
        assert_eq!(account.bytes[i], 0xAB);
    }
    for i in 20..32 {
        assert_eq!(account.bytes[i], 0x00);
    }
}

#[test]
fn account_id_equality_is_by_bytes() {
    let a = AccountId::from([0x05; 32]);
    let b = AccountId::from([0x05; 32]);
    assert_eq!(a, b);

    let mut other_bytes = [0x05; 32];
    other_bytes[31] = 0x06;
    let c = AccountId::from(other_bytes);
    assert_ne!(a, c);
}
