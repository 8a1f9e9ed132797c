use rtwalk::account::Account;
use rtwalk::durable::DurableStore;
use rtwalk::errors::AuthError;
use rtwalk::registration::{begin_registration, verify_registration};
use rtwalk::volatile::VolatileStore;

const NOW: u64 = 1_700_000_000;

fn wrong_code(code: u64) -> u64 {
    if code == 99999 {
        10000
    } else {
        code + 1
    }
}

#[test]
fn registration_round_trip() {
    let db0 = DurableStore::new();
    let mut db = db0;
    let mut vs = VolatileStore::new();
    let mail = begin_registration(
        &db,
        &mut vs,
        "alice".to_string(),
        "alice@x.com".to_string(),
        "correct horse battery staple".to_string(),
        NOW,
    )
    .unwrap()
    .unwrap();
    assert_eq!(mail.username, "alice");
    assert_eq!(mail.email, "alice@x.com");
    assert!((10000..=99999).contains(&mail.code));

    let account = verify_registration(&mut db, &mut vs, &"alice".to_string(), mail.code, NOW + 10)
        .unwrap();
    assert_eq!(account.username, "alice");
    assert!(!account.bot);
    assert!(!account.admin);
    // the bundle is consumed
    assert!(vs.pending_code(&"alice".to_string(), NOW + 10).is_none());
}

#[test]
fn test_user_creation() {
    let mut db = DurableStore::new();
    let mut vs = VolatileStore::new();
    let r = begin_registration(
        &db,
        &mut vs,
        "test_user_creation".to_string(),
        "test@example.com".to_string(),
        "sTrOnGPaSs19@!".to_string(),
        NOW,
    );
    assert!(matches!(r, Ok(Some(_))));
    let code = vs.pending_code(&"test_user_creation".to_string(), NOW).unwrap();
    let account =
        verify_registration(&mut db, &mut vs, &"test_user_creation".to_string(), code, NOW)
            .unwrap();
    assert_eq!(account.username, "test_user_creation");
}

#[test]
fn duplicate_username_is_refused() {
    let mut db = DurableStore::new();
    let mut vs = VolatileStore::new();
    let mail = begin_registration(
        &db,
        &mut vs,
        "dup".to_string(),
        "dup@x.com".to_string(),
        "correct horse battery staple".to_string(),
        NOW,
    )
    .unwrap()
    .unwrap();

    // a second registration while the first is pending
    let r = begin_registration(
        &db,
        &mut vs,
        "dup".to_string(),
        "other@x.com".to_string(),
        "correct horse battery staple".to_string(),
        NOW + 1,
    );
    assert_eq!(r.unwrap_err(), AuthError::UsernameAlreadyExists);

    verify_registration(&mut db, &mut vs, &"dup".to_string(), mail.code, NOW + 2).unwrap();

    // and once the account is durable
    let r = begin_registration(
        &db,
        &mut vs,
        "dup".to_string(),
        "third@x.com".to_string(),
        "correct horse battery staple".to_string(),
        NOW + 3,
    );
    assert_eq!(r.unwrap_err(), AuthError::UsernameAlreadyExists);
}

#[test]
fn wrong_codes_burn_attempts_then_expire() {
    let mut db = DurableStore::new();
    let mut vs = VolatileStore::new();
    let mail = begin_registration(
        &db,
        &mut vs,
        "bob".to_string(),
        "bob@x.com".to_string(),
        "correct horse battery staple".to_string(),
        NOW,
    )
    .unwrap()
    .unwrap();
    let username = "bob".to_string();
    let bad = wrong_code(mail.code);
    assert_eq!(vs.remaining_attempts(&username, NOW), Some(4));
    for burned in 1..=4i64 {
        let r = verify_registration(&mut db, &mut vs, &username, bad, NOW);
        assert_eq!(r.unwrap_err(), AuthError::InvalidVerificationCode);
        assert_eq!(vs.remaining_attempts(&username, NOW), Some(4 - burned));
    }
    // fifth call fails as expired even with the correct code, and the
    // bundle is gone
    let r = verify_registration(&mut db, &mut vs, &username, mail.code, NOW);
    assert_eq!(r.unwrap_err(), AuthError::VerificationCodeExpired);
    assert!(vs.pending_code(&username, NOW).is_none());
    assert!(vs.remaining_attempts(&username, NOW).is_none());
}

#[test]
fn expired_bundle_fails_closed() {
    let mut db = DurableStore::new();
    let mut vs = VolatileStore::new();
    let mail = begin_registration(
        &db,
        &mut vs,
        "late".to_string(),
        "late@x.com".to_string(),
        "correct horse battery staple".to_string(),
        NOW,
    )
    .unwrap()
    .unwrap();
    // five minutes later the bundle has lapsed
    let r = verify_registration(&mut db, &mut vs, &"late".to_string(), mail.code, NOW + 300);
    assert_eq!(r.unwrap_err(), AuthError::VerificationCodeExpired);
    // an unknown username reads the same
    let r = verify_registration(&mut db, &mut vs, &"nobody".to_string(), 12345, NOW);
    assert_eq!(r.unwrap_err(), AuthError::VerificationCodeExpired);
}

#[test]
fn email_collision_is_silently_accepted() {
    let mut db = DurableStore::new();
    let mut vs = VolatileStore::new();
    let mail = begin_registration(
        &db,
        &mut vs,
        "carol".to_string(),
        "carol@x.com".to_string(),
        "correct horse battery staple".to_string(),
        NOW,
    )
    .unwrap()
    .unwrap();
    verify_registration(&mut db, &mut vs, &"carol".to_string(), mail.code, NOW).unwrap();

    // same contact, different username: reported as success, but no
    // bundle is written
    let r = begin_registration(
        &db,
        &mut vs,
        "carol2".to_string(),
        "carol@x.com".to_string(),
        "correct horse battery staple".to_string(),
        NOW + 1,
    );
    assert!(matches!(r, Ok(None)));
    assert!(vs.pending_code(&"carol2".to_string(), NOW + 1).is_none());
    assert!(!vs.has_pending(&"carol2".to_string(), NOW + 1));
}

#[test]
fn durable_conflict_surfaces_as_internal() {
    let mut db = DurableStore::new();
    let mut vs = VolatileStore::new();
    let mail = begin_registration(
        &db,
        &mut vs,
        "clash".to_string(),
        "clash@x.com".to_string(),
        "correct horse battery staple".to_string(),
        NOW,
    )
    .unwrap()
    .unwrap();
    // the username is durably taken between the two calls
    let squatter = Account::new("clash".to_string(), false, None, NOW);
    db.create_account_and_secret(
        squatter,
        rtwalk::account::AccountSecret {
            contact: "squat@x.com".to_string(),
            password_hash: "irrelevant".to_string(),
            banned: false,
        },
    )
    .unwrap();
    let r = verify_registration(&mut db, &mut vs, &"clash".to_string(), mail.code, NOW);
    assert_eq!(r.unwrap_err(), AuthError::Internal);
}
