use rtwalk::account::Account;
use rtwalk::bots::create_bot;
use rtwalk::durable::DurableStore;
use rtwalk::errors::AuthError;
use rtwalk::registration::{begin_registration, verify_registration};
use rtwalk::reset::{confirm_reset, request_reset};
use rtwalk::session::login_user;
use rtwalk::token::ResetKey;
use rtwalk::volatile::VolatileStore;

const NOW: u64 = 1_700_000_000;

fn key() -> ResetKey {
    ResetKey::new((0u8..32).collect())
}

fn registered(
    db: &mut DurableStore,
    vs: &mut VolatileStore,
    username: &str,
    email: &str,
    password: &str,
) -> Account {
    let mail = begin_registration(
        db,
        vs,
        username.to_string(),
        email.to_string(),
        password.to_string(),
        NOW,
    )
    .unwrap()
    .unwrap();
    verify_registration(db, vs, &username.to_string(), mail.code, NOW).unwrap()
}

#[test]
fn reset_succeeds_once_then_goes_stale() {
    let mut db = DurableStore::new();
    let mut vs = VolatileStore::new();
    registered(&mut db, &mut vs, "carol", "carol@x.com", "old passphrase 1234");
    let key = key();

    let mail = request_reset(&db, &key, &"carol@x.com".to_string()).unwrap().unwrap();
    assert_eq!(mail.email, "carol@x.com");

    // fresh token, still-current hash: the one allowed change
    confirm_reset(&mut db, &key, &mail.token, &"new passphrase 5678".to_string()).unwrap();
    assert!(login_user(&db, &"carol@x.com".to_string(), &"new passphrase 5678".to_string())
        .is_ok());
    assert_eq!(
        login_user(&db, &"carol@x.com".to_string(), &"old passphrase 1234".to_string())
            .unwrap_err(),
        AuthError::InvalidCredentials
    );

    // the same token again, after the password changed: the embedded hash
    // is stale, though the token's own expiry has not elapsed
    let r = confirm_reset(&mut db, &key, &mail.token, &"another passphrase 9".to_string());
    assert_eq!(r.unwrap_err(), AuthError::InvalidResetToken);
}

#[test]
fn unknown_contact_is_silently_accepted() {
    let db = DurableStore::new();
    let key = key();
    let r = request_reset(&db, &key, &"nobody@x.com".to_string());
    assert!(matches!(r, Ok(None)));
}

#[test]
fn bots_cannot_reset_by_mail() {
    let mut db = DurableStore::new();
    let mut vs = VolatileStore::new();
    let alice = registered(&mut db, &mut vs, "ana", "ana@x.com", "a sound passphrase 42");
    let (creds, _) = create_bot(&mut db, &vs, &alice.id, "anabot".to_string(), NOW).unwrap();
    let bot_contact = creds.splitn(2, '@').next().unwrap().to_string();
    let key = key();
    let r = request_reset(&db, &key, &bot_contact);
    assert_eq!(r.unwrap_err(), AuthError::Unauthenticated);
}

#[test]
fn garbage_and_foreign_tokens_are_refused() {
    let mut db = DurableStore::new();
    let mut vs = VolatileStore::new();
    registered(&mut db, &mut vs, "cleo", "cleo@x.com", "a sound passphrase 42");
    let key = key();

    let r = confirm_reset(
        &mut db,
        &key,
        &"v4.local.notatoken".to_string(),
        &"whatever passphrase 3".to_string(),
    );
    assert_eq!(r.unwrap_err(), AuthError::InvalidResetToken);

    // a token sealed under a different key
    let other_key = ResetKey::new((100u8..132).collect());
    let mail = request_reset(&db, &other_key, &"cleo@x.com".to_string()).unwrap().unwrap();
    let r = confirm_reset(&mut db, &key, &mail.token, &"whatever passphrase 3".to_string());
    assert_eq!(r.unwrap_err(), AuthError::InvalidResetToken);
}
