use rtwalk::account::{Account, AccountSecret, UserSelectCriteria};
use rtwalk::durable::DurableStore;
use rtwalk::errors::AuthError;
use rtwalk::guard::Role;
use rtwalk::registration::{begin_registration, verify_registration};
use rtwalk::session::{
    create_session, login, login_user, resolve_session, revoke_all_sessions, revoke_session,
};
use rtwalk::volatile::VolatileStore;

const NOW: u64 = 1_700_000_000;

fn registered(
    db: &mut DurableStore,
    vs: &mut VolatileStore,
    username: &str,
    email: &str,
    password: &str,
) -> Account {
    let mail = begin_registration(
        db,
        vs,
        username.to_string(),
        email.to_string(),
        password.to_string(),
        NOW,
    )
    .unwrap()
    .unwrap();
    verify_registration(db, vs, &username.to_string(), mail.code, NOW).unwrap()
}

#[test]
fn session_resolvable_until_revoked() {
    let mut db = DurableStore::new();
    let mut vs = VolatileStore::new();
    let account = registered(&mut db, &mut vs, "dave", "dave@x.com", "a sound passphrase 42");

    let (logged_in, token) = login(
        &db,
        &mut vs,
        &"dave@x.com".to_string(),
        &"a sound passphrase 42".to_string(),
        NOW,
    )
    .unwrap();
    assert_eq!(logged_in.username, "dave");
    assert_eq!(logged_in.id, account.id);

    let resolved = resolve_session(&vs, &token, NOW + 60).unwrap();
    assert_eq!(resolved.username, "dave");

    revoke_session(&mut vs, &token, &account.id, NOW + 61);
    assert!(resolve_session(&vs, &token, NOW + 61).is_none());
}

#[test]
fn session_lapses_with_its_ttl() {
    let mut db = DurableStore::new();
    let mut vs = VolatileStore::new();
    let account = registered(&mut db, &mut vs, "erin", "erin@x.com", "a sound passphrase 42");
    let token = create_session(&mut vs, &account, NOW);
    // thirty days for a human
    assert!(resolve_session(&vs, &token, NOW + 30 * 24 * 60 * 60 - 1).is_some());
    assert!(resolve_session(&vs, &token, NOW + 30 * 24 * 60 * 60).is_none());
}

#[test]
fn revoke_all_sweeps_every_device() {
    let mut db = DurableStore::new();
    let mut vs = VolatileStore::new();
    let account = registered(&mut db, &mut vs, "finn", "finn@x.com", "a sound passphrase 42");
    let t1 = create_session(&mut vs, &account, NOW);
    let t2 = create_session(&mut vs, &account, NOW + 1);
    assert!(resolve_session(&vs, &t1, NOW + 2).is_some());
    assert!(resolve_session(&vs, &t2, NOW + 2).is_some());

    revoke_all_sessions(&mut vs, &account.id, NOW + 2);
    assert!(resolve_session(&vs, &t1, NOW + 2).is_none());
    assert!(resolve_session(&vs, &t2, NOW + 2).is_none());
}

#[test]
fn login_rejects_bad_credentials() {
    let mut db = DurableStore::new();
    let mut vs = VolatileStore::new();
    registered(&mut db, &mut vs, "gail", "gail@x.com", "a sound passphrase 42");

    let r = login_user(&db, &"gail@x.com".to_string(), &"wrong passphrase".to_string());
    assert_eq!(r.unwrap_err(), AuthError::InvalidCredentials);
    let r = login_user(&db, &"nobody@x.com".to_string(), &"a sound passphrase 42".to_string());
    assert_eq!(r.unwrap_err(), AuthError::InvalidCredentials);
}

#[test]
fn banned_flag_does_not_leak_at_login() {
    // login never reads the banned flag: a banned record with a wrong
    // password answers exactly like an unknown contact
    let mut db = DurableStore::new();
    let account = Account::new("hank".to_string(), false, None, NOW);
    db.create_account_and_secret(
        account,
        AccountSecret {
            contact: "hank@x.com".to_string(),
            password_hash: "not a usable hash".to_string(),
            banned: true,
        },
    )
    .unwrap();
    let r = login_user(&db, &"hank@x.com".to_string(), &"anything".to_string());
    assert_eq!(r.unwrap_err(), AuthError::InvalidCredentials);
    let r = login_user(&db, &"unknown@x.com".to_string(), &"anything".to_string());
    assert_eq!(r.unwrap_err(), AuthError::InvalidCredentials);
}

#[test]
fn guard_roles() {
    let mut db = DurableStore::new();
    let mut vs = VolatileStore::new();
    let account = registered(&mut db, &mut vs, "iris", "iris@x.com", "a sound passphrase 42");
    let token = create_session(&mut vs, &account, NOW);

    // no token: only the unauthenticated-only role admits
    assert_eq!(
        Role::Authenticated.check(&vs, None, NOW).unwrap_err(),
        AuthError::Unauthenticated
    );
    assert!(Role::UnAuthenticated.check(&vs, None, NOW).unwrap().is_none());

    // a live human session
    let bound = Role::Authenticated.check(&vs, Some(&token), NOW).unwrap().unwrap();
    assert_eq!(bound.username, "iris");
    assert!(Role::Human.check(&vs, Some(&token), NOW).unwrap().is_some());
    assert_eq!(
        Role::Bot.check(&vs, Some(&token), NOW).unwrap_err(),
        AuthError::Unauthenticated
    );
    assert_eq!(
        Role::Admin.check(&vs, Some(&token), NOW).unwrap_err(),
        AuthError::Unauthenticated
    );
    // unauthenticated-only admits trivially, binding nothing
    assert!(Role::UnAuthenticated.check(&vs, Some(&token), NOW).unwrap().is_none());

    // a stale token is as good as none
    let gone = "nosuchtoken".to_string();
    assert_eq!(
        Role::Authenticated.check(&vs, Some(&gone), NOW).unwrap_err(),
        AuthError::Unauthenticated
    );
}

#[test]
fn fetch_and_update_user() {
    let mut db = DurableStore::new();
    let mut vs = VolatileStore::new();
    let account = registered(&mut db, &mut vs, "judy", "judy@x.com", "a sound passphrase 42");
    registered(&mut db, &mut vs, "kim", "kim@x.com", "a sound passphrase 42");

    let by_name = db
        .fetch_user(&UserSelectCriteria::Username("judy".to_string()))
        .unwrap();
    assert_eq!(by_name.id, account.id);
    let by_id = db.fetch_user(&UserSelectCriteria::Id(account.id.clone())).unwrap();
    assert_eq!(by_id.username, "judy");
    assert!(db
        .fetch_user(&UserSelectCriteria::Username("nobody".to_string()))
        .is_none());

    // a profile update keeps identity and stamps the modification time
    let mut changed = by_id;
    changed.display_name = "Judy".to_string();
    let updated = db.update_user(changed, NOW + 5).unwrap();
    assert_eq!(updated.display_name, "Judy");
    assert_eq!(updated.modified_at, NOW + 5);

    // a username owned by someone else is refused
    let mut theft = db
        .fetch_user(&UserSelectCriteria::Username("judy".to_string()))
        .unwrap();
    theft.username = "kim".to_string();
    assert_eq!(db.update_user(theft, NOW + 6).unwrap_err(), AuthError::UsernameAlreadyExists);
}

#[test]
fn first_record_wins_on_duplicate_contacts() {
    // two registrations with the same contact can both complete when the
    // second begins before the first is verified — an accepted race; the
    // earliest record then answers for the contact
    let mut db = DurableStore::new();
    let mut vs = VolatileStore::new();
    let m1 = begin_registration(
        &db,
        &mut vs,
        "lea".to_string(),
        "shared@x.com".to_string(),
        "first passphrase 111".to_string(),
        NOW,
    )
    .unwrap()
    .unwrap();
    let m2 = begin_registration(
        &db,
        &mut vs,
        "leo".to_string(),
        "shared@x.com".to_string(),
        "second passphrase 222".to_string(),
        NOW,
    )
    .unwrap()
    .unwrap();
    let lea = verify_registration(&mut db, &mut vs, &"lea".to_string(), m1.code, NOW).unwrap();
    verify_registration(&mut db, &mut vs, &"leo".to_string(), m2.code, NOW).unwrap();

    let winner = login_user(&db, &"shared@x.com".to_string(), &"first passphrase 111".to_string())
        .unwrap();
    assert_eq!(winner.id, lea.id);
    assert_eq!(
        login_user(&db, &"shared@x.com".to_string(), &"second passphrase 222".to_string())
            .unwrap_err(),
        AuthError::InvalidCredentials
    );
}
