use rtwalk::account::Account;
use rtwalk::bots::{
    create_bot, login_as_bot, logout_all_bot, reset_bot_credential, verify_bot_belongs_to_user,
};
use rtwalk::durable::DurableStore;
use rtwalk::errors::AuthError;
use rtwalk::registration::{begin_registration, verify_registration};
use rtwalk::session::{create_session, login_user, resolve_session};
use rtwalk::volatile::VolatileStore;

const NOW: u64 = 1_700_000_000;

fn registered(
    db: &mut DurableStore,
    vs: &mut VolatileStore,
    username: &str,
    email: &str,
) -> Account {
    let mail = begin_registration(
        db,
        vs,
        username.to_string(),
        email.to_string(),
        "a sound passphrase 42".to_string(),
        NOW,
    )
    .unwrap()
    .unwrap();
    verify_registration(db, vs, &username.to_string(), mail.code, NOW).unwrap()
}

fn split_credential(creds: &str) -> (String, String) {
    let mut parts = creds.splitn(2, '@');
    let contact = parts.next().unwrap().to_string();
    let password = parts.next().unwrap().to_string();
    (contact, password)
}

#[test]
fn bot_scenario() {
    let mut db = DurableStore::new();
    let mut vs = VolatileStore::new();

    // register alice and verify with the issued code
    let mail = begin_registration(
        &db,
        &mut vs,
        "alice".to_string(),
        "alice@x.com".to_string(),
        "sTrOnGPaSs19@!".to_string(),
        NOW,
    )
    .unwrap()
    .unwrap();
    let alice = verify_registration(&mut db, &mut vs, &"alice".to_string(), mail.code, NOW)
        .unwrap();
    assert!(!alice.bot);
    assert!(!alice.admin);

    // alice derives a bot
    let (creds, alicebot) =
        create_bot(&mut db, &vs, &alice.id, "alicebot".to_string(), NOW).unwrap();
    assert!(alicebot.bot);
    assert_eq!(alicebot.owner.as_deref(), Some(alice.id.as_str()));
    assert_eq!(alicebot.username, "alicebot");

    // the credential logs the bot in
    let (contact, password) = split_credential(&creds);
    let bot_account = login_user(&db, &contact, &password).unwrap();
    assert_eq!(bot_account.id, alicebot.id);

    // another user does not own the bot
    let other = registered(&mut db, &mut vs, "mallory", "mallory@x.com");
    let r = verify_bot_belongs_to_user(&db, &other.id, &alicebot.id);
    assert_eq!(r.unwrap_err(), AuthError::Unauthorized);
    // the owner does
    let owned = verify_bot_belongs_to_user(&db, &alice.id, &alicebot.id).unwrap();
    assert_eq!(owned.id, alicebot.id);
}

#[test]
fn bot_usernames_are_checked() {
    let mut db = DurableStore::new();
    let mut vs = VolatileStore::new();
    let alice = registered(&mut db, &mut vs, "ann", "ann@x.com");
    let r = create_bot(&mut db, &vs, &alice.id, "ann".to_string(), NOW);
    assert_eq!(r.unwrap_err(), AuthError::UsernameAlreadyExists);

    begin_registration(
        &db,
        &mut vs,
        "annbot".to_string(),
        "annbot@x.com".to_string(),
        "a sound passphrase 42".to_string(),
        NOW,
    )
    .unwrap()
    .unwrap();
    let r = create_bot(&mut db, &vs, &alice.id, "annbot".to_string(), NOW);
    assert_eq!(r.unwrap_err(), AuthError::UsernameAlreadyExists);
}

#[test]
fn bot_credential_reset_revokes_sessions() {
    let mut db = DurableStore::new();
    let mut vs = VolatileStore::new();
    let alice = registered(&mut db, &mut vs, "amy", "amy@x.com");
    let (creds, bot) = create_bot(&mut db, &vs, &alice.id, "amybot".to_string(), NOW).unwrap();
    let token = create_session(&mut vs, &bot, NOW);
    assert!(resolve_session(&vs, &token, NOW + 1).is_some());

    let (new_creds, same_bot) =
        reset_bot_credential(&mut db, &mut vs, &alice.id, &bot.id, NOW + 1).unwrap();
    assert_eq!(same_bot.id, bot.id);
    assert_ne!(new_creds, creds);
    // the old session is swept
    assert!(resolve_session(&vs, &token, NOW + 1).is_none());

    // old credential is dead, the new one works
    let (old_contact, old_password) = split_credential(&creds);
    assert_eq!(
        login_user(&db, &old_contact, &old_password).unwrap_err(),
        AuthError::InvalidCredentials
    );
    let (new_contact, new_password) = split_credential(&new_creds);
    assert_eq!(new_contact, old_contact);
    assert_eq!(login_user(&db, &new_contact, &new_password).unwrap().id, bot.id);

    // a stranger cannot reset it
    let other = registered(&mut db, &mut vs, "eve", "eve@x.com");
    let r = reset_bot_credential(&mut db, &mut vs, &other.id, &bot.id, NOW + 2);
    assert_eq!(r.unwrap_err(), AuthError::Unauthorized);
}

#[test]
fn switching_to_an_owned_bot() {
    let mut db = DurableStore::new();
    let mut vs = VolatileStore::new();
    let alice = registered(&mut db, &mut vs, "ada", "ada@x.com");
    let (_, bot) = create_bot(&mut db, &vs, &alice.id, "adabot".to_string(), NOW).unwrap();

    let human_token = create_session(&mut vs, &alice, NOW);
    let (as_bot, bot_token) =
        login_as_bot(&db, &mut vs, &alice.id, &human_token, &bot.id, NOW + 1).unwrap();
    assert_eq!(as_bot.id, bot.id);
    // the human session is gone, the bot session lives
    assert!(resolve_session(&vs, &human_token, NOW + 2).is_none());
    assert_eq!(resolve_session(&vs, &bot_token, NOW + 2).unwrap().id, bot.id);
    // a bot session lasts two hours, not thirty days
    assert!(resolve_session(&vs, &bot_token, NOW + 1 + 2 * 60 * 60).is_none());

    // sweeping the bot's sessions needs ownership
    let other = registered(&mut db, &mut vs, "ivy", "ivy@x.com");
    assert_eq!(
        logout_all_bot(&db, &mut vs, &other.id, &bot.id, NOW + 3).unwrap_err(),
        AuthError::Unauthorized
    );
    logout_all_bot(&db, &mut vs, &alice.id, &bot.id, NOW + 3).unwrap();
    assert!(resolve_session(&vs, &bot_token, NOW + 3).is_none());
}

#[test]
fn listing_bots_respects_ownership() {
    let mut db = DurableStore::new();
    let mut vs = VolatileStore::new();
    let alice = registered(&mut db, &mut vs, "abe", "abe@x.com");
    let (_, b1) = create_bot(&mut db, &vs, &alice.id, "abebot1".to_string(), NOW).unwrap();
    let (_, b2) = create_bot(&mut db, &vs, &alice.id, "abebot2".to_string(), NOW).unwrap();

    let mine = db.bots_owned_by(&alice, &alice.id).unwrap();
    let names: Vec<&str> = mine.iter().map(|a| a.username.as_str()).collect();
    assert_eq!(names, vec!["abebot1", "abebot2"]);
    assert_eq!(mine[0].id, b1.id);
    assert_eq!(mine[1].id, b2.id);

    let other = registered(&mut db, &mut vs, "sam", "sam@x.com");
    assert_eq!(
        db.bots_owned_by(&other, &alice.id).unwrap_err(),
        AuthError::Unauthorized
    );
}
