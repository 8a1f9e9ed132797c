//! The reset capability token: a stateless, self-validating blob.
//!
//! A reset token is an encrypted value binding an account's contact to its
//! password hash at issuance, with a short embedded expiry. Nothing is
//! stored server-side: a password change makes every earlier token stale,
//! because the embedded hash no longer matches the stored one. What a
//! token decrypts to under a key is a function of the two alone; that
//! function is given the name `reset_claims`.

use rusty_paseto::prelude::{CustomClaim, Key, Local, PasetoBuilder, PasetoParser, PasetoSymmetricKey, V4};

use vstd::prelude::*;

verus! {

/// The claims a reset token binds: the account's contact and its password
/// hash at issuance time.
pub struct ResetClaims {
    pub email: String,
    pub password_hash: String,
}

/// What decrypting a token under a key yields: the embedded contact and
/// password hash, or nothing when the blob is not an intact token sealed
/// under that key.
pub uninterp spec fn reset_claims(key: Seq<u8>, token: Seq<char>) -> Option<(Seq<char>, Seq<char>)>;

/// The symmetric key reset tokens are sealed under.
pub struct ResetKey {
    key: Vec<u8>,
}

impl ResetKey {
    /// The cipher takes exactly 32 key bytes.
    pub closed spec fn wf(&self) -> bool {
        self.key@.len() == 32
    }

    /// The key material, for stating which key a token was sealed under.
    pub closed spec fn bytes(&self) -> Seq<u8> {
        self.key@
    }

    pub fn new(key: Vec<u8>) -> (r: Self)
        requires
            key@.len() == 32,
        ensures
            r.wf(),
            r.bytes() == key@,
    {
        ResetKey { key }
    }

    /// Relies on PasetoBuilder<V4, Local>: seals the two claims, with the
    /// builder's short default expiry, into a token that decrypts under
    /// this key to exactly those claims.
    #[verifier::external_body]
    pub(crate) fn seal(&self, email: &str, password_hash: &str) -> (r: Result<String, ()>)
        requires
            self.wf(),
        ensures
            r matches Ok(t) ==> reset_claims(self.bytes(), t@) == Some((email@, password_hash@)),
    {
        let mut k = [0u8; 32];
        k.copy_from_slice(&self.key[..32]);
        let key = PasetoSymmetricKey::<V4, Local>::from(Key::from(k));
        let email_claim = match CustomClaim::try_from(("email", email)) {
            Ok(c) => c,
            Err(_) => return Err(()),
        };
        let hash_claim = match CustomClaim::try_from(("password_hash", password_hash)) {
            Ok(c) => c,
            Err(_) => return Err(()),
        };
        PasetoBuilder::<V4, Local>::default().set_claim(email_claim).set_claim(
            hash_claim,
        ).build(&key).map_err(|_| ())
    }

    /// Relies on PasetoParser<V4, Local>: decrypts the token and checks
    /// its embedded expiry against the wall clock. Whatever the clock
    /// says, accepted claims are exactly the sealed-in ones, and a blob
    /// that does not decrypt under this key is never accepted.
    #[verifier::external_body]
    pub(crate) fn open(&self, token: &str) -> (r: Option<ResetClaims>)
        requires
            self.wf(),
        ensures
            r matches Some(c) ==> reset_claims(self.bytes(), token@) == Some(
                (c.email@, c.password_hash@),
            ),
            reset_claims(self.bytes(), token@) is None ==> r is None,
    {
        let mut k = [0u8; 32];
        k.copy_from_slice(&self.key[..32]);
        let key = PasetoSymmetricKey::<V4, Local>::from(Key::from(k));
        let json = PasetoParser::<V4, Local>::default().parse(token, &key).ok()?;
        let email = json["email"].as_str()?.to_owned();
        let password_hash = json["password_hash"].as_str()?.to_owned();
        Some(ResetClaims { email, password_hash })
    }
}

} // verus!
