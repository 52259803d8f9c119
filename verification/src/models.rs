//! The user record, what is shown of it, and what is written to the store.

use crate::forms::SignInData;
use crate::password::{
    credential_matches, encoding_with, fresh_salt, hash_with_salt, is_fresh_salt, verify,
    CredentialHash, HashError,
};
use uuid::Uuid;
use vstd::prelude::*;

verus! {

/// The kinds of failure that a request can end in.
#[derive(Clone, Copy, Debug, PartialEq, Eq, Structural)]
pub enum ErrorKind {
    /// A field of a form breaks a rule.
    Validation,
    /// The username or the e-mail address belongs to another account.
    Conflict,
    /// No account has the identifier or the username.
    NotFound,
    /// The password is not that of the account.
    Auth,
    /// The identity provider refused, or the answer is not for this client.
    OAuth,
    /// The store failed.
    Store,
}

/// The fields that a visitor chooses for an account. It holds the password
/// as typed, so it is never printed.
pub struct UpsertUser {
    pub email: String,
    pub password: String,
    pub username: String,
}

/// What is shown of an account: everything but its password hash.
#[derive(Debug)]
pub struct GetUser {
    pub id: u128,
    pub username: String,
    pub email: String,
    pub created_at: i128,
    pub updated_at: Option<i128>,
    pub last_login: Option<i128>,
}

/// An account as the store holds it. Times are nanoseconds since the Unix
/// epoch.
pub struct User {
    pub id: u128,
    pub username: String,
    pub email: String,
    pub password: CredentialHash,
    pub created_at: i128,
    pub updated_at: Option<i128>,
    pub last_login: Option<i128>,
}

/// The row that opens an account.
pub struct NewUser {
    pub id: u128,
    pub email: String,
    pub username: String,
    pub password: CredentialHash,
}

/// The fields to write over an account's row.
pub struct UserChanges {
    pub id: u128,
    pub email: String,
    pub username: String,
    pub password: CredentialHash,
}

/// The version and variant bits of a random (version 4) identifier.
pub open spec fn is_random_id(id: u128) -> bool {
    id & 0x0000_0000_0000_f000_c000_0000_0000_0000u128 == 0x0000_0000_0000_4000_8000_0000_0000_0000u128
}

/// Calls `Uuid::new_v4`, which draws 128 random bits and sets the version
/// to 4 and the variant to RFC 4122, and gives the identifier as a number.
/// The call panics where the operating system has no random bytes to give.
#[verifier::external_body]
fn fresh_user_id() -> (id: u128)
    ensures
        is_random_id(id),
{
    Uuid::new_v4().as_u128()
}

impl User {
    /// `shown` is this account without its password hash.
    pub open spec fn shown_as(&self, shown: GetUser) -> bool {
        &&& shown.id == self.id
        &&& shown.username@ == self.username@
        &&& shown.email@ == self.email@
        &&& shown.created_at == self.created_at
        &&& shown.updated_at == self.updated_at
        &&& shown.last_login == self.last_login
    }

    /// What is shown of this account.
    pub fn shown(&self) -> (shown: GetUser)
        ensures
            self.shown_as(shown),
    {
        GetUser {
            id: self.id,
            username: self.username.clone(),
            email: self.email.clone(),
            created_at: self.created_at,
            updated_at: self.updated_at,
            last_login: self.last_login,
        }
    }

    /// Answers a request for one account from what the store found:
    /// the account as shown, or `NotFound` and nothing else.
    pub fn get(found: Option<User>) -> (r: Result<GetUser, ErrorKind>)
        ensures
            match found {
                Some(user) => r matches Ok(shown) && user.shown_as(shown),
                None => r == Err::<GetUser, ErrorKind>(ErrorKind::NotFound),
            },
    {
        match found {
            Some(user) => Ok(user.shown()),
            None => Err(ErrorKind::NotFound),
        }
    }

    /// Answers a request for all accounts from the rows of the store: each
    /// account as shown, in the order of the rows.
    pub fn all(rows: &Vec<User>) -> (shown: Vec<GetUser>)
        ensures
            shown@.len() == rows@.len(),
            forall|i: int| 0 <= i < rows@.len() ==> (#[trigger] rows@[i]).shown_as(shown@[i]),
    {
        let mut shown: Vec<GetUser> = Vec::new();
        let mut i: usize = 0;
        while i < rows.len()
            invariant
                i <= rows.len(),
                shown@.len() == i,
                forall|j: int| 0 <= j < i ==> (#[trigger] rows@[j]).shown_as(shown@[j]),
            decreases rows.len() - i,
        {
            shown.push(rows[i].shown());
            i = i + 1;
        }
        shown
    }

    /// `row` opens the account that `payload` asks for: it has the chosen
    /// username and e-mail address, a hash of the chosen password, and a
    /// random identifier.
    pub open spec fn opens(payload: UpsertUser, row: NewUser) -> bool {
        &&& row.username@ == payload.username@
        &&& row.email@ == payload.email@
        &&& credential_matches(payload.password@, row.password@)
        &&& is_random_id(row.id)
    }

    /// Makes the row that opens the account that `payload` asks for, with
    /// the identifier `id` and the password hashed under `salt`. The password
    /// is stored as a salted hash, never as it was typed.
    pub fn create_with(payload: UpsertUser, id: u128, salt: &str) -> (r: Result<
        NewUser,
        HashError,
    >)
        ensures
            match encoding_with(payload.password@, salt@) {
                Some(encoded) => r matches Ok(row) && row.id == id && row.username@
                    == payload.username@ && row.email@ == payload.email@ && row.password@
                    == encoded,
                None => r is Err,
            },
            r matches Ok(row) ==> credential_matches(payload.password@, row.password@),
    {
        let UpsertUser { email, username, password } = payload;
        match hash_with_salt(password.as_str(), salt) {
            Ok(password_hash) => Ok(NewUser { id, email, username, password: password_hash }),
            Err(e) => Err(e),
        }
    }

    /// Makes the row that opens the account that `payload` asks for, with a
    /// fresh random identifier and the password hashed under a fresh random
    /// salt.
    pub fn create(payload: UpsertUser) -> (r: Result<NewUser, HashError>)
        ensures
            r matches Ok(row) ==> User::opens(payload, row),
            r is Err ==> exists|salt: Seq<char>|
                is_fresh_salt(salt) && #[trigger] encoding_with(payload.password@, salt) is None,
    {
        let id = fresh_user_id();
        let salt = fresh_salt();
        let ghost password = payload.password@;
        let r = User::create_with(payload, id, salt.as_str());
        proof {
            if r is Err {
                assert(encoding_with(password, salt@) is None);
            }
        }
        r
    }

    /// `changes` writes `payload` over the account `current`: the new
    /// username and e-mail address, and a hash of the new password, which is
    /// the stored one where the password has not changed.
    pub open spec fn rewrites(current: User, payload: UpsertUser, changes: UserChanges) -> bool {
        &&& changes.id == current.id
        &&& changes.username@ == payload.username@
        &&& changes.email@ == payload.email@
        &&& credential_matches(payload.password@, changes.password@)
        &&& credential_matches(payload.password@, current.password@) ==> changes.password@
            == current.password@
    }

    /// Makes the fields to write over an account from what the store found
    /// for its identifier: `NotFound` where it found none; else the changes,
    /// with the stored hash where the password has not changed and a hash
    /// under `salt` where it has; `Store` where that hashing failed.
    pub fn update_with(found: Option<User>, payload: UpsertUser, salt: &str) -> (r: Result<
        UserChanges,
        ErrorKind,
    >)
        ensures
            found is None ==> r == Err::<UserChanges, ErrorKind>(ErrorKind::NotFound),
            found matches Some(current) ==> match r {
                Ok(changes) => User::rewrites(current, payload, changes) && (credential_matches(
                    payload.password@,
                    current.password@,
                ) || encoding_with(payload.password@, salt@) == Some(changes.password@)),
                Err(e) => e == ErrorKind::Store && !credential_matches(
                    payload.password@,
                    current.password@,
                ) && encoding_with(payload.password@, salt@) is None,
            },
    {
        match found {
            None => Err(ErrorKind::NotFound),
            Some(current) => {
                let UpsertUser { email, username, password } = payload;
                if verify(password.as_str(), &current.password) {
                    Ok(UserChanges { id: current.id, email, username, password: current.password })
                } else {
                    match hash_with_salt(password.as_str(), salt) {
                        Ok(password_hash) => Ok(
                            UserChanges { id: current.id, email, username, password: password_hash },
                        ),
                        Err(_) => Err(ErrorKind::Store),
                    }
                }
            },
        }
    }

    /// Makes the fields to write over an account, hashing a changed password
    /// under a fresh random salt.
    pub fn update(found: Option<User>, payload: UpsertUser) -> (r: Result<UserChanges, ErrorKind>)
        ensures
            found is None ==> r == Err::<UserChanges, ErrorKind>(ErrorKind::NotFound),
            found matches Some(current) ==> match r {
                Ok(changes) => User::rewrites(current, payload, changes),
                Err(e) => e == ErrorKind::Store && !credential_matches(
                    payload.password@,
                    current.password@,
                ),
            },
    {
        let salt = fresh_salt();
        User::update_with(found, payload, salt.as_str())
    }

    /// Whether a sign-in attempt succeeds against what the store found for
    /// its username.
    pub open spec fn admits(found: Option<User>, payload: SignInData) -> bool {
        found matches Some(user) && credential_matches(payload.password@, user.password@)
    }

    /// Holds a sign-in attempt against what the store found for its
    /// username: the account where the password is the account's, else
    /// `Auth`, whether the username is unknown or the password wrong.
    pub fn signin(found: Option<User>, payload: &SignInData) -> (r: Result<User, ErrorKind>)
        ensures
            User::admits(found, *payload) ==> r == Ok::<User, ErrorKind>(found->0),
            !User::admits(found, *payload) ==> r == Err::<User, ErrorKind>(ErrorKind::Auth),
    {
        match found {
            Some(user) => {
                if verify(payload.password.as_str(), &user.password) {
                    Ok(user)
                } else {
                    Err(ErrorKind::Auth)
                }
            },
            None => Err(ErrorKind::Auth),
        }
    }
}

} // verus!
