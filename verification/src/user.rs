//! Users and the identity store the shell signs into.
//!
//! A [`User`] is an immutable snapshot: a name, an optional home directory,
//! a search path for command names, and an optional password hash.  The
//! store is an explicitly constructed table passed by reference wherever
//! the shell needs it.

use vstd::prelude::*;
use vstd::string::StringExecFns;

verus! {

/// An immutable account snapshot.
#[derive(Clone, Debug)]
pub struct User {
    pub name: String,
    pub home_dir: Option<String>,
    pub path: String,
    pub password: Option<u64>,
}

/// A failed sign-in.
#[derive(Clone, Copy, Debug, PartialEq, Eq, Structural)]
pub enum SignInError {
    /// No user of the offered name exists.
    NoUser,
    /// The offered password hash did not match the user's.
    IncorrectPassword,
}

/// The identity store: a small table of users, looked up by name.
pub struct UserStore {
    pub users: Vec<User>,
}

/// First user of the given name in the store, if any.
pub open spec fn spec_lookup_user(users: Seq<User>, name: Seq<char>) -> Option<User>
    decreases users.len(),
{
    if users.len() == 0 {
        None
    } else if users[0].name@ == name {
        Some(users[0])
    } else {
        spec_lookup_user(users.drop_first(), name)
    }
}

/// The password hash of the sample non-guest account.
pub const COLD_PASSWORD_HASH: u64 = 9841090200665212411;

impl UserStore {
    /// An empty store.
    pub fn new() -> (r: UserStore)
        ensures
            r.users@ =~= Seq::<User>::empty(),
    {
        UserStore { users: Vec::new() }
    }

    /// The sample store: a password-protected account at home under
    /// `/root/`, and a passwordless guest.
    pub fn with_defaults() -> (r: UserStore)
        ensures
            r.users@.len() == 2,
            r.users@[0].name@ == "cold"@,
            r.users@[0].password == Some(COLD_PASSWORD_HASH),
            r.users@[0].home_dir is Some,
            r.users@[1].name@ == "guest"@,
            r.users@[1].password is None,
            r.users@[1].home_dir is None,
            r.users@[1].path@ == "/bin/"@,
    {
        let mut users: Vec<User> = Vec::new();
        users.push(
            User {
                name: String::from_str("cold"),
                home_dir: Some(String::from_str("/root/")),
                path: String::from_str("/bin/"),
                password: Some(COLD_PASSWORD_HASH),
            },
        );
        users.push(
            User {
                name: String::from_str("guest"),
                home_dir: None,
                path: String::from_str("/bin/"),
                password: None,
            },
        );
        UserStore { users }
    }

    /// First user of the given name, by reference.
    #[verifier::loop_isolation(false)]
    pub fn get(&self, name: &str) -> (r: Option<&User>)
        ensures
            match r {
                Option::Some(u) => spec_lookup_user(self.users@, name@) == Some(*u),
                Option::None => spec_lookup_user(self.users@, name@) is None,
            },
    {
        let ghost users = self.users@;
        proof {
            assert(users.skip(0int) =~= users);
        }
        let mut i: usize = 0;
        while i < self.users.len()
            invariant
                i <= users.len(),
                spec_lookup_user(users, name@) == spec_lookup_user(users.skip(i as int), name@),
            decreases users.len() - i,
        {
            if crate::path::str_eq(self.users[i].name.as_str(), name) {
                proof {
                    assert(users.skip(i as int)[0] == users[i as int]);
                }
                return Some(&self.users[i]);
            }
            proof {
                assert(users.skip(i as int)[0] == users[i as int]);
                assert(users.skip(i as int).drop_first() =~= users.skip(i + 1));
            }
            i += 1;
        }
        proof {
            assert(users.skip(users.len() as int) =~= Seq::<User>::empty());
        }
        None
    }
}

/// Whether an offered hash matches a stored one: both absent counts as a
/// match, and otherwise both must be present and equal.
pub open spec fn spec_password_matches(stored: Option<u64>, offered: Option<u64>) -> bool {
    (stored is None && offered is None) || (stored is Some && offered is Some
        && stored.unwrap() == offered.unwrap())
}

impl User {
    /// True when the offered hash signs this user in: both sides absent
    /// counts as a match.
    pub fn check_password(&self, pass: Option<u64>) -> (r: bool)
        ensures
            r == spec_password_matches(self.password, pass),
    {
        match (self.password, pass) {
            (Option::None, Option::None) => true,
            (Option::Some(p), Option::Some(po)) => p == po,
            _ => false,
        }
    }

    /// True when a user of the given name exists in the store and has a
    /// password set.
    pub fn has_password(store: &UserStore, name: &str) -> (r: bool)
        ensures
            r == (spec_lookup_user(store.users@, name@) is Some && spec_lookup_user(
                store.users@,
                name@,
            ).unwrap().password is Some),
    {
        match store.get(name) {
            Option::Some(u) => u.password.is_some(),
            Option::None => false,
        }
    }

    /// A snapshot of the named user, or of the default guest when the
    /// store holds no user of that name.
    pub fn from_name(store: &UserStore, name: &str) -> (r: User)
        ensures
            match spec_lookup_user(store.users@, name@) {
                Option::Some(u) => r == u,
                Option::None => r.name@ == "guest"@ && r.home_dir is None && r.path@ == "/bin/"@
                    && r.password is None,
            },
    {
        match store.get(name) {
            Option::Some(u) => clone_user(u),
            Option::None => User::default(),
        }
    }

    /// The user's name.
    pub fn get_name(&self) -> (r: &str)
        ensures
            r@ == self.name@,
    {
        self.name.as_str()
    }

    /// The user's search path, as one `:`-separated string.
    pub fn get_path(&self) -> (r: &str)
        ensures
            r@ == self.path@,
    {
        self.path.as_str()
    }

    /// The user's home directory: the stored one, or `/home/` followed by
    /// the user's name when none is stored.
    pub fn home_directory(&self) -> (r: String)
        ensures
            match self.home_dir {
                Option::Some(h) => r@ == h@,
                Option::None => r@ == "/home/"@ + self.name@,
            },
    {
        match &self.home_dir {
            Option::Some(h) => h.clone(),
            Option::None => String::from_str("/home/").concat(self.name.as_str()),
        }
    }
}

impl Default for User {
    /// The passwordless guest, searching `/bin/`, with no stored home.
    fn default() -> (r: User)
        ensures
            r.name@ == "guest"@,
            r.home_dir is None,
            r.path@ == "/bin/"@,
            r.password is None,
    {
        User {
            name: String::from_str("guest"),
            home_dir: None,
            path: String::from_str("/bin/"),
            password: None,
        }
    }
}

/// An identical fresh snapshot of `u`.
pub fn clone_user(u: &User) -> (r: User)
    ensures
        r == *u,
{
    User {
        name: u.name.clone(),
        home_dir: match &u.home_dir {
            Option::Some(h) => Some(h.clone()),
            Option::None => None,
        },
        path: u.path.clone(),
        password: u.password,
    }
}

} // verus!
