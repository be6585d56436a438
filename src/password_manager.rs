use core::marker::PhantomData;
use vstd::prelude::*;
use crate::accounts::{copy_accounts, describes, lookup_account, put_account};

verus! {

/// Denotes a locked [PasswordManager].
#[derive(Debug)]
pub struct Locked;

/// Denotes an unlocked [PasswordManager].
#[derive(Debug)]
pub struct Unlocked;

/// What a password manager holds, whichever its lock state: the master password and the
/// password of each account.
pub struct StoreModel {
    pub master: Seq<char>,
    pub entries: Map<Seq<char>, Seq<char>>,
}

/// What unlocking a store modelled by `s` with `candidate` gives: the same store, unlocked
/// where `candidate` is its master password and still locked otherwise.
pub open spec fn unlock_outcome(s: StoreModel, candidate: Seq<char>) -> Result<StoreModel, StoreModel> {
    if candidate == s.master {
        Ok(s)
    } else {
        Err(s)
    }
}

/// The password manager. Its lock state is its type parameter: the passwords can only be
/// read or changed on a `PasswordManager<Unlocked>`, and only a `PasswordManager<Locked>`
/// can be unlocked.
pub struct PasswordManager<State = Locked> {
    master_password: String,
    password_list: Vec<(String, String)>,
    accounts: Ghost<Map<Seq<char>, Seq<char>>>,
    state: PhantomData<State>,
}

impl<State> PasswordManager<State> {
    #[verifier::type_invariant]
    spec fn well_formed(self) -> bool {
        describes(self.password_list@, self.accounts@)
    }
}

impl<State> View for PasswordManager<State> {
    type V = StoreModel;

    closed spec fn view(&self) -> StoreModel {
        StoreModel { master: self.master_password@, entries: self.accounts@ }
    }
}

impl PasswordManager<Locked> {
    /// Attempt to unlock this password manager with `master_password`. On a mismatch the
    /// locked manager is handed back unchanged, so that the caller can try again.
    pub fn unlock(self, master_password: &str) -> (r: Result<
        PasswordManager<Unlocked>,
        PasswordManager<Locked>,
    >)
        ensures
            match r {
                Ok(u) => unlock_outcome(self@, master_password@) == Ok::<StoreModel, StoreModel>(
                    u@,
                ),
                Err(l) => unlock_outcome(self@, master_password@) == Err::<
                    StoreModel,
                    StoreModel,
                >(l@) && l == self,
            },
    {
        proof {
            use_type_invariant(&self);
        }
        let password = master_password.to_owned();
        if password == self.master_password {
            Ok(PasswordManager {
                master_password: self.master_password,
                password_list: self.password_list,
                accounts: self.accounts,
                state: PhantomData,
            })
        } else {
            Err(self)
        }
    }
}

impl PasswordManager<Unlocked> {
    /// Lock this password manager so that the master password is required to unlock it again.
    pub fn lock(self) -> (r: PasswordManager<Locked>)
        ensures
            r@ == self@,
    {
        proof {
            use_type_invariant(&self);
        }
        PasswordManager {
            master_password: self.master_password,
            password_list: self.password_list,
            accounts: self.accounts,
            state: PhantomData,
        }
    }

    /// The stored accounts and their passwords: a copy, each account once.
    pub fn get_passwords(&self) -> (r: Vec<(String, String)>)
        ensures
            describes(r@, self@.entries),
    {
        proof {
            use_type_invariant(self);
        }
        copy_accounts(&self.password_list, self.accounts)
    }

    /// The password stored for `account`, if there is one.
    pub fn get_password(&self, account: &str) -> (r: Option<String>)
        ensures
            match r {
                Some(p) => self@.entries.contains_key(account@) && p@ == self@.entries[account@],
                None => !self@.entries.contains_key(account@),
            },
    {
        proof {
            use_type_invariant(self);
        }
        lookup_account(&self.password_list, account, self.accounts)
    }

    /// Store `password` for `account`, replacing the one it had.
    pub fn insert(&mut self, account: &str, password: &str)
        ensures
            final(self)@ == (StoreModel {
                master: old(self)@.master,
                entries: old(self)@.entries.insert(account@, password@),
            }),
    {
        proof {
            use_type_invariant(&*self);
        }
        let mut taken = PasswordManager {
            master_password: String::new(),
            password_list: Vec::new(),
            accounts: Ghost(Map::empty()),
            state: PhantomData,
        };
        std::mem::swap(self, &mut taken);
        proof {
            use_type_invariant(&taken);
        }
        let ghost m = taken.accounts@;
        let mut list = taken.password_list;
        put_account(&mut list, account.to_owned(), password.to_owned(), Ghost(m));
        *self = PasswordManager {
            master_password: taken.master_password,
            password_list: list,
            accounts: Ghost(m.insert(account@, password@)),
            state: PhantomData,
        };
    }
}

/// Denotes that a [PasswordManagerBuilder] has not had its master password set yet.
pub struct MissingPassword;

/// Denotes that a [PasswordManagerBuilder] has had its master password set.
pub struct MasterPassword(String);

impl MasterPassword {
    /// The master password held.
    pub closed spec fn secret(&self) -> Seq<char> {
        self.0@
    }
}

/// Assembles a [PasswordManager]. `build` exists only once the master password is set, and
/// the master password can be set only once.
pub struct PasswordManagerBuilder<P = MissingPassword> {
    master_password: P,
    password_list: Vec<(String, String)>,
    accounts: Ghost<Map<Seq<char>, Seq<char>>>,
}

impl<P> PasswordManagerBuilder<P> {
    #[verifier::type_invariant]
    spec fn well_formed(self) -> bool {
        describes(self.password_list@, self.accounts@)
    }

    /// The accounts gathered so far, with their passwords.
    pub closed spec fn entries(&self) -> Map<Seq<char>, Seq<char>> {
        self.accounts@
    }

    /// The master password slot: [MissingPassword], or the [MasterPassword] that was set.
    pub closed spec fn password_slot(&self) -> P {
        self.master_password
    }

    /// Add an account and its password, replacing a password given earlier for the same account.
    pub fn with_account(self, account: &str, password: &str) -> (r: Self)
        ensures
            r.entries() == self.entries().insert(account@, password@),
            r.password_slot() == self.password_slot(),
    {
        proof {
            use_type_invariant(&self);
        }
        let ghost m = self.accounts@;
        let mut list = self.password_list;
        put_account(&mut list, account.to_owned(), password.to_owned(), Ghost(m));
        PasswordManagerBuilder {
            master_password: self.master_password,
            password_list: list,
            accounts: Ghost(m.insert(account@, password@)),
        }
    }
}

impl PasswordManagerBuilder<MissingPassword> {
    /// A builder with no master password and no accounts.
    pub fn new() -> (r: Self)
        ensures
            r.entries() == Map::<Seq<char>, Seq<char>>::empty(),
    {
        PasswordManagerBuilder {
            master_password: MissingPassword,
            password_list: Vec::new(),
            accounts: Ghost(Map::empty()),
        }
    }

    /// Set the master password, keeping the accounts gathered so far.
    pub fn with_master_password(self, master_password: &str) -> (r: PasswordManagerBuilder<
        MasterPassword,
    >)
        ensures
            r.master() == master_password@,
            r.entries() == self.entries(),
    {
        proof {
            use_type_invariant(&self);
        }
        PasswordManagerBuilder {
            master_password: MasterPassword(master_password.to_owned()),
            password_list: self.password_list,
            accounts: self.accounts,
        }
    }
}

impl Default for PasswordManagerBuilder<MissingPassword> {
    fn default() -> (r: Self)
        ensures
            r.entries() == Map::<Seq<char>, Seq<char>>::empty(),
    {
        Self::new()
    }
}

impl PasswordManagerBuilder<MasterPassword> {
    /// The master password that was set.
    pub open spec fn master(&self) -> Seq<char> {
        self.password_slot().secret()
    }

    /// What `build` makes of this builder.
    pub open spec fn built(&self) -> StoreModel {
        StoreModel { master: self.master(), entries: self.entries() }
    }

    /// Build the password manager, locked, from the master password and the accounts.
    pub fn build(self) -> (r: PasswordManager)
        ensures
            r@ == self.built(),
    {
        proof {
            use_type_invariant(&self);
        }
        PasswordManager {
            master_password: self.master_password.0,
            password_list: self.password_list,
            accounts: self.accounts,
            state: PhantomData,
        }
    }
}

} // verus!
