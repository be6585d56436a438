//! Laws that tie the operations of the password manager together.

use vstd::prelude::*;
use crate::password_manager::{MasterPassword, PasswordManagerBuilder, StoreModel, unlock_outcome};

verus! {

/// The accounts that a run of `with_account` calls leaves, starting from `entries` and adding
/// the pairs of `added` in order.
pub open spec fn with_accounts(
    entries: Map<Seq<char>, Seq<char>>,
    added: Seq<(Seq<char>, Seq<char>)>,
) -> Map<Seq<char>, Seq<char>>
    decreases added.len(),
{
    if added.len() == 0 {
        entries
    } else {
        with_accounts(entries, added.drop_last()).insert(added.last().0, added.last().1)
    }
}

/// A store that was built unlocks with the master password it was built with, and keeps
/// its master password and accounts in doing so.
pub proof fn lemma_built_store_unlocks_with_its_master(b: PasswordManagerBuilder<MasterPassword>)
    ensures
        unlock_outcome(b.built(), b.master()) == Ok::<StoreModel, StoreModel>(b.built()),
{
}

/// Unlocking a store that was built with a master password other than `wrong` fails with
/// `wrong`, hands the store back as it was, and that store then unlocks with its own master
/// password.
pub proof fn lemma_wrong_master_leaves_store_intact(
    b: PasswordManagerBuilder<MasterPassword>,
    wrong: Seq<char>,
)
    requires
        wrong != b.master(),
    ensures
        unlock_outcome(b.built(), wrong) == Err::<StoreModel, StoreModel>(b.built()),
        unlock_outcome(b.built(), b.master()) == Ok::<StoreModel, StoreModel>(b.built()),
{
}

/// After accounts are added one by one, the password of `account` is the one added last for it,
/// where `i` is the last position in `added` that names `account`.
pub proof fn lemma_last_added_password_wins(
    entries: Map<Seq<char>, Seq<char>>,
    added: Seq<(Seq<char>, Seq<char>)>,
    account: Seq<char>,
    i: int,
)
    requires
        0 <= i < added.len(),
        added[i].0 == account,
        forall|j: int| i < j < added.len() ==> added[j].0 != account,
    ensures
        with_accounts(entries, added).contains_key(account),
        with_accounts(entries, added)[account] == added[i].1,
    decreases added.len(),
{
    if i < added.len() - 1 {
        let rest = added.drop_last();
        lemma_last_added_password_wins(entries, rest, account, i);
    }
}

/// An account that a run of `with_account` calls on a new builder never named has no password
/// among the accounts gathered.
pub proof fn lemma_never_added_is_absent(added: Seq<(Seq<char>, Seq<char>)>, account: Seq<char>)
    requires
        forall|j: int| 0 <= j < added.len() ==> added[j].0 != account,
    ensures
        !with_accounts(Map::empty(), added).contains_key(account),
    decreases added.len(),
{
    if added.len() > 0 {
        lemma_never_added_is_absent(added.drop_last(), account);
    }
}

/// Accounts added one by one to a new builder are found, with the password added last for
/// each, once the store built with master password `master` is unlocked with it.
pub proof fn lemma_added_accounts_survive_build_and_unlock(
    master: Seq<char>,
    added: Seq<(Seq<char>, Seq<char>)>,
    account: Seq<char>,
    i: int,
)
    requires
        0 <= i < added.len(),
        added[i].0 == account,
        forall|j: int| i < j < added.len() ==> added[j].0 != account,
    ensures
        ({
            let s = StoreModel { master, entries: with_accounts(Map::empty(), added) };
            &&& unlock_outcome(s, master) == Ok::<StoreModel, StoreModel>(s)
            &&& s.entries.contains_key(account)
            &&& s.entries[account] == added[i].1
        }),
{
    lemma_last_added_password_wins(Map::empty(), added, account, i);
}

/// Locking an unlocked store, which keeps its model, and unlocking it again with its master
/// password gives back the same master password and the same accounts.
pub proof fn lemma_lock_unlock_round_trip(s: StoreModel)
    ensures
        unlock_outcome(s, s.master) == Ok::<StoreModel, StoreModel>(s),
{
}

} // verus!
