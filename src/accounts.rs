//! A list of account names with their passwords, each name at most once.

use vstd::prelude::*;

verus! {

/// No account name occurs twice in `v`.
pub open spec fn keys_unique(v: Seq<(String, String)>) -> bool {
    forall|i: int, j: int| 0 <= i < j < v.len() ==> v[i].0@ != v[j].0@
}

/// `v` lists exactly the entries of `m`, each account once.
pub open spec fn describes(v: Seq<(String, String)>, m: Map<Seq<char>, Seq<char>>) -> bool {
    &&& keys_unique(v)
    &&& forall|i: int|
        0 <= i < v.len() ==> m.contains_key(#[trigger] v[i].0@) && m[v[i].0@] == v[i].1@
    &&& forall|k: Seq<char>|
        #[trigger] m.contains_key(k) ==> exists|i: int| 0 <= i < v.len() && v[i].0@ == k
}

/// The position of `account` in `list`, if it is there.
pub(crate) fn find_account(list: &Vec<(String, String)>, account: &String) -> (r: Option<usize>)
    ensures
        match r {
            Some(i) => i < list@.len() && list@[i as int].0@ == account@,
            None => forall|i: int| 0 <= i < list@.len() ==> list@[i].0@ != account@,
        },
{
    let mut i: usize = 0;
    while i < list.len()
        invariant
            i <= list@.len(),
            forall|j: int| 0 <= j < i ==> list@[j].0@ != account@,
        decreases list@.len() - i,
    {
        if list[i].0 == *account {
            return Some(i);
        }
        i = i + 1;
    }
    None
}

/// Sets the password of `account` in `list`, adding the account if it is not there yet.
pub(crate) fn put_account(
    list: &mut Vec<(String, String)>,
    account: String,
    password: String,
    Ghost(m): Ghost<Map<Seq<char>, Seq<char>>>,
)
    requires
        describes(old(list)@, m),
    ensures
        describes(final(list)@, m.insert(account@, password@)),
{
    let ghost acc = account@;
    let ghost pw = password@;
    let ghost m2 = m.insert(acc, pw);
    match find_account(list, &account) {
        Some(i) => {
            let ghost before = list@;
            list.set(i, (account, password));
            assert forall|k: Seq<char>| #[trigger] m2.contains_key(k) implies exists|j: int|
                0 <= j < list@.len() && list@[j].0@ == k by {
                if k != acc {
                    let j = choose|j: int| 0 <= j < before.len() && before[j].0@ == k;
                    assert(list@[j] == before[j]);
                } else {
                    assert(list@[i as int].0@ == k);
                }
            }
        },
        None => {
            let ghost before = list@;
            list.push((account, password));
            assert forall|i: int| 0 <= i < list@.len() implies m2.contains_key(
                #[trigger] list@[i].0@,
            ) && m2[list@[i].0@] == list@[i].1@ by {
                if i < before.len() {
                    assert(list@[i] == before[i]);
                }
            }
            assert forall|k: Seq<char>| #[trigger] m2.contains_key(k) implies exists|j: int|
                0 <= j < list@.len() && list@[j].0@ == k by {
                if k != acc {
                    let j = choose|j: int| 0 <= j < before.len() && before[j].0@ == k;
                    assert(list@[j] == before[j]);
                } else {
                    assert(list@[before.len() as int].0@ == k);
                }
            }
        },
    }
}

/// The password stored for `account` in `list`.
pub(crate) fn lookup_account(
    list: &Vec<(String, String)>,
    account: &str,
    Ghost(m): Ghost<Map<Seq<char>, Seq<char>>>,
) -> (r: Option<String>)
    requires
        describes(list@, m),
    ensures
        match r {
            Some(p) => m.contains_key(account@) && p@ == m[account@],
            None => !m.contains_key(account@),
        },
{
    let key = account.to_owned();
    match find_account(list, &key) {
        Some(i) => {
            assert(list@[i as int].0@ == account@);
            Some(list[i].1.clone())
        },
        None => None,
    }
}

/// A copy of `list`, pair by pair.
pub(crate) fn copy_accounts(
    list: &Vec<(String, String)>,
    Ghost(m): Ghost<Map<Seq<char>, Seq<char>>>,
) -> (r: Vec<(String, String)>)
    requires
        describes(list@, m),
    ensures
        describes(r@, m),
        r@.len() == list@.len(),
        forall|i: int| 0 <= i < list@.len() ==> r@[i].0@ == list@[i].0@ && r@[i].1@ == list@[i].1@,
{
    let mut r: Vec<(String, String)> = Vec::new();
    let mut i: usize = 0;
    while i < list.len()
        invariant
            i <= list@.len(),
            r@.len() == i,
            forall|j: int| 0 <= j < i ==> r@[j].0@ == list@[j].0@ && r@[j].1@ == list@[j].1@,
        decreases list@.len() - i,
    {
        r.push((list[i].0.clone(), list[i].1.clone()));
        i = i + 1;
    }
    assert forall|k: Seq<char>| #[trigger] m.contains_key(k) implies exists|j: int|
        0 <= j < r@.len() && r@[j].0@ == k by {
        let j = choose|j: int| 0 <= j < list@.len() && list@[j].0@ == k;
        assert(r@[j].0@ == k);
    }
    r
}

} // verus!
