//! Users: the list of the machine's interactive accounts, sorted by name
//! with each name once.

use crate::util::{
    bytes_end_with, ends_with, lemma_text_order_strict, lemma_text_order_total, text_before,
    text_less,
};
use vstd::prelude::*;

verus! {

/// One account.
#[derive(Clone, Debug)]
pub struct User {
    pub uid: u32,
    pub gid: u32,
    pub name: String,
    pub groups: Vec<String>,
}

/// What a `User` holds.
pub ghost struct UserView {
    pub uid: u32,
    pub gid: u32,
    pub name: Seq<char>,
    pub groups: Seq<Seq<char>>,
}

/// The texts of a list of strings, in their order.
pub open spec fn texts_of(strings: Seq<String>) -> Seq<Seq<char>> {
    Seq::new(strings.len(), |i: int| strings[i]@)
}

impl View for User {
    type V = UserView;

    open spec fn view(&self) -> UserView {
        UserView { uid: self.uid, gid: self.gid, name: self.name@, groups: texts_of(self.groups@) }
    }
}

/// One entry of the account database as the platform read it. The name is
/// `None` where it is not text; a group is `None` where its name could not
/// be looked up.
#[derive(Clone, Debug)]
pub struct RawUser {
    pub name: Option<String>,
    pub shell: Vec<u8>,
    pub uid: u32,
    pub gid: u32,
    pub groups: Vec<Option<String>>,
}

/// The bytes of "/false".
pub open spec fn false_suffix() -> Seq<u8> {
    seq![0x2fu8, 0x66u8, 0x61u8, 0x6cu8, 0x73u8, 0x65u8]
}

/// The bytes of "/uucico".
pub open spec fn uucico_suffix() -> Seq<u8> {
    seq![0x2fu8, 0x75u8, 0x75u8, 0x63u8, 0x69u8, 0x63u8, 0x6fu8]
}

/// Whether a login shell is that of a person's account: service accounts
/// are marked by a shell that ends in `/false` or `/uucico`.
pub open spec fn is_real_user(shell: Seq<u8>) -> bool {
    &&& !ends_with(shell, false_suffix())
    &&& !ends_with(shell, uucico_suffix())
}

/// The names of the groups that could be looked up, in their order.
pub open spec fn resolved_groups(lookups: Seq<Option<String>>) -> Seq<Seq<char>>
    decreases lookups.len(),
{
    if lookups.len() == 0 {
        Seq::empty()
    } else {
        match lookups.last() {
            Some(name) => resolved_groups(lookups.drop_last()).push(name@),
            None => resolved_groups(lookups.drop_last()),
        }
    }
}

/// Whether an entry is an account to list: one of a person, with a name.
pub open spec fn is_listed(raw: RawUser) -> bool {
    is_real_user(raw.shell@) && raw.name.is_some()
}

/// The name of an entry that has one.
pub open spec fn name_of(raw: RawUser) -> Seq<char> {
    raw.name.unwrap()@
}

/// The account that an entry gives.
pub open spec fn user_of(raw: RawUser) -> UserView {
    UserView {
        uid: raw.uid,
        gid: raw.gid,
        name: name_of(raw),
        groups: resolved_groups(raw.groups@),
    }
}

/// Whether entry `i` is the first entry to list that bears its name.
pub open spec fn first_of_name(raws: Seq<RawUser>, i: int) -> bool {
    &&& 0 <= i < raws.len()
    &&& is_listed(raws[i])
    &&& forall|j: int| 0 <= j < i && #[trigger] is_listed(raws[j]) ==> name_of(raws[j]) != name_of(raws[i])
}

/// Whether the names of a list ascend strictly, so that none occurs twice.
pub open spec fn sorted_by_name(users: Seq<User>) -> bool {
    forall|a: int, b: int|
        0 <= a < b < users.len() ==> text_less((#[trigger] users[a]).name@, (#[trigger] users[b]).name@)
}

/// Whether some account of the list bears the name.
pub open spec fn holds_name(users: Seq<User>, name: Seq<char>) -> bool {
    exists|k: int| 0 <= k < users.len() && (#[trigger] users[k]).name@ == name
}

/// Whether the list holds the account.
pub open spec fn holds_user(users: Seq<User>, user: UserView) -> bool {
    exists|k: int| 0 <= k < users.len() && (#[trigger] users[k])@ == user
}

/// Whether an account of the list stems from an entry that is the first to
/// bear its name.
pub open spec fn stems_from_first(raws: Seq<RawUser>, user: UserView) -> bool {
    exists|i: int| first_of_name(raws, i) && user == user_of(#[trigger] raws[i])
}

/// Whether `users` is the list that the entries `raws` give: sorted by
/// name, with one account for each name among the entries to list, taken
/// from the first entry that bears the name.
pub open spec fn is_users_list(raws: Seq<RawUser>, users: Seq<User>) -> bool {
    &&& sorted_by_name(users)
    &&& forall|k: int| 0 <= k < users.len() ==> stems_from_first(raws, (#[trigger] users[k])@)
    &&& forall|i: int| first_of_name(raws, i) ==> holds_user(users, user_of(#[trigger] raws[i]))
}

/// In a list sorted by name no name occurs twice.
pub proof fn lemma_sorted_names_are_distinct(users: Seq<User>, a: int, b: int)
    requires
        sorted_by_name(users),
        0 <= a < users.len(),
        0 <= b < users.len(),
        a != b,
    ensures
        users[a].name@ != users[b].name@,
{
    lemma_text_order_strict(users[a].name@, users[a].name@, users[a].name@);
    if a < b {
        assert(text_less(users[a].name@, users[b].name@));
    } else {
        assert(text_less(users[b].name@, users[a].name@));
    }
}

/// Of several entries to list that bear one name, the list holds the
/// first: no account of the list stems from a later one.
pub proof fn lemma_first_occurrence_wins(raws: Seq<RawUser>, users: Seq<User>, i: int, j: int, k: int)
    requires
        is_users_list(raws, users),
        0 <= i < j < raws.len(),
        is_listed(raws[i]),
        is_listed(raws[j]),
        name_of(raws[i]) == name_of(raws[j]),
        0 <= k < users.len(),
        users[k].name@ == name_of(raws[j]),
    ensures
        exists|f: int| 0 <= f <= i && first_of_name(raws, f) && users[k]@ == user_of(#[trigger] raws[f]),
{
    assert(stems_from_first(raws, users[k]@));
    let f = choose|f: int| first_of_name(raws, f) && users[k]@ == user_of(#[trigger] raws[f]);
    if f > i {
        assert(is_listed(raws[i]));
        assert(name_of(raws[i]) != name_of(raws[f]));
    }
}

proof fn lemma_insert_keeps_names(users: Seq<User>, at: int, user: User, name: Seq<char>)
    requires
        0 <= at <= users.len(),
        holds_name(users, name) || user.name@ == name,
    ensures
        holds_name(users.insert(at, user), name),
{
    let after = users.insert(at, user);
    if user.name@ == name {
        assert(after[at].name@ == name);
    } else {
        let k = choose|k: int| 0 <= k < users.len() && (#[trigger] users[k]).name@ == name;
        if k < at {
            assert(after[k] == users[k]);
        } else {
            assert(after[k + 1] == users[k]);
        }
    }
}

/// The names of the groups that could be looked up, in their order.
pub fn get_user_groups(lookups: &Vec<Option<String>>) -> (groups: Vec<String>)
    ensures
        texts_of(groups@) == resolved_groups(lookups@),
{
    let mut groups: Vec<String> = Vec::new();
    let n: usize = lookups.len();
    let mut i: usize = 0;
    while i < n
        invariant
            n == lookups@.len(),
            i <= n,
            texts_of(groups@) == resolved_groups(lookups@.take(i as int)),
        decreases n - i,
    {
        proof {
            assert(lookups@.take(i + 1).drop_last() =~= lookups@.take(i as int));
            assert(lookups@.take(i + 1).last() == lookups@[i as int]);
        }
        let ghost before = groups@;
        if let Some(name) = &lookups[i] {
            groups.push(name.clone());
            proof {
                assert(texts_of(groups@) =~= texts_of(before).push(name@));
            }
        }
        i = i + 1;
    }
    proof {
        assert(lookups@.take(n as int) =~= lookups@);
    }
    groups
}

/// Whether a login shell is that of a person's account.
pub fn is_real(shell: &Vec<u8>) -> (r: bool)
    ensures
        r == is_real_user(shell@),
{
    let false_shell: Vec<u8> = vec![0x2fu8, 0x66u8, 0x61u8, 0x6cu8, 0x73u8, 0x65u8];
    let uucico_shell: Vec<u8> = vec![0x2fu8, 0x75u8, 0x75u8, 0x63u8, 0x69u8, 0x63u8, 0x6fu8];
    proof {
        assert(false_shell@ =~= false_suffix());
        assert(uucico_shell@ =~= uucico_suffix());
    }
    !bytes_end_with(shell.as_slice(), false_shell.as_slice()) && !bytes_end_with(
        shell.as_slice(),
        uucico_shell.as_slice(),
    )
}

/// The list of the machine's accounts from the entries of its account
/// database: the accounts of persons, sorted by name. Where several
/// entries bear one name, the first of them is the one listed.
pub fn users_list(raws: &Vec<RawUser>) -> (users: Vec<User>)
    ensures
        is_users_list(raws@, users@),
{
    let mut users: Vec<User> = Vec::new();
    let ghost mut origin: Seq<int> = Seq::empty();
    let n: usize = raws.len();
    let mut i: usize = 0;
    while i < n
        invariant
            n == raws@.len(),
            i <= n,
            sorted_by_name(users@),
            origin.len() == users@.len(),
            forall|k: int|
                0 <= k < users@.len() ==> 0 <= #[trigger] origin[k] < i && first_of_name(
                    raws@,
                    origin[k],
                ) && users@[k]@ == user_of(raws@[origin[k]]),
            forall|j: int|
                0 <= j < i && #[trigger] is_listed(raws@[j]) ==> holds_name(
                    users@,
                    name_of(raws@[j]),
                ),
        decreases n - i,
    {
        let raw = &raws[i];
        if is_real(&raw.shell) {
            if let Some(name) = &raw.name {
                let len: usize = users.len();
                let mut at: usize = 0;
                while at < len && text_before(users[at].name.as_str(), name.as_str())
                    invariant
                        len == users@.len(),
                        at <= len,
                        forall|k: int|
                            0 <= k < at ==> text_less((#[trigger] users@[k]).name@, name@),
                    decreases len - at,
                {
                    at = at + 1;
                }
                let present: bool = at < len && !text_before(
                    name.as_str(),
                    users[at].name.as_str(),
                );
                if present {
                    proof {
                        lemma_text_order_total(users@[at as int].name@, name@);
                    }
                } else {
                    let ghost before = users@;
                    proof {
                        assert forall|k: int| 0 <= k < before.len() implies (#[trigger] before[k]).name@
                            != name@ && (k >= at ==> text_less(name@, before[k].name@)) by {
                            lemma_text_order_strict(name@, name@, name@);
                            if k > at {
                                lemma_text_order_strict(
                                    name@,
                                    before[at as int].name@,
                                    before[k].name@,
                                );
                            }
                        }
                        assert(first_of_name(raws@, i as int)) by {
                            assert forall|j: int| 0 <= j < i && #[trigger] is_listed(raws@[j]) implies name_of(
                                raws@[j],
                            ) != name_of(raws@[i as int]) by {
                                assert(holds_name(before, name_of(raws@[j])));
                            }
                        }
                    }
                    let user = User {
                        uid: raw.uid,
                        gid: raw.gid,
                        name: name.clone(),
                        groups: get_user_groups(&raw.groups),
                    };
                    users.insert(at, user);
                    proof {
                        origin = origin.insert(at as int, i as int);
                        assert forall|j: int|
                            0 <= j < i && #[trigger] is_listed(raws@[j]) implies holds_name(
                            users@,
                            name_of(raws@[j]),
                        ) by {
                            lemma_insert_keeps_names(before, at as int, user, name_of(raws@[j]));
                        }
                    }
                }
                proof {
                    assert(holds_name(users@, name@)) by {
                        assert(users@[at as int].name@ == name@);
                    }
                }
            }
        }
        i = i + 1;
    }
    proof {
        assert forall|k: int| 0 <= k < users@.len() implies stems_from_first(
            raws@,
            (#[trigger] users@[k])@,
        ) by {
            assert(first_of_name(raws@, origin[k]));
        }
        assert forall|i: int| first_of_name(raws@, i) implies holds_user(
            users@,
            user_of(#[trigger] raws@[i]),
        ) by {
            assert(is_listed(raws@[i]));
            let k = choose|k: int|
                0 <= k < users@.len() && (#[trigger] users@[k]).name@ == name_of(raws@[i]);
            let j = origin[k];
            assert(is_listed(raws@[j]));
            assert(j == i);
        }
    }
    users
}

/// The list of the machine's accounts; see `users_list`.
pub fn get_users_list(raws: &Vec<RawUser>) -> (users: Vec<User>)
    ensures
        is_users_list(raws@, users@),
{
    users_list(raws)
}

} // verus!
