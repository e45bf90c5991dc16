//! Account records: the stored credentials of one game account and the
//! name under which the account is shown.

use crate::text::{is_blank, lemma_blank_iff_trimmed_empty, trim};
use vstd::prelude::*;
use vstd::string::StringExecFns;

verus! {

/// One stored account.
#[derive(Debug)]
pub struct Account {
    pub username: String,
    pub password: String,
    pub region: String,
    pub in_game_name: String,
    pub custom_tag: String,
}

/// What an [`Account`] holds, as sequences of characters.
pub struct AccountView {
    pub username: Seq<char>,
    pub password: Seq<char>,
    pub region: Seq<char>,
    pub in_game_name: Seq<char>,
    pub custom_tag: Seq<char>,
}

/// What stands between the displayed name and the region in the label of an
/// account.
pub const LABEL_GAP: &'static str = "           ";

impl AccountView {
    /// The line that stands for the account in the list: the displayed name,
    /// the gap, the region.
    pub open spec fn label(self) -> Seq<char> {
        self.full_name() + LABEL_GAP@ + self.region
    }

    /// The part behind the `#` of the displayed name: the custom tag, or the
    /// region where the tag is blank.
    pub open spec fn tag_line(self) -> Seq<char> {
        if is_blank(self.custom_tag) {
            self.region
        } else {
            self.custom_tag
        }
    }

    /// The displayed name: the in-game name, a `#`, and the tag line.
    pub open spec fn full_name(self) -> Seq<char> {
        self.in_game_name + seq!['#'] + self.tag_line()
    }
}

impl View for Account {
    type V = AccountView;

    open spec fn view(&self) -> AccountView {
        AccountView {
            username: self.username@,
            password: self.password@,
            region: self.region@,
            in_game_name: self.in_game_name@,
            custom_tag: self.custom_tag@,
        }
    }
}

impl Clone for Account {
    fn clone(&self) -> (copy: Self)
        ensures
            copy@ == self@,
    {
        Account {
            username: self.username.clone(),
            password: self.password.clone(),
            region: self.region.clone(),
            in_game_name: self.in_game_name.clone(),
            custom_tag: self.custom_tag.clone(),
        }
    }
}

impl Default for Account {
    fn default() -> (account: Self)
        ensures
            account@ == (AccountView {
                username: Seq::empty(),
                password: Seq::empty(),
                region: Seq::empty(),
                in_game_name: Seq::empty(),
                custom_tag: Seq::empty(),
            }),
    {
        Account {
            username: String::new(),
            password: String::new(),
            region: String::new(),
            in_game_name: String::new(),
            custom_tag: String::new(),
        }
    }
}

/// The pair that is typed into the client's login form.
#[derive(Debug)]
pub struct Credentials {
    pub username: String,
    pub password: String,
}

/// What [`Credentials`] hold, as sequences of characters.
pub struct CredentialsView {
    pub username: Seq<char>,
    pub password: Seq<char>,
}

impl View for Credentials {
    type V = CredentialsView;

    open spec fn view(&self) -> CredentialsView {
        CredentialsView { username: self.username@, password: self.password@ }
    }
}

impl Clone for Credentials {
    fn clone(&self) -> (copy: Self)
        ensures
            copy@ == self@,
    {
        Credentials { username: self.username.clone(), password: self.password.clone() }
    }
}

impl Account {
    /// An account of these five fields.
    pub fn new(
        username: String,
        password: String,
        region: String,
        in_game_name: String,
        custom_tag: String,
    ) -> (account: Self)
        ensures
            account@ == (AccountView {
                username: username@,
                password: password@,
                region: region@,
                in_game_name: in_game_name@,
                custom_tag: custom_tag@,
            }),
    {
        Account { username, password, region, in_game_name, custom_tag }
    }

    /// The part of the account that the login form takes.
    pub fn credentials(&self) -> (credentials: Credentials)
        ensures
            credentials@ == (CredentialsView {
                username: self@.username,
                password: self@.password,
            }),
    {
        Credentials { username: self.username.clone(), password: self.password.clone() }
    }

    /// The line that stands for the account in the list.
    pub fn label(&self) -> (label: String)
        ensures
            label@ == self@.label(),
    {
        let mut label = self.full_name();
        label.append(LABEL_GAP);
        label.append(self.region.as_str());
        label
    }

    /// The name under which the account is shown: `name#tag`, with the
    /// region in place of a blank tag.
    pub fn full_name(&self) -> (name: String)
        ensures
            name@ == self@.full_name(),
    {
        proof {
            lemma_blank_iff_trimmed_empty(self.custom_tag@);
            reveal_strlit("#");
        }
        let mut name = self.in_game_name.clone();
        name.append("#");
        assert("#"@ == seq!['#']);
        if trim(self.custom_tag.as_str()).is_empty() {
            name.append(self.region.as_str());
        } else {
            name.append(self.custom_tag.as_str());
        }
        name
    }
}

/// The accounts of `accounts`, each by its view.
pub open spec fn book(accounts: Seq<Account>) -> Seq<AccountView> {
    accounts.map_values(|a: Account| a@)
}

/// Whether `at` is the first account of `book` with the label `label`.
pub open spec fn is_first_labelled(book: Seq<AccountView>, label: Seq<char>, at: int) -> bool {
    &&& 0 <= at < book.len()
    &&& book[at].label() == label
    &&& forall|earlier: int| 0 <= earlier < at ==> (#[trigger] book[earlier]).label() != label
}

/// Whether some account of `book` has the label `label`.
pub open spec fn has_label(book: Seq<AccountView>, label: Seq<char>) -> bool {
    exists|at: int| 0 <= at < book.len() && (#[trigger] book[at]).label() == label
}

/// `book` after `account` was saved: it takes the place of every account of
/// the same username and stands last.
pub open spec fn with_account(book: Seq<AccountView>, account: AccountView) -> Seq<AccountView> {
    book.filter(|a: AccountView| a.username != account.username).push(account)
}

/// `book` with the accounts at `from` and `to` in each other's place, or
/// `book` itself where one of the two is no position of it.
pub open spec fn with_swapped(book: Seq<AccountView>, from: int, to: int) -> Seq<AccountView> {
    if 0 <= from < book.len() && 0 <= to < book.len() {
        book.update(from, book[to]).update(to, book[from])
    } else {
        book
    }
}

/// Position of the first account with the label `label`.
pub fn find_by_label(accounts: &Vec<Account>, label: &String) -> (found: Option<usize>)
    ensures
        found is Some <==> has_label(book(accounts@), label@),
        found matches Some(at) ==> is_first_labelled(book(accounts@), label@, at as int),
{
    let mut i: usize = 0;
    while i < accounts.len()
        invariant
            i <= accounts.len(),
            forall|k: int| 0 <= k < i ==> (#[trigger] book(accounts@)[k]).label() != label@,
        decreases accounts.len() - i,
    {
        let candidate = accounts[i].label();
        if candidate == *label {
            assert(book(accounts@)[i as int].label() == label@);
            return Some(i);
        }
        i += 1;
    }
    None
}

/// Saves `account` into `accounts`: every account of the same username
/// leaves, and `account` is added at the end.
pub fn save_into(accounts: &mut Vec<Account>, account: Account)
    ensures
        book(final(accounts)@) == with_account(book(old(accounts)@), account@),
{
    let ghost others = |a: AccountView| a.username != account@.username;
    let ghost before = book(accounts@);
    let mut kept: Vec<Account> = Vec::new();
    let mut i: usize = 0;
    while i < accounts.len()
        invariant
            i <= accounts.len(),
            before == book(accounts@),
            others == |a: AccountView| a.username != account@.username,
            book(kept@) == before.take(i as int).filter(others),
        decreases accounts.len() - i,
    {
        proof {
            let seen = before.take(i as int);
            assert(before.take(i + 1) == seen.push(before[i as int]));
            seen.lemma_filter_push(before[i as int], others);
        }
        if !(accounts[i].username == account.username) {
            let ghost kept_before = kept@;
            kept.push(accounts[i].clone());
            assert(book(kept@) == book(kept_before).push(before[i as int]));
        }
        i += 1;
    }
    assert(before.take(i as int) == before);
    let ghost kept_before = kept@;
    kept.push(account);
    assert(book(kept@) == book(kept_before).push(account@));
    *accounts = kept;
}

/// Puts the accounts at `from` and `to` in each other's place. Where one of
/// the two is no position of the list, nothing changes.
pub fn swap_accounts(accounts: &mut Vec<Account>, from: usize, to: usize)
    ensures
        book(final(accounts)@) == with_swapped(book(old(accounts)@), from as int, to as int),
{
    if from < accounts.len() && to < accounts.len() {
        let first = accounts[from].clone();
        let second = accounts[to].clone();
        accounts.set(from, second);
        accounts.set(to, first);
        assert(book(accounts@) == with_swapped(book(old(accounts)@), from as int, to as int));
    }
}

} // verus!
