//! The accounts file and its entries.

use vstd::prelude::*;

use crate::auth::{ApiAuthMode, AuthDotJson, AuthModel};
use crate::text::{concat2, concat3};
use crate::time::Timestamp;

verus! {

/// The name of the accounts file in the home directory.
pub const ACCOUNTS_FILE_NAME: &'static str = "accounts.json";

/// The version of the accounts file that is written.
pub const ACCOUNTS_FILE_VERSION: u8 = 1;

/// One saved account.
#[derive(Debug, PartialEq)]
pub struct SavedAccountEntry {
    pub key: String,
    pub label: String,
    pub auth_mode: ApiAuthMode,
    pub auth: AuthDotJson,
    pub updated_at: Timestamp,
}

/// The model of `SavedAccountEntry`.
pub struct EntryModel {
    pub key: Seq<char>,
    pub label: Seq<char>,
    pub auth_mode: ApiAuthMode,
    pub auth: AuthModel,
    pub updated_at: Timestamp,
}

impl DeepView for SavedAccountEntry {
    type V = EntryModel;

    open spec fn deep_view(&self) -> EntryModel {
        EntryModel {
            key: self.key@,
            label: self.label@,
            auth_mode: self.auth_mode,
            auth: self.auth.deep_view(),
            updated_at: self.updated_at,
        }
    }
}

impl Clone for SavedAccountEntry {
    fn clone(&self) -> (copy: Self)
        ensures
            copy == *self,
    {
        SavedAccountEntry {
            key: self.key.clone(),
            label: self.label.clone(),
            auth_mode: self.auth_mode,
            auth: self.auth.clone(),
            updated_at: self.updated_at,
        }
    }
}

impl SavedAccountEntry {
    /// Whether two entries are the same.
    pub fn same(&self, other: &Self) -> (same: bool)
        ensures
            same == (self.deep_view() == other.deep_view()),
    {
        self.key == other.key && self.label == other.label && self.auth_mode == other.auth_mode
            && self.auth.same(&other.auth) && self.updated_at == other.updated_at
    }
}

/// Whether two lists of entries are the same.
pub fn same_entries(a: &Vec<SavedAccountEntry>, b: &Vec<SavedAccountEntry>) -> (same: bool)
    ensures
        same == (a.deep_view() == b.deep_view()),
{
    if a.len() != b.len() {
        assert(a.deep_view().len() != b.deep_view().len());
        return false;
    }
    let mut i: usize = 0;
    while i < a.len()
        invariant
            a.len() == b.len(),
            i <= a.len(),
            forall|j: int| 0 <= j < i ==> a.deep_view()[j] == b.deep_view()[j],
        decreases a.len() - i,
    {
        if !a[i].same(&b[i]) {
            assert(a.deep_view()[i as int] != b.deep_view()[i as int]);
            return false;
        }
        i += 1;
    }
    assert(a.deep_view() =~= b.deep_view());
    true
}

/// The accounts file: the saved accounts and which of them is active.
#[derive(Debug, PartialEq)]
pub struct SavedAccountsFile {
    pub version: u8,
    pub active_account_key: Option<String>,
    pub accounts: Vec<SavedAccountEntry>,
}

/// The model of `SavedAccountsFile`.
pub struct AccountsModel {
    pub version: u8,
    pub active: Option<Seq<char>>,
    pub accounts: Seq<EntryModel>,
}

impl DeepView for SavedAccountsFile {
    type V = AccountsModel;

    open spec fn deep_view(&self) -> AccountsModel {
        AccountsModel {
            version: self.version,
            active: self.active_account_key.deep_view(),
            accounts: self.accounts.deep_view(),
        }
    }
}

/// The version of the accounts file that is written.
pub fn saved_accounts_file_version() -> (version: u8)
    ensures
        version == ACCOUNTS_FILE_VERSION,
{
    ACCOUNTS_FILE_VERSION
}

/// The accounts file before anything was saved.
pub open spec fn empty_accounts() -> AccountsModel {
    AccountsModel { version: ACCOUNTS_FILE_VERSION, active: None, accounts: seq![] }
}

impl Default for SavedAccountsFile {
    fn default() -> (file: Self)
        ensures
            file.deep_view() == empty_accounts(),
    {
        let file = SavedAccountsFile {
            version: ACCOUNTS_FILE_VERSION,
            active_account_key: None,
            accounts: Vec::new(),
        };
        assert(file.deep_view().accounts =~= seq![]);
        file
    }
}

/// Where the accounts file stands in a home directory. A separator goes
/// between the two unless the directory ends in one or is empty.
pub open spec fn accounts_file_path_of(codex_home: Seq<char>) -> Seq<char> {
    if codex_home.len() == 0 || codex_home.last() == '/' {
        codex_home + ACCOUNTS_FILE_NAME@
    } else {
        codex_home + "/"@ + ACCOUNTS_FILE_NAME@
    }
}

/// Where the accounts file stands in the directory `codex_home`.
pub fn accounts_file_path(codex_home: &str) -> (path: String)
    ensures
        path@ == accounts_file_path_of(codex_home@),
{
    let len: usize = codex_home.unicode_len();
    if len == 0 || codex_home.get_char(len - 1) == '/' {
        concat2(codex_home, ACCOUNTS_FILE_NAME)
    } else {
        concat3(codex_home, "/", ACCOUNTS_FILE_NAME)
    }
}

/// The path of the accounts file begins with the home directory and ends in the
/// name of the file. Between the two, unless the directory is empty, there is
/// a separator, which is added only where the directory does not end in one.
pub proof fn the_accounts_file_stands_in_the_home_directory(codex_home: Seq<char>)
    ensures
        ({
            let path = accounts_file_path_of(codex_home);
            let name = "accounts.json"@;
            let front = path.len() - name.len();
            &&& codex_home.len() <= front <= codex_home.len() + 1
            &&& path.take(codex_home.len() as int) == codex_home
            &&& path.skip(front) == name
            &&& front > 0 ==> path[front - 1] == '/'
            &&& front > codex_home.len() <==> codex_home.len() > 0 && codex_home.last() != '/'
        }),
{
    reveal_strlit("/");
    let path = accounts_file_path_of(codex_home);
    let name = "accounts.json"@;
    assert(path.take(codex_home.len() as int) =~= codex_home);
    assert(path.skip(path.len() - name.len()) =~= name);
}

/// Before anything was saved there is no account, and none is active.
pub proof fn at_first_there_is_no_account()
    ensures
        empty_accounts().accounts.len() == 0,
        empty_accounts().active is None,
        empty_accounts().version == 1,
{
}

} // verus!
