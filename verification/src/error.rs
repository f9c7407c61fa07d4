//! What can go wrong with the saved accounts.

use vstd::prelude::*;

use crate::text::concat2;

verus! {

/// Why an operation on the saved accounts failed.
#[derive(Debug, PartialEq, Eq)]
pub enum AccountsError {
    /// API key credentials without an API key.
    MissingKeyMaterial,
    /// Agent identity credentials without the agent's record.
    MissingAgentIdentity,
    /// The credentials could not be serialized.
    Serialize(String),
    /// No saved account has this key.
    NotFound(String),
    /// A task that was to fetch a status did not come to its end.
    StatusTaskFailed(String),
    /// A saved account was left without a status.
    MissingStatus,
}

/// The model of `AccountsError`.
pub enum AccountsErrorModel {
    MissingKeyMaterial,
    MissingAgentIdentity,
    Serialize(Seq<char>),
    NotFound(Seq<char>),
    StatusTaskFailed(Seq<char>),
    MissingStatus,
}

impl DeepView for AccountsError {
    type V = AccountsErrorModel;

    open spec fn deep_view(&self) -> AccountsErrorModel {
        match self {
            AccountsError::MissingKeyMaterial => AccountsErrorModel::MissingKeyMaterial,
            AccountsError::MissingAgentIdentity => AccountsErrorModel::MissingAgentIdentity,
            AccountsError::Serialize(error) => AccountsErrorModel::Serialize(error@),
            AccountsError::NotFound(key) => AccountsErrorModel::NotFound(key@),
            AccountsError::StatusTaskFailed(error) => AccountsErrorModel::StatusTaskFailed(error@),
            AccountsError::MissingStatus => AccountsErrorModel::MissingStatus,
        }
    }
}

impl AccountsErrorModel {
    /// The words in which the error is reported.
    pub open spec fn text(self) -> Seq<char> {
        match self {
            AccountsErrorModel::MissingKeyMaterial => "API key auth is missing key material"@,
            AccountsErrorModel::MissingAgentIdentity =>
                "agent identity auth is missing account data"@,
            AccountsErrorModel::Serialize(error) => error,
            AccountsErrorModel::NotFound(key) => "Saved account not found: "@ + key,
            AccountsErrorModel::StatusTaskFailed(error) => "status task failed: "@ + error,
            AccountsErrorModel::MissingStatus => "missing saved account status"@,
        }
    }
}

impl AccountsError {
    /// The words in which the error is reported.
    pub fn message(&self) -> (message: String)
        ensures
            message@ == self.deep_view().text(),
    {
        match self {
            AccountsError::MissingKeyMaterial => "API key auth is missing key material".to_owned(),
            AccountsError::MissingAgentIdentity =>
                "agent identity auth is missing account data".to_owned(),
            AccountsError::Serialize(error) => error.clone(),
            AccountsError::NotFound(key) => concat2("Saved account not found: ", key.as_str()),
            AccountsError::StatusTaskFailed(error) => concat2(
                "status task failed: ",
                error.as_str(),
            ),
            AccountsError::MissingStatus => "missing saved account status".to_owned(),
        }
    }
}

/// What an attempt came to, by its model.
pub open spec fn attempt_view(result: Result<(), String>) -> Result<(), Seq<char>> {
    match result {
        Ok(()) => Ok(()),
        Err(error) => Err(error@),
    }
}

/// A result with both its sides taken by their models.
pub open spec fn result_view<T: DeepView, E: DeepView>(result: Result<T, E>) -> Result<
    T::V,
    E::V,
> {
    match result {
        Ok(value) => Ok(value.deep_view()),
        Err(error) => Err(error.deep_view()),
    }
}

/// An error that carries a text is reported with that text, whatever it is.
pub proof fn errors_end_in_what_they_carry(carried: Seq<char>)
    ensures
        AccountsErrorModel::Serialize(carried).text() == carried,
        AccountsErrorModel::NotFound(carried).text() == "Saved account not found: "@ + carried,
        AccountsErrorModel::StatusTaskFailed(carried).text() == "status task failed: "@ + carried,
{
}

/// Errors of different kinds are reported in different words.
pub proof fn errors_are_told_apart(key: Seq<char>, task: Seq<char>)
    ensures
        AccountsErrorModel::MissingKeyMaterial.text()
            != AccountsErrorModel::MissingAgentIdentity.text(),
        AccountsErrorModel::MissingKeyMaterial.text() != AccountsErrorModel::MissingStatus.text(),
        AccountsErrorModel::MissingAgentIdentity.text()
            != AccountsErrorModel::MissingStatus.text(),
        AccountsErrorModel::NotFound(key).text() != AccountsErrorModel::StatusTaskFailed(
            task,
        ).text(),
{
    reveal_strlit("Saved account not found: ");
    reveal_strlit("status task failed: ");
    reveal_strlit("API key auth is missing key material");
    reveal_strlit("agent identity auth is missing account data");
    reveal_strlit("missing saved account status");
    assert("API key auth is missing key material"@[0] == 'A');
    assert("agent identity auth is missing account data"@[0] == 'a');
    assert("missing saved account status"@[0] == 'm');
    assert(AccountsErrorModel::NotFound(key).text()[0] == 'S');
    assert(AccountsErrorModel::StatusTaskFailed(task).text()[0] == 's');
}

} // verus!
