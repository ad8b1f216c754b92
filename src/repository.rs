//! The decisions of the user repository. Each operation reads the store once,
//! then either replies or issues exactly one write, and replies after it. The
//! caller performs the reads and writes against the database and hands the
//! results back; what the store is expected to do with them is modelled by
//! `select` and `apply` over a sequence of rows.
use vstd::prelude::*;
use crate::error::ApiError;
use crate::guards::{AuthKey, Email, NewAuthKey, Vault};
use crate::models::{NewUser, User, UserRow};

verus! {

/// The store reported a failure on a read or a write.
#[derive(Clone, Copy)]
pub struct StoreFailure;

/// One request to the repository, with its validated inputs.
pub enum Operation {
    Authenticate(AuthKey),
    GetVault(AuthKey),
    Register(Email, AuthKey, Vault),
    UpdateVault(AuthKey, Vault),
    UpdateKey(AuthKey, NewAuthKey, Vault),
}

/// A read: all users whose key, or whose email, equals the given text.
pub enum Query {
    ByKey(String),
    ByEmail(String),
}

/// A write, each carried out by the store as one statement.
pub enum Write {
    /// Add a user row.
    Insert(NewUser),
    /// Set the vault of the users with this key.
    SetVault { key: String, vault: String },
    /// Set both the key and the vault of the users with the old key.
    SetKeyAndVault { old_key: String, new_key: String, vault: String },
}

/// What the caller is to do next.
pub enum Step {
    Read(Query),
    Write(Write),
    Reply(Result<String, ApiError>),
}

/// An operation as mathematical values; keys are their stored hex text.
pub enum OperationView {
    Authenticate(Seq<char>),
    GetVault(Seq<char>),
    Register(Seq<char>, Seq<char>, Seq<char>),
    UpdateVault(Seq<char>, Seq<char>),
    UpdateKey(Seq<char>, Seq<char>, Seq<char>),
}

pub enum QueryView {
    ByKey(Seq<char>),
    ByEmail(Seq<char>),
}

pub enum WriteView {
    Insert(Seq<char>, Seq<char>, Seq<char>),
    SetVault(Seq<char>, Seq<char>),
    SetKeyAndVault(Seq<char>, Seq<char>, Seq<char>),
}

pub enum StepView {
    Read(QueryView),
    Write(WriteView),
    Reply(Result<Seq<char>, ApiError>),
}

impl View for Operation {
    type V = OperationView;

    open spec fn view(&self) -> OperationView {
        match self {
            Operation::Authenticate(k) => OperationView::Authenticate(k.hex()),
            Operation::GetVault(k) => OperationView::GetVault(k.hex()),
            Operation::Register(e, k, v) => OperationView::Register(e.0@, k.hex(), v.0@),
            Operation::UpdateVault(k, v) => OperationView::UpdateVault(k.hex(), v.0@),
            Operation::UpdateKey(k, n, v) => OperationView::UpdateKey(k.hex(), n.hex(), v.0@),
        }
    }
}

impl View for Query {
    type V = QueryView;

    open spec fn view(&self) -> QueryView {
        match self {
            Query::ByKey(k) => QueryView::ByKey(k@),
            Query::ByEmail(e) => QueryView::ByEmail(e@),
        }
    }
}

impl View for Write {
    type V = WriteView;

    open spec fn view(&self) -> WriteView {
        match self {
            Write::Insert(u) => WriteView::Insert(u.email@, u.key@, u.vault@),
            Write::SetVault { key, vault } => WriteView::SetVault(key@, vault@),
            Write::SetKeyAndVault { old_key, new_key, vault } => WriteView::SetKeyAndVault(
                old_key@,
                new_key@,
                vault@,
            ),
        }
    }
}

/// A reply as mathematical values.
pub open spec fn reply_view(r: Result<String, ApiError>) -> Result<Seq<char>, ApiError> {
    match r {
        Ok(s) => Ok(s@),
        Err(e) => Err(e),
    }
}

impl View for Step {
    type V = StepView;

    open spec fn view(&self) -> StepView {
        match self {
            Step::Read(q) => StepView::Read(q@),
            Step::Write(w) => StepView::Write(w@),
            Step::Reply(r) => StepView::Reply(reply_view(*r)),
        }
    }
}

/// The rows that a read handed back, or `None` where it failed.
pub open spec fn loaded_view(found: Result<Vec<User>, StoreFailure>) -> Option<Seq<UserRow>> {
    match found {
        Ok(v) => Some(v@.map_values(|u: User| u@)),
        Err(_) => None,
    }
}

/// Whether exactly one user matched; more than one breaks the uniqueness of
/// keys and emails and is an internal error.
pub open spec fn lookup(found: Option<Seq<UserRow>>) -> Result<bool, ApiError> {
    match found {
        None => Err(ApiError::DatabaseRead),
        Some(rows) => if rows.len() > 1 {
            Err(ApiError::InternalError)
        } else {
            Ok(rows.len() == 1)
        },
    }
}

/// The read with which an operation starts.
pub open spec fn first_query(op: OperationView) -> QueryView {
    match op {
        OperationView::Register(e, _, _) => QueryView::ByEmail(e),
        OperationView::Authenticate(k) => QueryView::ByKey(k),
        OperationView::GetVault(k) => QueryView::ByKey(k),
        OperationView::UpdateVault(k, _) => QueryView::ByKey(k),
        OperationView::UpdateKey(k, _, _) => QueryView::ByKey(k),
    }
}

pub open spec fn success() -> Seq<char> {
    "Success"@
}

/// What follows the first read, given the rows it found.
pub open spec fn after_read(op: OperationView, found: Option<Seq<UserRow>>) -> StepView {
    match lookup(found) {
        Err(e) => StepView::Reply(Err(e)),
        Ok(present) => match op {
            OperationView::Authenticate(_) => StepView::Reply(
                Ok(if present { "1"@ } else { "0"@ }),
            ),
            OperationView::GetVault(_) => if present {
                StepView::Reply(Ok(found->Some_0[0].vault))
            } else {
                StepView::Reply(Err(ApiError::UserNoExists))
            },
            OperationView::Register(e, k, v) => if present {
                StepView::Reply(Err(ApiError::UserExists))
            } else {
                StepView::Write(WriteView::Insert(e, k, v))
            },
            OperationView::UpdateVault(k, v) => if present {
                StepView::Write(WriteView::SetVault(k, v))
            } else {
                StepView::Reply(Err(ApiError::UserNoExists))
            },
            OperationView::UpdateKey(k, n, v) => if present {
                StepView::Write(WriteView::SetKeyAndVault(k, n, v))
            } else {
                StepView::Reply(Err(ApiError::UserNoExists))
            },
        },
    }
}

/// The reply after the write, given whether the store carried it out.
pub open spec fn after_write(written: bool) -> Result<Seq<char>, ApiError> {
    if written {
        Ok(success())
    } else {
        Err(ApiError::DatabaseWrite)
    }
}

/// Decides a lookup by key from the rows that the read found.
pub fn check_user_exists(found: &Result<Vec<User>, StoreFailure>) -> (r: Result<bool, ApiError>)
    ensures
        r == lookup(loaded_view(*found)),
{
    match found {
        Err(_) => Err(ApiError::DatabaseRead),
        Ok(rows) => if rows.len() > 1 {
            Err(ApiError::InternalError)
        } else {
            Ok(rows.len() == 1)
        },
    }
}

/// Decides a lookup by email from the rows that the read found.
pub fn check_email_exists(found: &Result<Vec<User>, StoreFailure>) -> (r: Result<bool, ApiError>)
    ensures
        r == lookup(loaded_view(*found)),
{
    match found {
        Err(_) => Err(ApiError::DatabaseRead),
        Ok(rows) => if rows.len() > 1 {
            Err(ApiError::InternalError)
        } else {
            Ok(rows.len() == 1)
        },
    }
}

/// The read with which `op` starts: by email for a registration, else by the
/// hex text of the key.
pub fn first_step(op: &Operation) -> (r: Step)
    ensures
        r@ == StepView::Read(first_query(op@)),
{
    match op {
        Operation::Register(e, _, _) => Step::Read(Query::ByEmail(e.0.clone())),
        Operation::Authenticate(k) => Step::Read(Query::ByKey(k.to_hex())),
        Operation::GetVault(k) => Step::Read(Query::ByKey(k.to_hex())),
        Operation::UpdateVault(k, _) => Step::Read(Query::ByKey(k.to_hex())),
        Operation::UpdateKey(k, _, _) => Step::Read(Query::ByKey(k.to_hex())),
    }
}

/// The reply to an authentication: `"1"` when the key is registered, `"0"`
/// when it is not.
pub fn authenticate_key(found: &Result<Vec<User>, StoreFailure>) -> (r: Result<String, ApiError>)
    ensures
        reply_view(r) == match lookup(loaded_view(*found)) {
            Err(e) => Err(e),
            Ok(present) => Ok(if present { "1"@ } else { "0"@ }),
        },
{
    match check_user_exists(found) {
        Err(e) => Err(e),
        Ok(present) => Ok(if present { "1".to_owned() } else { "0".to_owned() }),
    }
}

/// The reply to a vault request: the vault of the one user found.
pub fn read_vault_from_db(found: Result<Vec<User>, StoreFailure>) -> (r: Result<String, ApiError>)
    ensures
        reply_view(r) == match lookup(loaded_view(found)) {
            Err(e) => Err(e),
            Ok(present) => if present {
                Ok(loaded_view(found)->Some_0[0].vault)
            } else {
                Err(ApiError::UserNoExists)
            },
        },
{
    let checked = check_user_exists(&found);
    match checked {
        Err(e) => Err(e),
        Ok(present) => {
            if present {
                match found {
                    Ok(mut rows) => {
                        let ghost before = rows@;
                        let user = rows.pop().unwrap();
                        assert(before.len() == 1 && user == before[0]);
                        Ok(user.vault)
                    },
                    Err(_) => Err(ApiError::DatabaseRead),
                }
            } else {
                Err(ApiError::UserNoExists)
            }
        },
    }
}

/// Registration goes on to insert the new user only where no user has its email.
pub fn register_new_user(email: Email, auth_key: AuthKey, vault: Vault, found: &Result<Vec<User>, StoreFailure>) -> (r: Result<Write, ApiError>)
    ensures
        match lookup(loaded_view(*found)) {
            Err(e) => r == Err::<Write, ApiError>(e),
            Ok(true) => r == Err::<Write, ApiError>(ApiError::UserExists),
            Ok(false) => r matches Ok(w) && w@ == WriteView::Insert(email.0@, auth_key.hex(), vault.0@),
        },
{
    match check_email_exists(found) {
        Err(e) => Err(e),
        Ok(true) => Err(ApiError::UserExists),
        Ok(false) => Ok(Write::Insert(NewUser { email: email.0, key: auth_key.to_hex(), vault: vault.0 })),
    }
}

/// A vault update goes on to write only where the key is registered.
pub fn update_vault_in_db(auth_key: AuthKey, new_vault: Vault, found: &Result<Vec<User>, StoreFailure>) -> (r: Result<Write, ApiError>)
    ensures
        match lookup(loaded_view(*found)) {
            Err(e) => r == Err::<Write, ApiError>(e),
            Ok(false) => r == Err::<Write, ApiError>(ApiError::UserNoExists),
            Ok(true) => r matches Ok(w) && w@ == WriteView::SetVault(auth_key.hex(), new_vault.0@),
        },
{
    match check_user_exists(found) {
        Err(e) => Err(e),
        Ok(false) => Err(ApiError::UserNoExists),
        Ok(true) => Ok(Write::SetVault { key: auth_key.to_hex(), vault: new_vault.0 }),
    }
}

/// A key rotation goes on only where the old key is registered, and then sets
/// the key and the vault in one write.
pub fn update_key_in_db(old_auth_key: AuthKey, new_auth_key: NewAuthKey, new_vault: Vault, found: &Result<Vec<User>, StoreFailure>) -> (r: Result<Write, ApiError>)
    ensures
        match lookup(loaded_view(*found)) {
            Err(e) => r == Err::<Write, ApiError>(e),
            Ok(false) => r == Err::<Write, ApiError>(ApiError::UserNoExists),
            Ok(true) => r matches Ok(w) && w@ == WriteView::SetKeyAndVault(
                old_auth_key.hex(),
                new_auth_key.hex(),
                new_vault.0@,
            ),
        },
{
    match check_user_exists(found) {
        Err(e) => Err(e),
        Ok(false) => Err(ApiError::UserNoExists),
        Ok(true) => Ok(Write::SetKeyAndVault {
            old_key: old_auth_key.to_hex(),
            new_key: new_auth_key.to_hex(),
            vault: new_vault.0,
        }),
    }
}

/// Turns a decision that may write into the next step.
fn write_or_reply(decided: Result<Write, ApiError>) -> (r: Step)
    ensures
        match decided {
            Ok(w) => r@ == StepView::Write(w@),
            Err(e) => r@ == StepView::Reply(Err(e)),
        },
{
    match decided {
        Ok(w) => Step::Write(w),
        Err(e) => Step::Reply(Err(e)),
    }
}

/// What follows the first read of `op`, given what the read returned.
pub fn step_after_read(op: Operation, found: Result<Vec<User>, StoreFailure>) -> (r: Step)
    ensures
        r@ == after_read(op@, loaded_view(found)),
{
    match op {
        Operation::Authenticate(_) => Step::Reply(authenticate_key(&found)),
        Operation::GetVault(_) => Step::Reply(read_vault_from_db(found)),
        Operation::Register(e, k, v) => write_or_reply(register_new_user(e, k, v, &found)),
        Operation::UpdateVault(k, v) => write_or_reply(update_vault_in_db(k, v, &found)),
        Operation::UpdateKey(k, n, v) => write_or_reply(update_key_in_db(k, n, v, &found)),
    }
}

/// The reply once the store has answered the write.
pub fn step_after_write(written: &Result<(), StoreFailure>) -> (r: Step)
    ensures
        r@ == StepView::Reply(after_write(written is Ok)),
{
    match written {
        Ok(()) => Step::Reply(Ok("Success".to_owned())),
        Err(_) => Step::Reply(Err(ApiError::DatabaseWrite)),
    }
}

} // verus!
