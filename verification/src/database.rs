//! The records kept in the database, and the checks made on the values that go
//! into it or come out of it.
use vstd::prelude::*;

use crate::errors::{AppError, ErrorSource, external};
use crate::text::str_eq;

verus! {

/// `chrono::NaiveDateTime`, carried through as an opaque value.
#[verifier::external_type_specification]
#[verifier::external_body]
pub struct ExNaiveDateTime(chrono::NaiveDateTime);

/// `sqlx::types::BigDecimal` (bigdecimal's `BigDecimal`), carried through as an opaque value.
#[verifier::external_type_specification]
#[verifier::external_body]
pub struct ExBigDecimal(sqlx::types::BigDecimal);

/// Whether bigdecimal's parser accepts the text as a decimal number.
pub uninterp spec fn decimal_text_parses(s: Seq<char>) -> bool;

/// The decimal that bigdecimal's parser makes of the text.
pub uninterp spec fn decimal_of_text(s: Seq<char>) -> sqlx::types::BigDecimal;

/// `NaiveDateTime::default()`: the Unix epoch, the creation time given to a
/// record before the database stamps its own.
#[verifier::external_body]
pub(crate) fn unix_epoch() -> chrono::NaiveDateTime {
    chrono::NaiveDateTime::default()
}

/// `<BigDecimal as FromStr>::from_str`: the contract says that a value comes
/// back exactly when bigdecimal's parser accepts the text, and that it is the
/// decimal the parser makes of that text.
#[verifier::external_body]
fn decimal_from_str(s: &str) -> (r: Option<sqlx::types::BigDecimal>)
    ensures
        r is Some == decimal_text_parses(s@),
        r matches Some(v) ==> v == decimal_of_text(s@),
{
    <sqlx::types::BigDecimal as std::str::FromStr>::from_str(s).ok()
}

/// Whether a bookmaker takes bets itself or brokers them between punters.
#[derive(Debug, Clone, Copy, PartialEq, Eq, Structural)]
pub enum BookmakerScope {
    Bookmaker,
    Exchange,
}

/// The text under which a scope is stored: its name in lower case.
pub open spec fn scope_db_name(scope: BookmakerScope) -> Seq<char> {
    match scope {
        BookmakerScope::Bookmaker => "bookmaker"@,
        BookmakerScope::Exchange => "exchange"@,
    }
}

impl BookmakerScope {
    /// The text under which this scope is stored in the database.
    pub fn db_name(&self) -> (s: &'static str)
        ensures
            s@ == scope_db_name(*self),
    {
        match self {
            BookmakerScope::Bookmaker => "bookmaker",
            BookmakerScope::Exchange => "exchange",
        }
    }

    /// The scope stored under the given text, if any.
    pub fn from_db_name(name: &str) -> (r: Option<BookmakerScope>)
        ensures
            match r {
                Some(scope) => scope_db_name(scope) == name@,
                None => forall|scope: BookmakerScope| scope_db_name(scope) != name@,
            },
    {
        if str_eq(name, "bookmaker") {
            Some(BookmakerScope::Bookmaker)
        } else if str_eq(name, "exchange") {
            Some(BookmakerScope::Exchange)
        } else {
            proof {
                assert forall|scope: BookmakerScope| scope_db_name(scope) != name@ by {
                    match scope {
                        BookmakerScope::Bookmaker => {},
                        BookmakerScope::Exchange => {},
                    }
                }
            }
            None
        }
    }
}

/// Reading back the stored name of a scope gives the same scope, and no two
/// scopes share a stored name.
pub proof fn lemma_scope_names_round_trip(a: BookmakerScope, b: BookmakerScope)
    ensures
        scope_db_name(a) == scope_db_name(b) ==> a == b,
{
    reveal_strlit("bookmaker");
    reveal_strlit("exchange");
    if a != b {
        assert(scope_db_name(a)[0] != scope_db_name(b)[0]);
    }
}

/// Represents a user.
#[derive(Debug)]
pub struct UserModel {
    pub id: String,
    pub username: String,
    pub avatar: Option<String>,
    pub created_at: chrono::NaiveDateTime,
    pub access_token: Option<String>,
}

/// The user that a row of the `users` table describes. The stored access token
/// is never read back: the record has none.
pub fn user_from_row(
    id: String,
    username: String,
    avatar: Option<String>,
    created_at: chrono::NaiveDateTime,
) -> (u: UserModel)
    ensures
        u.id == id,
        u.username == username,
        u.avatar == avatar,
        u.created_at == created_at,
        u.access_token is None,
{
    UserModel { id, username, avatar, created_at, access_token: None }
}

/// Links a user to one of the user's bets.
#[derive(Debug)]
pub struct UserBetsModel {
    pub user_id: String,
    pub bet_id: String,
}

/// The user a lookup found, or the error that no user was found.
pub fn user_or_not_found(found: Option<UserModel>) -> (r: Result<UserModel, AppError>)
    ensures
        match found {
            Some(user) => r == Ok::<UserModel, AppError>(user),
            None => r matches Err(AppError::External { source, message }) && source
                == ErrorSource::Anyhow && message@ == "User not found"@,
        },
{
    match found {
        Some(user) => Ok(user),
        None => Err(external(ErrorSource::Anyhow, String::from_str("User not found"))),
    }
}

/// The amount of a bet, as the decimal the database stores; an error where the
/// text is not a decimal number.
pub fn parse_amount(amount: &str) -> (r: Result<sqlx::types::BigDecimal, AppError>)
    ensures
        r is Ok == decimal_text_parses(amount@),
        r matches Ok(v) ==> v == decimal_of_text(amount@),
        r matches Err(e) ==> e matches AppError::External { source, message } && source
            == ErrorSource::Anyhow && message@ == "Failed to parse amount"@,
{
    match decimal_from_str(amount) {
        Some(value) => Ok(value),
        None => Err(external(ErrorSource::Anyhow, String::from_str("Failed to parse amount"))),
    }
}

} // verus!
