//! Access tokens and the expiry that a token exchange grants.

use crate::error::{mapped, Field, MappingError};
use crate::ory_client::models::{OAuth2TokenExchange, OAuth2TokenExchangeView};
use crate::time::{utc_now, Timestamp, SECONDS_IN_A_DAY};
use vstd::prelude::*;

verus! {

/// An access token used to authenticate and authorize access to the API.
#[derive(Clone, Debug, PartialEq, Eq)]
pub struct AccessToken {
    /// The secret that authenticates requests.
    pub access_token: String,
    /// When the access token expires.
    pub expires_at: Timestamp,
    /// The type of the access token, such as "Bearer".
    pub token_type: String,
}

/// The mathematical content of an [`AccessToken`].
pub struct AccessTokenView {
    pub access_token: Seq<char>,
    pub expires_at: Timestamp,
    pub token_type: Seq<char>,
}

impl View for AccessToken {
    type V = AccessTokenView;

    open spec fn view(&self) -> AccessTokenView {
        AccessTokenView {
            access_token: self.access_token@,
            expires_at: self.expires_at,
            token_type: self.token_type@,
        }
    }
}

impl DeepView for AccessToken {
    type V = AccessTokenView;

    open spec fn deep_view(&self) -> AccessTokenView {
        self.view()
    }
}

/// The whole days in a lifetime of `expires_in` seconds. What is left of a
/// day is dropped, never rounded up.
pub open spec fn whole_days(expires_in: int) -> int {
    if expires_in >= 0 {
        expires_in / 86400
    } else {
        -((-expires_in) / 86400)
    }
}

/// The access token that a token exchange grants at the instant `now`: the
/// token and its type as sent, expiring the whole days of its lifetime after
/// `now`, each day counting 86400 seconds. The first absent field is
/// reported; a lifetime of a negative day count is malformed; an expiry past
/// the last representable date overflows.
pub open spec fn map_access_token(exchange: OAuth2TokenExchangeView, now: Timestamp) -> Result<
    AccessTokenView,
    MappingError,
> {
    if exchange.access_token is None {
        Err(MappingError::Missing(Field::AccessToken))
    } else if exchange.token_type is None {
        Err(MappingError::Missing(Field::TokenType))
    } else if exchange.expires_in is None {
        Err(MappingError::Missing(Field::ExpiresIn))
    } else if whole_days(exchange.expires_in->0 as int) < 0 {
        Err(MappingError::Malformed(Field::ExpiresIn))
    } else if !now.reaches(whole_days(exchange.expires_in->0 as int) as u64) {
        Err(MappingError::Overflow)
    } else {
        Ok(
            AccessTokenView {
                access_token: exchange.access_token->0,
                expires_at: now.plus_days(whole_days(exchange.expires_in->0 as int)),
                token_type: exchange.token_type->0,
            },
        )
    }
}

/// The whole days in a lifetime of `expires_in` seconds, `None` where the
/// count is negative. A lifetime that is negative by less than a day counts
/// zero days.
pub fn expires_in_days(expires_in: i64) -> (r: Option<u64>)
    ensures
        whole_days(expires_in as int) >= 0 ==> r == Some(whole_days(expires_in as int) as u64),
        whole_days(expires_in as int) < 0 ==> r is None,
        r matches Some(days) ==> (expires_in >= 0 ==> days * SECONDS_IN_A_DAY <= expires_in < (days
            + 1) * SECONDS_IN_A_DAY),
{
    if expires_in >= 0 {
        Some((expires_in / SECONDS_IN_A_DAY) as u64)
    } else if expires_in > -SECONDS_IN_A_DAY {
        Some(0)
    } else {
        None
    }
}

/// Reads the access token that a token exchange grants at the instant `now`.
pub fn to_access_token_at(exchange: &OAuth2TokenExchange, now: Timestamp) -> (r: Result<
    AccessToken,
    MappingError,
>)
    ensures
        mapped(r) == map_access_token(exchange@, now),
        r matches Ok(token) ==> token.expires_at.seconds == now.seconds + SECONDS_IN_A_DAY
            * whole_days(exchange.expires_in->0 as int) && token.expires_at.seconds
            >= now.seconds,
{
    let access_token = match &exchange.access_token {
        Some(token) => token.clone(),
        None => { return Err(MappingError::Missing(Field::AccessToken)); },
    };
    let token_type = match &exchange.token_type {
        Some(kind) => kind.clone(),
        None => { return Err(MappingError::Missing(Field::TokenType)); },
    };
    let expires_in = match exchange.expires_in {
        Some(seconds) => seconds,
        None => { return Err(MappingError::Missing(Field::ExpiresIn)); },
    };
    let days = match expires_in_days(expires_in) {
        Some(days) => days,
        None => { return Err(MappingError::Malformed(Field::ExpiresIn)); },
    };
    match now.checked_add_days(days) {
        Some(expires_at) => Ok(AccessToken { access_token, expires_at, token_type }),
        None => Err(MappingError::Overflow),
    }
}

/// Reads the access token that a token exchange grants now. The clock is
/// read once; whatever it shows, the outcome is that of
/// [`to_access_token_at`] for that instant.
pub fn to_access_token(exchange: &OAuth2TokenExchange) -> (r: Result<AccessToken, MappingError>)
    ensures
        exists|now: Timestamp| mapped(r) == #[trigger] map_access_token(exchange@, now),
{
    let now = utc_now();
    to_access_token_at(exchange, now)
}

} // verus!
