//! Discord tokens: what the GraphQL operations on stored tokens answer.

use vstd::prelude::*;

use super::{DeleteOutcome, FindOutcome, InsertOutcome};
use crate::entities::discord_token::Model;

verus! {

#[derive(Clone, Copy, Debug, PartialEq, Eq, Structural)]
pub enum CreateDiscordTokenErrorVariant {
    InternalError,
    Unauthorized,
}

pub struct CreateDiscordTokenError {
    pub error: CreateDiscordTokenErrorVariant,
}

pub struct DiscordTokenId {
    pub access_token: String,
}

pub enum CreateDiscordTokenResult {
    Success(DiscordTokenId),
    Failure(CreateDiscordTokenError),
}

#[derive(Clone, Copy, Debug, PartialEq, Eq, Structural)]
pub enum GetDiscordTokenVariant {
    TokenDoesNotExist,
    InternalError,
}

pub struct GetDiscordTokenError {
    pub error: GetDiscordTokenVariant,
}

pub enum GetDiscordTokenResult {
    Success(Model),
    Failure(GetDiscordTokenError),
}

#[derive(Clone, Copy, Debug, PartialEq, Eq, Structural)]
pub enum DeleteDiscordTokenErrorVariant {
    UserDoesNotExist,
    InternalError,
}

pub struct DeleteDiscordTokenError {
    pub error: DeleteDiscordTokenErrorVariant,
}

pub struct DeleteDiscordTokenSuccess {
    pub message: String,
}

pub enum DeleteDiscordTokenResult {
    Success(DeleteDiscordTokenSuccess),
    Failure(DeleteDiscordTokenError),
}

/// The answers of the Discord token operations.
pub struct DiscordTokensService;

impl DiscordTokensService {
    /// The answer to storing a token: its access token, whether it was written now or
    /// stored before; an internal error when the database failed.
    pub fn create_result(&self, access_token: &str, outcome: InsertOutcome) -> (r: CreateDiscordTokenResult)
        ensures
            match outcome {
                InsertOutcome::Failed => r matches CreateDiscordTokenResult::Failure(e) && e.error
                    == CreateDiscordTokenErrorVariant::InternalError,
                _ => r matches CreateDiscordTokenResult::Success(id) && id.access_token@ == access_token@,
            },
    {
        match outcome {
            InsertOutcome::Failed => CreateDiscordTokenResult::Failure(
                CreateDiscordTokenError { error: CreateDiscordTokenErrorVariant::InternalError },
            ),
            _ => CreateDiscordTokenResult::Success(DiscordTokenId { access_token: String::from_str(access_token) }),
        }
    }

    /// The answer to looking a token up.
    pub fn get_result(&self, outcome: FindOutcome<Model>) -> (r: GetDiscordTokenResult)
        ensures
            match outcome {
                FindOutcome::Found(m) => r == GetDiscordTokenResult::Success(m),
                FindOutcome::Missing => r matches GetDiscordTokenResult::Failure(e) && e.error
                    == GetDiscordTokenVariant::TokenDoesNotExist,
                FindOutcome::Failed => r matches GetDiscordTokenResult::Failure(e) && e.error
                    == GetDiscordTokenVariant::InternalError,
            },
    {
        match outcome {
            FindOutcome::Found(m) => GetDiscordTokenResult::Success(m),
            FindOutcome::Missing => GetDiscordTokenResult::Failure(
                GetDiscordTokenError { error: GetDiscordTokenVariant::TokenDoesNotExist },
            ),
            FindOutcome::Failed => GetDiscordTokenResult::Failure(
                GetDiscordTokenError { error: GetDiscordTokenVariant::InternalError },
            ),
        }
    }

    /// The answer to deleting a token: `ok` when a row went, otherwise that there was
    /// none, or an internal error.
    pub fn delete_result(&self, outcome: DeleteOutcome) -> (r: DeleteDiscordTokenResult)
        ensures
            match outcome {
                DeleteOutcome::Deleted { rows_affected } => if rows_affected == 0 {
                    r matches DeleteDiscordTokenResult::Failure(e) && e.error
                        == DeleteDiscordTokenErrorVariant::UserDoesNotExist
                } else {
                    r matches DeleteDiscordTokenResult::Success(s) && s.message@ == "ok"@
                },
                DeleteOutcome::Failed => r matches DeleteDiscordTokenResult::Failure(e) && e.error
                    == DeleteDiscordTokenErrorVariant::InternalError,
            },
    {
        match outcome {
            DeleteOutcome::Deleted { rows_affected } => {
                if rows_affected == 0 {
                    DeleteDiscordTokenResult::Failure(
                        DeleteDiscordTokenError { error: DeleteDiscordTokenErrorVariant::UserDoesNotExist },
                    )
                } else {
                    DeleteDiscordTokenResult::Success(DeleteDiscordTokenSuccess { message: String::from_str("ok") })
                }
            },
            DeleteOutcome::Failed => DeleteDiscordTokenResult::Failure(
                DeleteDiscordTokenError { error: DeleteDiscordTokenErrorVariant::InternalError },
            ),
        }
    }
}

} // verus!
