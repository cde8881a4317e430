//! Plex tokens: what the GraphQL operations on stored tokens answer.

use vstd::prelude::*;

use super::{DeleteOutcome, FindOutcome, InsertOutcome};
use crate::entities::plex_token::Model;

verus! {

#[derive(Clone, Copy, Debug, PartialEq, Eq, Structural)]
pub enum CreatePlexTokenErrorVariant {
    InternalError,
}

pub struct CreatePlexTokenError {
    pub error: CreatePlexTokenErrorVariant,
}

pub struct PlexTokenId {
    pub access_token: String,
}

pub enum CreatePlexTokenResult {
    Success(PlexTokenId),
    Failure(CreatePlexTokenError),
}

#[derive(Clone, Copy, Debug, PartialEq, Eq, Structural)]
pub enum GetPlexTokenVariant {
    TokenDoesNotExist,
    InternalError,
}

pub struct GetPlexTokenError {
    pub error: GetPlexTokenVariant,
}

pub enum GetPlexTokenResult {
    Success(Model),
    Failure(GetPlexTokenError),
}

#[derive(Clone, Copy, Debug, PartialEq, Eq, Structural)]
pub enum DeletePlexTokenErrorVariant {
    TokenDoesNotExist,
    InternalError,
}

pub struct DeletePlexTokenError {
    pub error: DeletePlexTokenErrorVariant,
}

pub struct DeletePlexTokenSuccess {
    pub message: String,
}

pub enum DeletePlexTokenResult {
    Success(DeletePlexTokenSuccess),
    Failure(DeletePlexTokenError),
}

/// The answers of the Plex token operations.
pub struct PlexTokensService;

impl PlexTokensService {
    /// The answer to storing a token: the key the database wrote it under, or the
    /// token itself when it was stored before; an internal error when the database failed.
    pub fn create_result(&self, access_token: &str, outcome: InsertOutcome) -> (r: CreatePlexTokenResult)
        ensures
            match outcome {
                InsertOutcome::Inserted { last_insert_id } => r matches CreatePlexTokenResult::Success(id)
                    && id.access_token@ == last_insert_id@,
                InsertOutcome::Conflict => r matches CreatePlexTokenResult::Success(id) && id.access_token@
                    == access_token@,
                InsertOutcome::Failed => r matches CreatePlexTokenResult::Failure(e) && e.error
                    == CreatePlexTokenErrorVariant::InternalError,
            },
    {
        match outcome {
            InsertOutcome::Inserted { last_insert_id } => CreatePlexTokenResult::Success(
                PlexTokenId { access_token: last_insert_id },
            ),
            InsertOutcome::Conflict => CreatePlexTokenResult::Success(
                PlexTokenId { access_token: String::from_str(access_token) },
            ),
            InsertOutcome::Failed => CreatePlexTokenResult::Failure(
                CreatePlexTokenError { error: CreatePlexTokenErrorVariant::InternalError },
            ),
        }
    }

    /// The answer to looking a token up.
    pub fn get_result(&self, outcome: FindOutcome<Model>) -> (r: GetPlexTokenResult)
        ensures
            match outcome {
                FindOutcome::Found(m) => r == GetPlexTokenResult::Success(m),
                FindOutcome::Missing => r matches GetPlexTokenResult::Failure(e) && e.error
                    == GetPlexTokenVariant::TokenDoesNotExist,
                FindOutcome::Failed => r matches GetPlexTokenResult::Failure(e) && e.error
                    == GetPlexTokenVariant::InternalError,
            },
    {
        match outcome {
            FindOutcome::Found(m) => GetPlexTokenResult::Success(m),
            FindOutcome::Missing => GetPlexTokenResult::Failure(
                GetPlexTokenError { error: GetPlexTokenVariant::TokenDoesNotExist },
            ),
            FindOutcome::Failed => GetPlexTokenResult::Failure(
                GetPlexTokenError { error: GetPlexTokenVariant::InternalError },
            ),
        }
    }

    /// The answer to deleting a token: `ok` when a row went, otherwise that there was
    /// none, or an internal error.
    pub fn delete_result(&self, outcome: DeleteOutcome) -> (r: DeletePlexTokenResult)
        ensures
            match outcome {
                DeleteOutcome::Deleted { rows_affected } => if rows_affected == 0 {
                    r matches DeletePlexTokenResult::Failure(e) && e.error
                        == DeletePlexTokenErrorVariant::TokenDoesNotExist
                } else {
                    r matches DeletePlexTokenResult::Success(s) && s.message@ == "ok"@
                },
                DeleteOutcome::Failed => r matches DeletePlexTokenResult::Failure(e) && e.error
                    == DeletePlexTokenErrorVariant::InternalError,
            },
    {
        match outcome {
            DeleteOutcome::Deleted { rows_affected } => {
                if rows_affected == 0 {
                    DeletePlexTokenResult::Failure(
                        DeletePlexTokenError { error: DeletePlexTokenErrorVariant::TokenDoesNotExist },
                    )
                } else {
                    DeletePlexTokenResult::Success(DeletePlexTokenSuccess { message: String::from_str("ok") })
                }
            },
            DeleteOutcome::Failed => DeletePlexTokenResult::Failure(
                DeletePlexTokenError { error: DeletePlexTokenErrorVariant::InternalError },
            ),
        }
    }
}

} // verus!
