//! Plex users: what the GraphQL operations on stored Plex accounts answer.

use vstd::prelude::*;

use super::{DeleteOutcome, FindOutcome, InsertOutcome, UpdateOutcome};
use crate::entities::plex_user::Model;

verus! {

#[derive(Clone, Copy, Debug, PartialEq, Eq, Structural)]
pub enum CreatePlexUserErrorVariant {
    InternalError,
}

pub struct CreatePlexUserError {
    pub error: CreatePlexUserErrorVariant,
}

pub struct PlexUserId {
    pub id: String,
}

pub enum CreatePlexUserResult {
    Success(PlexUserId),
    Failure(CreatePlexUserError),
}

#[derive(Clone, Copy, Debug, PartialEq, Eq, Structural)]
pub enum UpdatePlexUserErrorVariant {
    UserDoesNotExist,
    InternalError,
}

pub struct UpdatePlexUserError {
    pub error: UpdatePlexUserErrorVariant,
}

pub enum UpdatePlexUserResult {
    Success(Model),
    Failure(UpdatePlexUserError),
}

#[derive(Clone, Copy, Debug, PartialEq, Eq, Structural)]
pub enum GetPlexUserVariant {
    UserDoesNotExist,
    InternalError,
}

pub struct GetPlexUserError {
    pub error: GetPlexUserVariant,
}

pub enum GetPlexUserResult {
    Success(Model),
    Failure(GetPlexUserError),
}

#[derive(Clone, Copy, Debug, PartialEq, Eq, Structural)]
pub enum DeletePlexUserErrorVariant {
    UserDoesNotExist,
    InternalError,
}

pub struct DeletePlexUserError {
    pub error: DeletePlexUserErrorVariant,
}

pub struct DeletePlexUserSuccess {
    pub message: String,
}

pub enum DeletePlexUserResult {
    Success(DeletePlexUserSuccess),
    Failure(DeletePlexUserError),
}

/// The answers of the Plex user operations.
pub struct PlexUsersService;

impl PlexUsersService {
    /// The answer to storing a Plex user: the key the database wrote it under, or the
    /// id itself when it was stored before; an internal error when the database failed.
    pub fn create_result(&self, id: &str, outcome: InsertOutcome) -> (r: CreatePlexUserResult)
        ensures
            match outcome {
                InsertOutcome::Inserted { last_insert_id } => r matches CreatePlexUserResult::Success(u)
                    && u.id@ == last_insert_id@,
                InsertOutcome::Conflict => r matches CreatePlexUserResult::Success(u) && u.id@ == id@,
                InsertOutcome::Failed => r matches CreatePlexUserResult::Failure(e) && e.error
                    == CreatePlexUserErrorVariant::InternalError,
            },
    {
        match outcome {
            InsertOutcome::Inserted { last_insert_id } => CreatePlexUserResult::Success(
                PlexUserId { id: last_insert_id },
            ),
            InsertOutcome::Conflict => CreatePlexUserResult::Success(PlexUserId { id: String::from_str(id) }),
            InsertOutcome::Failed => CreatePlexUserResult::Failure(
                CreatePlexUserError { error: CreatePlexUserErrorVariant::InternalError },
            ),
        }
    }

    /// The answer to looking a Plex user up.
    pub fn get_result(&self, outcome: FindOutcome<Model>) -> (r: GetPlexUserResult)
        ensures
            match outcome {
                FindOutcome::Found(m) => r == GetPlexUserResult::Success(m),
                FindOutcome::Missing => r matches GetPlexUserResult::Failure(e) && e.error
                    == GetPlexUserVariant::UserDoesNotExist,
                FindOutcome::Failed => r matches GetPlexUserResult::Failure(e) && e.error
                    == GetPlexUserVariant::InternalError,
            },
    {
        match outcome {
            FindOutcome::Found(m) => GetPlexUserResult::Success(m),
            FindOutcome::Missing => GetPlexUserResult::Failure(
                GetPlexUserError { error: GetPlexUserVariant::UserDoesNotExist },
            ),
            FindOutcome::Failed => GetPlexUserResult::Failure(GetPlexUserError { error: GetPlexUserVariant::InternalError }),
        }
    }

    /// The answer to updating a Plex user: the updated row, that there is no such
    /// user, or an internal error.
    pub fn update_result(&self, outcome: UpdateOutcome<Model>) -> (r: UpdatePlexUserResult)
        ensures
            match outcome {
                UpdateOutcome::Updated(m) => r == UpdatePlexUserResult::Success(m),
                UpdateOutcome::NotUpdated => r matches UpdatePlexUserResult::Failure(e) && e.error
                    == UpdatePlexUserErrorVariant::UserDoesNotExist,
                UpdateOutcome::Failed => r matches UpdatePlexUserResult::Failure(e) && e.error
                    == UpdatePlexUserErrorVariant::InternalError,
            },
    {
        match outcome {
            UpdateOutcome::Updated(m) => UpdatePlexUserResult::Success(m),
            UpdateOutcome::NotUpdated => UpdatePlexUserResult::Failure(
                UpdatePlexUserError { error: UpdatePlexUserErrorVariant::UserDoesNotExist },
            ),
            UpdateOutcome::Failed => UpdatePlexUserResult::Failure(
                UpdatePlexUserError { error: UpdatePlexUserErrorVariant::InternalError },
            ),
        }
    }

    /// The answer to deleting a Plex user: `ok` when a row went, otherwise that there
    /// was none, or an internal error.
    pub fn delete_result(&self, outcome: DeleteOutcome) -> (r: DeletePlexUserResult)
        ensures
            match outcome {
                DeleteOutcome::Deleted { rows_affected } => if rows_affected == 0 {
                    r matches DeletePlexUserResult::Failure(e) && e.error
                        == DeletePlexUserErrorVariant::UserDoesNotExist
                } else {
                    r matches DeletePlexUserResult::Success(s) && s.message@ == "ok"@
                },
                DeleteOutcome::Failed => r matches DeletePlexUserResult::Failure(e) && e.error
                    == DeletePlexUserErrorVariant::InternalError,
            },
    {
        match outcome {
            DeleteOutcome::Deleted { rows_affected } => {
                if rows_affected == 0 {
                    DeletePlexUserResult::Failure(
                        DeletePlexUserError { error: DeletePlexUserErrorVariant::UserDoesNotExist },
                    )
                } else {
                    DeletePlexUserResult::Success(DeletePlexUserSuccess { message: String::from_str("ok") })
                }
            },
            DeleteOutcome::Failed => DeletePlexUserResult::Failure(
                DeletePlexUserError { error: DeletePlexUserErrorVariant::InternalError },
            ),
        }
    }
}

} // verus!
