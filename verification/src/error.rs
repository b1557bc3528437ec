//! The errors that the service answers requests with.

use vstd::prelude::*;

verus! {

/// An error answered to a GraphQL request: a message and, for some, a
/// `details` extension.
pub enum ApiError {
    /// No article is stored.
    NoArticles,
    /// The database refused to insert an article.
    ArticleInsertFailed,
    /// An article did not serialise to a document.
    ArticleNotADocument,
    /// The identity platform refused the authorisation code.
    InvalidCode,
    /// The identity platform's answer was not a session.
    InvalidSession,
    /// The database refused to add a saved item.
    SaveItemFailed,
    /// The database refused to change a display name.
    EditNameFailed,
    /// The database refused to create a user.
    CreateUserFailed,
    /// No session could be had for a new user's access token.
    SessionUnavailable,
    /// A file could not be read.
    EncodeFileFailed,
    /// A signed-in user could not be stored.
    InsertUserFailed,
    /// An error of the HTTP client or the database, with its own message.
    Upstream(String),
}

impl ApiError {
    /// The message of this error.
    pub open spec fn spec_message(self) -> Seq<char> {
        match self {
            ApiError::NoArticles => "articleError"@,
            ApiError::ArticleInsertFailed => "Failed."@,
            ApiError::ArticleNotADocument => "new-article"@,
            ApiError::InvalidCode => "Invalid code."@,
            ApiError::InvalidSession => "Invalid."@,
            ApiError::SaveItemFailed => "Failed to add saved item."@,
            ApiError::EditNameFailed => "Failed to edit name."@,
            ApiError::CreateUserFailed => "Failed to create user."@,
            ApiError::SessionUnavailable => "Failed to get session in user creation."@,
            ApiError::EncodeFileFailed => "Failed to find & encode file."@,
            ApiError::InsertUserFailed => "Failed to insert user."@,
            ApiError::Upstream(message) => message@,
        }
    }

    /// The `details` extension of this error, where it has one.
    pub open spec fn spec_details(self) -> Option<Seq<char>> {
        match self {
            ApiError::NoArticles => Some("No documents"@),
            ApiError::ArticleNotADocument => Some("Error inserting article!"@),
            _ => None,
        }
    }

    /// The message of this error.
    pub fn message(&self) -> (text: String)
        ensures
            text@ == self.spec_message(),
    {
        match self {
            ApiError::NoArticles => String::from_str("articleError"),
            ApiError::ArticleInsertFailed => String::from_str("Failed."),
            ApiError::ArticleNotADocument => String::from_str("new-article"),
            ApiError::InvalidCode => String::from_str("Invalid code."),
            ApiError::InvalidSession => String::from_str("Invalid."),
            ApiError::SaveItemFailed => String::from_str("Failed to add saved item."),
            ApiError::EditNameFailed => String::from_str("Failed to edit name."),
            ApiError::CreateUserFailed => String::from_str("Failed to create user."),
            ApiError::SessionUnavailable => String::from_str("Failed to get session in user creation."),
            ApiError::EncodeFileFailed => String::from_str("Failed to find & encode file."),
            ApiError::InsertUserFailed => String::from_str("Failed to insert user."),
            ApiError::Upstream(message) => message.clone(),
        }
    }

    /// The `details` extension of this error, where it has one.
    pub fn details(&self) -> (text: Option<String>)
        ensures
            text matches Some(t) ==> self.spec_details() == Some(t@),
            text is None ==> self.spec_details() is None,
    {
        match self {
            ApiError::NoArticles => Some(String::from_str("No documents")),
            ApiError::ArticleNotADocument => Some(String::from_str("Error inserting article!")),
            _ => None,
        }
    }
}

} // verus!
