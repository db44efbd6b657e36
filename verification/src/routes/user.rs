use vstd::prelude::*;

use crate::errors::AppError;
use crate::validation::{
    char_count, field_error, length_rule, length_rule_error, length_within, validation_outcome,
    ValidationReport,
};

verus! {

/// A user as the API shows it.
pub struct UserResponse {
    pub id: String,
    pub email: String,
    pub created_at: String,
}

/// An item of a user's data.
pub struct UserData {
    pub id: String,
    pub user_id: String,
    pub title: String,
    pub content: String,
    pub created_at: String,
    pub updated_at: String,
}

/// Decides on the row found for the authenticated user: none is "not found".
pub fn user_found(found: Option<UserResponse>) -> (r: Result<UserResponse, AppError>)
    ensures
        found is None ==> (r matches Err(AppError::NotFound(m)) && m@ == "User not found"@),
        found matches Some(u) ==> r == Ok::<UserResponse, AppError>(u),
{
    match found {
        Some(u) => Ok(u),
        None => Err(AppError::NotFound("User not found".to_owned())),
    }
}

/// The body of a request that creates a data item.
pub struct CreateUserDataRequest {
    pub title: String,
    pub content: String,
}

/// The rules that a data item breaks, in field order: the title must have 1
/// to 255 characters, the content at most 65536.
pub open spec fn create_data_failures(title: Seq<char>, content: Seq<char>) -> Seq<Seq<char>> {
    (if length_within(title, 1, 255) {
        Seq::empty()
    } else {
        seq![field_error("title"@, length_rule_error(Some(1), Some(255), None, title))]
    }) + (if content.len() <= 65536 {
        Seq::empty()
    } else {
        seq![field_error("content"@, length_rule_error(None, Some(65536), None, content))]
    })
}

impl CreateUserDataRequest {
    /// Checks the request against its field rules.
    pub fn validate(&self) -> (r: Result<(), AppError>)
        ensures
            validation_outcome(create_data_failures(self.title@, self.content@), r),
    {
        let mut report = ValidationReport::new();
        let t = char_count(self.title.as_str());
        if t < 1 || t > 255 {
            let rule = length_rule(Some(1), Some(255), None, self.title.as_str());
            report.fail("title", rule.as_str());
        }
        let c = char_count(self.content.as_str());
        if c > 65536 {
            let rule = length_rule(None, Some(65536), None, self.content.as_str());
            report.fail("content", rule.as_str());
        }
        assert(report.failures() =~= create_data_failures(self.title@, self.content@));
        report.finish()
    }
}

} // verus!
