//! The row that a profile is stored as.

use vstd::prelude::*;
use vstd::string::*;
use crate::model::{StoreError, UserProfile};

verus! {

/// The insert that stores one row, with a parameter for each field of
/// `PersonRow`, in the order of the fields.
pub const INSERT_PERSON: &'static str =
    "INSERT INTO person (id, email, created_at, updated_at, first_name, last_name, major, shirt_size, dietary_restrictions, special_needs, date_of_birth, gender, phone_number, school_id, school_name, year, signup_time) VALUES ($1, $2, $3, $4, $5, $6, $7, $8, $9, $10, $11, $12, $13, $14, $15, $16, $17)";

/// One row of the `person` table, its values in the order of the insert.
#[derive(Clone, Debug, PartialEq, Eq)]
pub struct PersonRow {
    pub id: i32,
    pub email: String,
    pub created_at: String,
    pub updated_at: String,
    pub first_name: String,
    pub last_name: String,
    pub major: String,
    pub shirt_size: String,
    pub dietary_restrictions: String,
    pub special_needs: Option<String>,
    pub date_of_birth: String,
    pub gender: String,
    pub phone_number: String,
    pub school_id: i32,
    pub school_name: String,
    /// The enrollment cycle; with `id` it is the key of the row.
    pub year: i32,
    pub signup_time: String,
}

/// The row for a profile: every field of the profile as it is, the school
/// flattened into two columns, then the cycle and the time of the sign-up.
pub open spec fn spec_person_row(profile: UserProfile, cycle: i32, signup_time: String) -> PersonRow {
    PersonRow {
        id: profile.id,
        email: profile.email,
        created_at: profile.created_at,
        updated_at: profile.updated_at,
        first_name: profile.first_name,
        last_name: profile.last_name,
        major: profile.major,
        shirt_size: profile.shirt_size,
        dietary_restrictions: profile.dietary_restrictions,
        special_needs: profile.special_needs,
        date_of_birth: profile.date_of_birth,
        gender: profile.gender,
        phone_number: profile.phone_number,
        school_id: profile.school.id,
        school_name: profile.school.name,
        year: cycle,
        signup_time,
    }
}

/// Builds the row under which `profile` is stored for `cycle`.
pub fn person_row(profile: &UserProfile, cycle: i32, signup_time: String) -> (row: PersonRow)
    ensures
        row == spec_person_row(*profile, cycle, signup_time),
{
    let special_needs = match &profile.special_needs {
        Some(text) => Some(text.clone()),
        None => None,
    };
    PersonRow {
        id: profile.id,
        email: profile.email.clone(),
        created_at: profile.created_at.clone(),
        updated_at: profile.updated_at.clone(),
        first_name: profile.first_name.clone(),
        last_name: profile.last_name.clone(),
        major: profile.major.clone(),
        shirt_size: profile.shirt_size.clone(),
        dietary_restrictions: profile.dietary_restrictions.clone(),
        special_needs,
        date_of_birth: profile.date_of_birth.clone(),
        gender: profile.gender.clone(),
        phone_number: profile.phone_number.clone(),
        school_id: profile.school.id,
        school_name: profile.school.name.clone(),
        year: cycle,
        signup_time,
    }
}

/// What a failed insert is reported as, given the SQLSTATE that the
/// database sent with the error, if it sent one: `23505`, the violation of
/// a unique constraint, is a conflict; everything else is not.
pub open spec fn spec_store_failure(sqlstate: Option<Seq<char>>) -> StoreError {
    if sqlstate == Some("23505"@) {
        StoreError::Conflict
    } else {
        StoreError::Other
    }
}

/// Sorts a failed insert by the SQLSTATE of its error. `None` stands for an
/// error that the database did not send: a lost connection, a value that
/// could not be converted.
pub fn store_failure(sqlstate: Option<&str>) -> (error: StoreError)
    ensures
        error == spec_store_failure(
            match sqlstate {
                Some(code) => Some(code@),
                None => None,
            },
        ),
{
    match sqlstate {
        Some(code) => {
            let sent = String::from_str(code);
            let unique_violation = String::from_str("23505");
            if sent == unique_violation {
                StoreError::Conflict
            } else {
                StoreError::Other
            }
        },
        None => StoreError::Other,
    }
}

} // verus!
