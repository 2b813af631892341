use vstd::prelude::*;

use crate::text::{lowercase, str_eq};

verus! {

/// A user of a platform, as far as the connector knows it.
#[derive(Clone, Debug, PartialEq, Default)]
pub struct User {
    pub id: String,
    pub profile: Option<UserProfile>,
    pub group_info: Option<UserGroupInfo>,
}

/// The role a user holds in a group.
#[derive(Clone, Copy, Debug, PartialEq, Eq, Structural)]
pub enum Role {
    Owner,
    Admin,
    Member,
    Guest,
    Unknown,
}

impl Default for Role {
    fn default() -> (r: Role)
        ensures
            r == Role::Unknown,
    {
        Role::Unknown
    }
}

/// What a group knows of one of its members. Times are milliseconds since
/// the Unix epoch (UTC).
#[derive(Clone, Debug, PartialEq)]
pub struct UserGroupInfo {
    pub title: Option<String>,
    pub role: Option<Role>,
    pub join_time: Option<i64>,
    pub last_active_time: Option<i64>,
    pub level: Option<String>,
}

#[derive(Clone, Copy, Debug, PartialEq, Eq, Structural)]
pub enum Sex {
    Male,
    Female,
    Other,
    Unknown,
}

/// The sex that a profile field names: the exact Chinese word, or the
/// English word in any case (`lowered` is the field in lower case).
pub open spec fn sex_of(text: Seq<char>, lowered: Seq<char>) -> Sex {
    if text == "男"@ || lowered == "male"@ {
        Sex::Male
    } else if text == "女"@ || lowered == "female"@ {
        Sex::Female
    } else {
        Sex::Unknown
    }
}

impl Sex {
    /// Reads a profile field, given the field and its lower-case form.
    pub fn classify(text: &str, lowered: &str) -> (r: Sex)
        ensures
            r == sex_of(text@, lowered@),
    {
        if str_eq(text, "男") || str_eq(lowered, "male") {
            Sex::Male
        } else if str_eq(text, "女") || str_eq(lowered, "female") {
            Sex::Female
        } else {
            Sex::Unknown
        }
    }
}

impl<'a> From<&'a str> for Sex {
    fn from(value: &'a str) -> (r: Sex)
        ensures
            r == sex_of(value@, crate::text::lower_of(value@)),
    {
        let lowered = lowercase(value);
        Sex::classify(value, lowered.as_str())
    }
}

impl<'a> vstd::std_specs::convert::FromSpecImpl<&'a str> for Sex {
    open spec fn obeys_from_spec() -> bool {
        true
    }

    open spec fn from_spec(v: &'a str) -> Sex {
        sex_of(v@, crate::text::lower_of(v@))
    }
}

impl Default for Sex {
    fn default() -> (r: Sex)
        ensures
            r == Sex::Unknown,
    {
        Sex::Unknown
    }
}

/// A user's public profile. The avatar is the text of its URI.
#[derive(Clone, Debug, PartialEq, Default)]
pub struct UserProfile {
    pub nickname: Option<String>,
    pub sex: Option<Sex>,
    pub age: Option<u8>,
    pub avatar: Option<String>,
    pub email: Option<String>,
    pub phone: Option<String>,
    pub signature: Option<String>,
    pub level: Option<String>,
}

} // verus!
