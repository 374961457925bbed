use vstd::prelude::*;

verus! {

/// The gender recorded for a member. The database stores it as an integer id.
#[derive(Debug, Clone, Copy, PartialEq, Eq, Structural)]
pub enum Gender {
    Male,
    Female,
    Other,
}

/// The database id of each gender.
pub open spec fn gender_id(g: Gender) -> int {
    match g {
        Gender::Male => 1,
        Gender::Female => 2,
        Gender::Other => 3,
    }
}

/// The gender stored under a database id, if any.
pub open spec fn gender_of_id(id: int) -> Option<Gender> {
    if id == 1 {
        Some(Gender::Male)
    } else if id == 2 {
        Some(Gender::Female)
    } else if id == 3 {
        Some(Gender::Other)
    } else {
        None
    }
}

impl Gender {
    /// Every gender, in the order the forms list them.
    pub fn all() -> (r: Vec<Gender>)
        ensures
            r@ == seq![Gender::Male, Gender::Female, Gender::Other],
    {
        vec![Gender::Male, Gender::Female, Gender::Other]
    }

    pub fn to_id(self) -> (r: i32)
        ensures
            r == gender_id(self),
    {
        match self {
            Gender::Male => 1,
            Gender::Female => 2,
            Gender::Other => 3,
        }
    }

    pub fn from_id(id: i32) -> (r: Option<Gender>)
        ensures
            r == gender_of_id(id as int),
    {
        match id {
            1 => Some(Gender::Male),
            2 => Some(Gender::Female),
            3 => Some(Gender::Other),
            _ => None,
        }
    }
}

/// The name a gender is shown with.
pub open spec fn gender_label(g: Gender) -> Seq<char> {
    match g {
        Gender::Male => "Hombre"@,
        Gender::Female => "Mujer"@,
        Gender::Other => "Otros"@,
    }
}

impl Gender {
    /// The name shown for the gender (its `Display` text).
    pub fn label(self) -> (r: &'static str)
        ensures
            r@ == gender_label(self),
    {
        match self {
            Gender::Male => "Hombre",
            Gender::Female => "Mujer",
            Gender::Other => "Otros",
        }
    }
}

impl Default for Gender {
    fn default() -> (r: Gender)
        ensures
            r == Gender::Male,
    {
        Gender::Male
    }
}

/// Every gender has its own id, and the id reads back as the same gender.
pub proof fn lemma_gender_id_roundtrip(g: Gender)
    ensures
        gender_of_id(gender_id(g)) == Some(g),
        1 <= gender_id(g) <= 3,
{
}

/// An id that reads as a gender is that gender's id; no other id reads as one.
pub proof fn lemma_gender_of_id_inverse(id: int)
    ensures
        gender_of_id(id) matches Some(g) ==> gender_id(g) == id,
        gender_of_id(id) is Some <==> 1 <= id <= 3,
{
}

/// Two genders with the same id are the same gender.
pub proof fn lemma_gender_id_injective(a: Gender, b: Gender)
    ensures
        gender_id(a) == gender_id(b) ==> a == b,
{
}

} // verus!
