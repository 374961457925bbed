//! Club members.
use vstd::prelude::*;
use crate::dates::{Date, DateTime};
use crate::gender::{Gender, gender_of_id};
use crate::interest::Interest;
use crate::text::push_char;

verus! {

/// A member of the club.
///
/// The country is kept both as the id the database stores and as the name
/// it is shown with.
#[derive(Debug, Clone)]
pub struct Member {
    pub id: Option<i32>,
    pub name: String,
    pub surname: String,
    pub second_surname: String,
    pub email: String,
    pub birthdate: Option<Date>,
    pub phone: String,
    pub country_id: i32,
    /// The name of the member's country.
    pub country: String,
    pub gender: Gender,
    pub notes: String,
    pub created_at: Option<DateTime>,
    pub updated_at: Option<DateTime>,
}

/// A member together with the interests the member has.
#[derive(Debug, Clone)]
pub struct MemberWithInterests {
    pub member: Member,
    pub interests: Vec<Interest>,
}

/// The columns of a member row as the database returns them.
#[derive(Debug, Clone)]
pub struct MemberRow {
    pub id: Option<i32>,
    pub name: String,
    pub surname: String,
    pub second_surname: String,
    pub email: String,
    pub birthdate: Option<Date>,
    pub phone: String,
    pub country_id: i32,
    /// The name of the country the id stands for.
    pub country: String,
    pub gender_id: i32,
    pub notes: String,
    pub created_at: Option<DateTime>,
    pub updated_at: Option<DateTime>,
}

/// `name surname second_surname`, separated by single spaces.
pub open spec fn full_name_of(name: Seq<char>, surname: Seq<char>, second: Seq<char>) -> Seq<char> {
    name + seq![' '] + surname + seq![' '] + second
}

/// The gender a stored id is read as: unknown ids read as the default (male).
pub open spec fn gender_read_from(id: int) -> Gender {
    match gender_of_id(id) {
        Some(g) => g,
        None => Gender::Male,
    }
}

/// What the member comparison (`==`) decides: the left member has an id,
/// and it equals the right member's id, where a missing id counts as 0.
pub open spec fn same_member_ids(a: Option<i32>, b: Option<i32>) -> bool {
    match a {
        Some(x) => x == match b {
            Some(y) => y,
            None => 0i32,
        },
        None => false,
    }
}

impl Member {
    /// Whether the member may be saved: name and first surname are present.
    pub open spec fn valid(&self) -> bool {
        self.name@.len() > 0 && self.surname@.len() > 0
    }

    /// The member's full name.
    pub open spec fn full_name(&self) -> Seq<char> {
        full_name_of(self.name@, self.surname@, self.second_surname@)
    }

    /// Returns true if the entity is valid (ready for submission to the db).
    pub fn is_valid(&self) -> (r: bool)
        ensures
            r == self.valid(),
    {
        if self.name.as_str().is_empty() || self.surname.as_str().is_empty() {
            return false;
        }
        true
    }

    /// The full name: name, first and second surname, separated by spaces.
    pub fn get_full_name(&self) -> (r: String)
        ensures
            r@ == self.full_name(),
    {
        let mut s = self.name.clone();
        push_char(&mut s, ' ');
        s.append(self.surname.as_str());
        push_char(&mut s, ' ');
        s.append(self.second_surname.as_str());
        s
    }

    /// The text a member is displayed as: the name.
    pub fn display_text(&self) -> (r: String)
        ensures
            r@ == self.name@,
    {
        self.name.clone()
    }

    /// The member a database row describes. An unknown gender id reads as
    /// the default gender.
    pub fn from_row(row: MemberRow) -> (r: Member)
        ensures
            r.id == row.id,
            r.name == row.name,
            r.surname == row.surname,
            r.second_surname == row.second_surname,
            r.email == row.email,
            r.birthdate == row.birthdate,
            r.phone == row.phone,
            r.country_id == row.country_id,
            r.country == row.country,
            r.gender == gender_read_from(row.gender_id as int),
            r.notes == row.notes,
            r.created_at == row.created_at,
            r.updated_at == row.updated_at,
    {
        let gender = match Gender::from_id(row.gender_id) {
            Some(g) => g,
            None => Gender::Male,
        };
        Member {
            id: row.id,
            name: row.name,
            surname: row.surname,
            second_surname: row.second_surname,
            email: row.email,
            birthdate: row.birthdate,
            phone: row.phone,
            country_id: row.country_id,
            country: row.country,
            gender,
            notes: row.notes,
            created_at: row.created_at,
            updated_at: row.updated_at,
        }
    }

    /// A copy of the member with every field equal.
    pub fn copy_of(&self) -> (r: Member)
        ensures
            r == *self,
    {
        Member {
            id: self.id,
            name: self.name.clone(),
            surname: self.surname.clone(),
            second_surname: self.second_surname.clone(),
            email: self.email.clone(),
            birthdate: self.birthdate,
            phone: self.phone.clone(),
            country_id: self.country_id,
            country: self.country.clone(),
            gender: self.gender,
            notes: self.notes.clone(),
            created_at: self.created_at,
            updated_at: self.updated_at,
        }
    }
}

impl PartialEq for Member {
    fn eq(&self, other: &Self) -> (r: bool) {
        match self.id {
            Some(x) => x == match other.id {
                Some(y) => y,
                None => 0,
            },
            None => false,
        }
    }
}

impl vstd::std_specs::cmp::PartialEqSpecImpl for Member {
    open spec fn obeys_eq_spec() -> bool {
        true
    }

    open spec fn eq_spec(&self, other: &Member) -> bool {
        same_member_ids(self.id, other.id)
    }
}

impl Default for Member {
    fn default() -> (r: Member)
        ensures
            r.id is None,
            r.name@ == Seq::<char>::empty(),
            r.surname@ == Seq::<char>::empty(),
            r.second_surname@ == Seq::<char>::empty(),
            r.email@ == Seq::<char>::empty(),
            r.birthdate is None,
            r.phone@ == Seq::<char>::empty(),
            r.country_id == 0,
            r.country@ == Seq::<char>::empty(),
            r.gender == Gender::Male,
            r.notes@ == Seq::<char>::empty(),
            r.created_at is None,
            r.updated_at is None,
    {
        Member {
            id: None,
            name: String::new(),
            surname: String::new(),
            second_surname: String::new(),
            email: String::new(),
            birthdate: None,
            phone: String::new(),
            country_id: 0,
            country: String::new(),
            gender: Gender::Male,
            notes: String::new(),
            created_at: None,
            updated_at: None,
        }
    }
}

} // verus!
