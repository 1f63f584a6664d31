//! User lookup records and the user field selection.

use std::collections::HashMap;

use vstd::prelude::*;

use crate::fields::{fields_csv, WireField};
use crate::wire::spec_csv;

verus! {

/// A looked-up user.
#[derive(Clone, Debug)]
pub struct User {
    pub id: String,
    pub username: String,
    /// Number of play-time votes the user has submitted.
    pub lengthvotes: Option<u32>,
    /// Sum of the user's play-time votes, in minutes.
    pub lengthvotes_sum: Option<u32>,
}

/// The results of a user search, keyed by the looked-up identifier; an
/// unknown identifier maps to nothing.
#[derive(Debug)]
pub struct UserSearch(pub HashMap<String, Option<User>>);

/// A selectable data field of a user record, beyond the always-included
/// identifier and name.
#[derive(Clone, Copy, PartialEq, Eq, Structural, Debug)]
pub enum UserDataField {
    /// The number of play-time votes the user has submitted.
    Lengthvotes,
    /// The sum of the user's play-time votes, in minutes.
    LengthvotesSum,
}

impl WireField for UserDataField {
    open spec fn spec_wire(self) -> Seq<char> {
        match self {
            UserDataField::Lengthvotes => "lengthvotes"@,
            UserDataField::LengthvotesSum => "lengthvotes_sum"@,
        }
    }

    fn wire_name(self) -> (r: &'static str) {
        match self {
            UserDataField::Lengthvotes => "lengthvotes",
            UserDataField::LengthvotesSum => "lengthvotes_sum",
        }
    }
}

/// An ordered, duplicate-tolerant selection of user data fields.
pub struct UserSearchFields(pub Vec<UserDataField>);

impl UserSearchFields {
    /// Every selectable field, in declaration order.
    pub open spec fn spec_all() -> Seq<UserDataField> {
        seq![UserDataField::Lengthvotes, UserDataField::LengthvotesSum]
    }

    /// Selects the identifier and username only.
    pub fn new() -> (r: Self)
        ensures
            r.0@ == Seq::<UserDataField>::empty(),
    {
        UserSearchFields(Vec::new())
    }

    /// A caller-chosen selection, in addition to identifier and username.
    pub fn from(vec: Vec<UserDataField>) -> (r: Self)
        ensures
            r.0@ == vec@,
    {
        UserSearchFields(vec)
    }

    /// Every known data field, in declaration order.
    pub fn all() -> (r: Self)
        ensures
            r.0@ == Self::spec_all(),
    {
        let mut v: Vec<UserDataField> = Vec::new();
        v.push(UserDataField::Lengthvotes);
        v.push(UserDataField::LengthvotesSum);
        proof {
            assert(v@ =~= Self::spec_all());
        }
        UserSearchFields(v)
    }

    /// The selection rendered as the wire `fields` parameter.
    pub fn to_csv(&self) -> (r: String)
        ensures
            r@ == spec_csv(self.0@.map_values(|f: UserDataField| f.spec_wire())),
    {
        fields_csv(&self.0)
    }
}

} // verus!
