use vstd::prelude::*;

use super::object_id::{optional_id_view, ObjectId};
use super::time::Timestamp;

verus! {

/// A user as it is stored.
#[derive(Debug, Clone, PartialEq, Eq)]
pub struct User {
    pub id: Option<ObjectId>,
    pub full_name: String,
    pub email: String,
    pub password: String,
    pub role: i16,
    pub created_by: Option<ObjectId>,
    pub updated_by: Option<ObjectId>,
    pub deleted: bool,
    pub created_at: Option<Timestamp>,
    pub updated_at: Option<Timestamp>,
}

pub struct UserView {
    pub id: Option<Seq<u8>>,
    pub full_name: Seq<char>,
    pub email: Seq<char>,
    pub password: Seq<char>,
    pub role: i16,
    pub created_by: Option<Seq<u8>>,
    pub updated_by: Option<Seq<u8>>,
    pub deleted: bool,
    pub created_at: Option<Timestamp>,
    pub updated_at: Option<Timestamp>,
}

impl View for User {
    type V = UserView;

    open spec fn view(&self) -> UserView {
        UserView {
            id: optional_id_view(self.id),
            full_name: self.full_name@,
            email: self.email@,
            password: self.password@,
            role: self.role,
            created_by: optional_id_view(self.created_by),
            updated_by: optional_id_view(self.updated_by),
            deleted: self.deleted,
            created_at: self.created_at,
            updated_at: self.updated_at,
        }
    }
}

} // verus!
