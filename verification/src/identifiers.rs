//! Identifier newtypes. User and article ids wrap a 128-bit UUID value;
//! comment ids wrap a database integer.

use vstd::prelude::*;

verus! {

#[derive(Debug, Clone, Copy, PartialEq, Eq, Hash, Structural)]
pub struct UserId(pub u128);

impl UserId {
    pub fn new(id: u128) -> (r: Self)
        ensures
            r.0 == id,
    {
        UserId(id)
    }

    /// Relies on `uuid::Uuid::new_v4`: a freshly drawn random id. Nothing is
    /// assumed of the value.
    #[verifier::external_body]
    pub fn random() -> (r: Self) {
        UserId(uuid::Uuid::new_v4().as_u128())
    }

    pub fn as_u128(&self) -> (r: u128)
        ensures
            r == self.0,
    {
        self.0
    }
}

impl From<u128> for UserId {
    fn from(value: u128) -> (r: Self) {
        UserId(value)
    }
}

impl vstd::std_specs::convert::FromSpecImpl<u128> for UserId {
    open spec fn obeys_from_spec() -> bool {
        true
    }

    open spec fn from_spec(value: u128) -> Self {
        UserId(value)
    }
}

#[derive(Debug, Clone, Copy, PartialEq, Eq, Hash, Structural)]
pub struct ArticleId(pub u128);

impl ArticleId {
    pub fn new(id: u128) -> (r: Self)
        ensures
            r.0 == id,
    {
        ArticleId(id)
    }

    /// Relies on `uuid::Uuid::new_v4`: a freshly drawn random id. Nothing is
    /// assumed of the value.
    #[verifier::external_body]
    pub fn random() -> (r: Self) {
        ArticleId(uuid::Uuid::new_v4().as_u128())
    }

    pub fn as_u128(&self) -> (r: u128)
        ensures
            r == self.0,
    {
        self.0
    }
}

impl From<u128> for ArticleId {
    fn from(value: u128) -> (r: Self) {
        ArticleId(value)
    }
}

impl vstd::std_specs::convert::FromSpecImpl<u128> for ArticleId {
    open spec fn obeys_from_spec() -> bool {
        true
    }

    open spec fn from_spec(value: u128) -> Self {
        ArticleId(value)
    }
}

#[derive(Debug, Clone, Copy, PartialEq, Eq, Hash, Structural)]
pub struct CommentId(pub i64);

impl CommentId {
    pub fn new(id: i64) -> (r: Self)
        ensures
            r.0 == id,
    {
        CommentId(id)
    }

    pub fn as_i64(&self) -> (r: i64)
        ensures
            r == self.0,
    {
        self.0
    }
}

impl From<i64> for CommentId {
    fn from(value: i64) -> (r: Self) {
        CommentId(value)
    }
}

impl vstd::std_specs::convert::FromSpecImpl<i64> for CommentId {
    open spec fn obeys_from_spec() -> bool {
        true
    }

    open spec fn from_spec(value: i64) -> Self {
        CommentId(value)
    }
}

impl From<CommentId> for i64 {
    fn from(value: CommentId) -> (r: i64) {
        value.0
    }
}

impl vstd::std_specs::convert::FromSpecImpl<CommentId> for i64 {
    open spec fn obeys_from_spec() -> bool {
        true
    }

    open spec fn from_spec(value: CommentId) -> i64 {
        value.0
    }
}

} // verus!
