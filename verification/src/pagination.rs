//! Pagination bounds for list endpoints.

use vstd::prelude::*;

use crate::errors::{DomainError, DomainResult};

verus! {

pub const DEFAULT_LIMIT: u32 = 20;

pub const MAX_LIMIT: u32 = 50;

#[derive(Debug, Clone, Copy, PartialEq, Eq, Structural)]
pub struct Pagination {
    pub limit: u32,
    pub offset: u32,
}

impl Pagination {
    /// Apply defaults, then insist the limit lies in `1..=MAX_LIMIT` and the
    /// offset fits a signed 32-bit count.
    pub fn new(limit: Option<u32>, offset: Option<u32>) -> (r: DomainResult<Pagination>)
        ensures
            ({
                let l = match limit {
                    Some(v) => v,
                    None => DEFAULT_LIMIT,
                };
                let o = match offset {
                    Some(v) => v,
                    None => 0u32,
                };
                match r {
                    Ok(p) => p.limit == l && p.offset == o && 1 <= l <= MAX_LIMIT && o
                        <= 0x7fffffffu32,
                    Err(e) => (e == DomainError::LimitOutOfRange && !(1 <= l <= MAX_LIMIT)) || (e
                        == DomainError::NegativeOffset && 1 <= l <= MAX_LIMIT && o
                        > 0x7fffffffu32),
                }
            }),
    {
        let l: u32 = match limit {
            Some(v) => v,
            None => DEFAULT_LIMIT,
        };
        let o: u32 = match offset {
            Some(v) => v,
            None => 0,
        };
        if l < 1 || l > MAX_LIMIT {
            return Err(DomainError::LimitOutOfRange);
        }
        if o > 0x7fffffff {
            return Err(DomainError::NegativeOffset);
        }
        Ok(Pagination { limit: l, offset: o })
    }

    pub fn limit(&self) -> (r: u32)
        ensures
            r == self.limit,
    {
        self.limit
    }

    pub fn offset(&self) -> (r: u32)
        ensures
            r == self.offset,
    {
        self.offset
    }
}

impl Default for Pagination {
    fn default() -> (r: Self)
        ensures
            r.limit == DEFAULT_LIMIT,
            r.offset == 0,
    {
        Pagination { limit: DEFAULT_LIMIT, offset: 0 }
    }
}

} // verus!
