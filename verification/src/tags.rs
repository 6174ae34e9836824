//! Tags: non-blank labels, held in lists without duplicates.

use vstd::prelude::*;

use crate::errors::{DomainError, DomainResult};
use crate::text::{trim_str, trimmed};

verus! {

/// A tag: its text, trimmed, is never empty.
#[derive(Debug, PartialEq, Eq, Hash)]
pub struct Tag(String);

impl View for Tag {
    type V = Seq<char>;

    closed spec fn view(&self) -> Seq<char> {
        self.0@
    }
}

impl Clone for Tag {
    fn clone(&self) -> (r: Self)
        ensures
            r@ == self@,
    {
        Tag(self.0.clone())
    }
}

impl Tag {
    /// Trim the value and reject it when nothing is left.
    pub fn new(value: String) -> (r: DomainResult<Tag>)
        ensures
            match r {
                Ok(t) => t@ == trimmed(value@) && trimmed(value@).len() > 0,
                Err(e) => e == DomainError::InvalidTag && trimmed(value@).len() == 0,
            },
    {
        let t = trim_str(value.as_str());
        if t.as_str().is_empty() {
            Err(DomainError::InvalidTag)
        } else {
            Ok(Tag(t))
        }
    }

    pub fn as_str(&self) -> (r: &str)
        ensures
            r@ == self@,
    {
        self.0.as_str()
    }
}

impl From<Tag> for String {
    fn from(value: Tag) -> (r: String) {
        value.0
    }
}

impl vstd::std_specs::convert::FromSpecImpl<Tag> for String {
    open spec fn obeys_from_spec() -> bool {
        true
    }

    closed spec fn from_spec(value: Tag) -> String {
        value.0
    }
}

/// What a list of raw values becomes: each value trimmed, duplicates
/// dropped, the first occurrence kept.
pub open spec fn dedup_trimmed(values: Seq<Seq<char>>) -> Seq<Seq<char>>
    decreases values.len(),
{
    if values.len() == 0 {
        Seq::empty()
    } else {
        let p = dedup_trimmed(values.drop_last());
        let t = trimmed(values.last());
        if p.contains(t) {
            p
        } else {
            p.push(t)
        }
    }
}

/// A list of tags without duplicates.
#[derive(Debug, PartialEq, Eq)]
pub struct TagList {
    tags: Vec<Tag>,
}

impl View for TagList {
    type V = Seq<Seq<char>>;

    closed spec fn view(&self) -> Seq<Seq<char>> {
        self.tags@.map_values(|t: Tag| t@)
    }
}

impl Clone for TagList {
    fn clone(&self) -> (r: Self)
        ensures
            r@ == self@,
    {
        let mut tags: Vec<Tag> = Vec::new();
        let mut i: usize = 0;
        while i < self.tags.len()
            invariant
                0 <= i <= self.tags@.len(),
                tags@.len() == i,
                forall|j: int| 0 <= j < i ==> (#[trigger] tags@[j])@ == self.tags@[j]@,
            decreases self.tags@.len() - i,
        {
            tags.push(self.tags[i].clone());
            i = i + 1;
        }
        let r = TagList { tags };
        proof {
            assert(r@ =~= self@);
        }
        r
    }
}

impl Default for TagList {
    fn default() -> (r: Self)
        ensures
            r@ == Seq::<Seq<char>>::empty(),
    {
        let r = TagList { tags: Vec::new() };
        proof {
            assert(r@ =~= Seq::<Seq<char>>::empty());
        }
        r
    }
}

impl TagList {
    /// Validate every value and keep the first occurrence of each distinct
    /// trimmed tag; a single blank value rejects the whole list.
    pub fn new(values: Vec<String>) -> (r: DomainResult<TagList>)
        ensures
            match r {
                Ok(tl) => tl@ == dedup_trimmed(values.deep_view()) && (forall|i: int|
                    0 <= i < values@.len() ==> trimmed(#[trigger] values@[i]@).len() > 0),
                Err(e) => e == DomainError::InvalidTag && (exists|i: int|
                    0 <= i < values@.len() && trimmed(#[trigger] values@[i]@).len() == 0),
            },
    {
        let mut tags: Vec<Tag> = Vec::new();
        let mut i: usize = 0;
        proof {
            assert(values.deep_view().take(0) =~= Seq::<Seq<char>>::empty());
        }
        while i < values.len()
            invariant
                0 <= i <= values@.len(),
                values.deep_view().len() == values@.len(),
                forall|j: int| 0 <= j < values@.len() ==> values.deep_view()[j] == values@[j]@,
                forall|j: int| 0 <= j < i ==> trimmed(#[trigger] values@[j]@).len() > 0,
                tags@.map_values(|t: Tag| t@) == dedup_trimmed(values.deep_view().take(i as int)),
            decreases values@.len() - i,
        {
            let value = values[i].clone();
            let tag = match Tag::new(value) {
                Ok(tag) => tag,
                Err(e) => {
                    return Err(e);
                },
            };
            let ghost prev = tags@.map_values(|t: Tag| t@);
            let mut seen: bool = false;
            let mut j: usize = 0;
            while j < tags.len()
                invariant
                    0 <= j <= tags@.len(),
                    seen ==> prev.contains(tag@),
                    !seen ==> forall|k: int| 0 <= k < j ==> (#[trigger] tags@[k])@ != tag@,
                    prev == tags@.map_values(|t: Tag| t@),
                decreases tags@.len() - j,
            {
                if tags[j].as_str().eq(tag.as_str()) {
                    proof {
                        assert(prev[j as int] == tag@);
                    }
                    seen = true;
                    j = tags.len();
                } else {
                    j = j + 1;
                }
            }
            proof {
                assert(values.deep_view().take(i + 1).drop_last() =~= values.deep_view().take(
                    i as int,
                ));
                assert(values.deep_view().take(i + 1).last() == values@[i as int]@);
                if !seen {
                    assert(!prev.contains(tag@)) by {
                        if prev.contains(tag@) {
                            let w = choose|w: int|
                                0 <= w < prev.len() && prev[w] == tag@;
                            assert(tags@[w]@ == tag@);
                        }
                    }
                }
            }
            if !seen {
                tags.push(tag);
                proof {
                    assert(tags@.map_values(|t: Tag| t@) =~= prev.push(tag@));
                }
            }
            i = i + 1;
        }
        proof {
            assert(values.deep_view().take(values@.len() as int) =~= values.deep_view());
        }
        Ok(TagList { tags })
    }

    pub fn as_slice(&self) -> (r: &[Tag])
        ensures
            r@.len() == self@.len(),
            forall|i: int| 0 <= i < r@.len() ==> (#[trigger] r@[i])@ == self@[i],
    {
        proof {
            assert(forall|i: int|
                0 <= i < self.tags@.len() ==> (#[trigger] self.tags@[i])@ == self@[i]);
        }
        self.tags.as_slice()
    }

    /// Whether some tag in the list has the same text.
    pub fn contains(&self, tag: &Tag) -> (r: bool)
        ensures
            r == self@.contains(tag@),
    {
        let mut j: usize = 0;
        while j < self.tags.len()
            invariant
                0 <= j <= self.tags@.len(),
                forall|k: int| 0 <= k < j ==> (#[trigger] self.tags@[k])@ != tag@,
                self@ == self.tags@.map_values(|t: Tag| t@),
            decreases self.tags@.len() - j,
        {
            if self.tags[j].as_str().eq(tag.as_str()) {
                proof {
                    assert(self@[j as int] == tag@);
                }
                return true;
            }
            j = j + 1;
        }
        proof {
            if self@.contains(tag@) {
                let w = choose|w: int| 0 <= w < self@.len() && self@[w] == tag@;
                assert(self.tags@[w]@ == tag@);
            }
        }
        false
    }

    /// Add the tag unless one with the same text is already present.
    pub fn push(&mut self, tag: Tag)
        ensures
            old(self)@.contains(tag@) ==> final(self)@ == old(self)@,
            !old(self)@.contains(tag@) ==> final(self)@ == old(self)@.push(tag@),
    {
        let present = self.contains(&tag);
        if !present {
            let ghost prev = self.tags@.map_values(|t: Tag| t@);
            self.tags.push(tag);
            proof {
                assert(self.tags@.map_values(|t: Tag| t@) =~= prev.push(self.tags@.last()@));
            }
        }
    }
}

} // verus!
