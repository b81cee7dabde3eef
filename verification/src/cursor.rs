//! The two iteration protocols: a forward cursor over an array's elements
//! and a key-then-value cursor over an object's entries.
//!
//! Both cursors snapshot their length at creation, advance monotonically,
//! are never restartable, and hand out borrowed views into the same value
//! tree they were created over.

use vstd::prelude::*;

use crate::error::DecodeError;
use crate::value::Dyn;

verus! {

/// A stateful forward cursor over an array-shaped dynamic value.
pub struct ArrayAccess<'a> {
    pub items: &'a Vec<Dyn>,
    pub idx: usize,
}

impl<'a> ArrayAccess<'a> {
    /// The elements this cursor walks.
    pub open spec fn items_seq(&self) -> Seq<Dyn> {
        self.items@
    }

    /// How many elements have been handed out so far.
    pub open spec fn position(&self) -> int {
        self.idx as int
    }

    /// The elements not yet handed out.
    pub open spec fn remaining(&self) -> Seq<Dyn> {
        self.items@.skip(self.idx as int)
    }

    /// The cursor's position never passes its snapshotted length.
    pub open spec fn wf(&self) -> bool {
        self.idx <= self.items@.len()
    }

    /// A fresh cursor over the given elements, positioned at the start.
    pub fn new(items: &'a Vec<Dyn>) -> (r: Self)
        ensures
            r.items_seq() == items@,
            r.position() == 0,
            r.wf(),
    {
        ArrayAccess { items, idx: 0 }
    }

    /// Hands out the element at the current position and advances, or
    /// reports exhaustion — for good, and without an error — once every
    /// element has been handed out.
    pub fn next(&mut self) -> (r: Option<&'a Dyn>)
        ensures
            final(self).items_seq() == old(self).items_seq(),
            old(self).wf() ==> final(self).wf(),
            old(self).position() < old(self).items_seq().len() ==> (r matches Option::Some(e)
                && *e == old(self).items_seq()[old(self).position()] && final(self).position()
                == old(self).position() + 1),
            old(self).position() >= old(self).items_seq().len() ==> (r is None && *final(self)
                == *old(self)),
    {
        if self.idx >= self.items.len() {
            return Option::None;
        }
        let e = &self.items[self.idx];
        self.idx = self.idx + 1;
        Option::Some(e)
    }
}

/// A stateful key-then-value cursor over an object-shaped dynamic value's
/// own entries, in own-key enumeration order.
///
/// The intended protocol pulls one key and then one value per entry.  A
/// key pull does not advance the cursor; the matching value pull does.
/// Pulling a value with no entries left — a schema that mis-paired its
/// pulls, or ran past the end — is reported as an index error, never a
/// panic.
pub struct ObjectAccess<'a> {
    pub entries: &'a Vec<(String, Dyn)>,
    pub idx: usize,
}

impl<'a> ObjectAccess<'a> {
    /// The entries this cursor walks.
    pub open spec fn entries_seq(&self) -> Seq<(String, Dyn)> {
        self.entries@
    }

    /// How many entries have been fully consumed so far.
    pub open spec fn position(&self) -> int {
        self.idx as int
    }

    /// The entries not yet consumed.
    pub open spec fn remaining(&self) -> Seq<(String, Dyn)> {
        self.entries@.skip(self.idx as int)
    }

    /// The cursor's position never passes its snapshotted length.
    pub open spec fn wf(&self) -> bool {
        self.idx <= self.entries@.len()
    }

    /// A fresh cursor over the given entries, positioned at the start.
    pub fn new(entries: &'a Vec<(String, Dyn)>) -> (r: Self)
        ensures
            r.entries_seq() == entries@,
            r.position() == 0,
            r.wf(),
    {
        ObjectAccess { entries, idx: 0 }
    }

    /// Hands out the current entry's key without advancing, or reports
    /// exhaustion once every entry has been consumed.
    pub fn next_key(&mut self) -> (r: Option<&'a String>)
        ensures
            *final(self) == *old(self),
            old(self).position() < old(self).entries_seq().len() ==> (r matches Option::Some(k)
                && *k == old(self).entries_seq()[old(self).position()].0),
            old(self).position() >= old(self).entries_seq().len() ==> r is None,
    {
        if self.idx >= self.entries.len() {
            return Option::None;
        }
        Option::Some(&self.entries[self.idx].0)
    }

    /// Hands out the value paired with the most recently pulled key and
    /// advances past the entry; with no entry left it reports an index
    /// error carrying the snapshotted length and the offending index.
    pub fn next_value(&mut self) -> (r: Result<&'a Dyn, DecodeError>)
        ensures
            final(self).entries_seq() == old(self).entries_seq(),
            old(self).wf() ==> final(self).wf(),
            old(self).position() < old(self).entries_seq().len() ==> (r matches Result::Ok(v)
                && *v == old(self).entries_seq()[old(self).position()].1 && final(self).position()
                == old(self).position() + 1),
            old(self).position() >= old(self).entries_seq().len() ==> (r matches Result::Err(e)
                && e@ == crate::error::ErrorV::ArrayIndexOutOfBounds {
                    length: old(self).entries_seq().len() as int,
                    index: old(self).position(),
                } && *final(self) == *old(self)),
            old(self).wf() && old(self).position() >= old(self).entries_seq().len() ==> (r
                matches Result::Err(e) && e@ == crate::error::ErrorV::ArrayIndexOutOfBounds {
                    length: old(self).entries_seq().len() as int,
                    index: old(self).entries_seq().len() as int,
                }),
    {
        if self.idx >= self.entries.len() {
            return Result::Err(DecodeError::ArrayIndexOutOfBounds {
                length: self.entries.len(),
                index: self.idx,
            });
        }
        let v = &self.entries[self.idx].1;
        self.idx = self.idx + 1;
        Result::Ok(v)
    }
}

} // verus!
