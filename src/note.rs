use vstd::prelude::*;

use crate::error::{Error, Operation, Result};

verus! {

/// A point in time as whole seconds since the Unix epoch and a fraction of
/// a second in microseconds.
#[derive(Debug, Clone, Copy, PartialEq, Eq, Structural)]
pub struct Timestamp {
    pub secs: u64,
    pub micros: u32,
}

/// One note resource, as the service stores it.
///
/// `key` is the identifier the service assigns on the first save; a note
/// without one has never been persisted. `deleted` is 1 for a note in the
/// trash. `version`, `syncnum` and `minversion` are maintained by the
/// service and never fabricated here.
#[derive(Debug, Clone, PartialEq)]
pub struct Note {
    pub modifydate: Option<Timestamp>,
    pub tags: Vec<String>,
    pub deleted: u64,
    pub createdate: Option<Timestamp>,
    pub systemtags: Vec<String>,
    pub version: Option<u64>,
    pub syncnum: Option<u64>,
    pub key: Option<String>,
    pub minversion: Option<u64>,
    pub content: Option<String>,
}

/// The text of each tag, in order.
pub open spec fn tag_view(tags: Seq<String>) -> Seq<Seq<char>> {
    tags.map_values(|t: String| t@)
}

/// The tag list after inserting `t`: unchanged when `t` is already there,
/// otherwise `t` appended at the end.
pub open spec fn with_tag(tags: Seq<Seq<char>>, t: Seq<char>) -> Seq<Seq<char>> {
    if tags.contains(t) {
        tags
    } else {
        tags.push(t)
    }
}

/// Inserting a tag that is already present changes nothing, so inserting
/// the same tag twice gives the same list, in the same order, as inserting
/// it once.
pub proof fn lemma_with_tag_idempotent(tags: Seq<Seq<char>>, t: Seq<char>)
    ensures
        with_tag(with_tag(tags, t), t) == with_tag(tags, t),
{
    if !tags.contains(t) {
        assert(tags.push(t)[tags.len() as int] == t);
    }
}

/// A tag list without duplicates keeps that property under insertion.
pub proof fn lemma_with_tag_keeps_unique(tags: Seq<Seq<char>>, t: Seq<char>)
    requires
        tags.no_duplicates(),
    ensures
        with_tag(tags, t).no_duplicates(),
        with_tag(tags, t).contains(t),
{
    if !tags.contains(t) {
        let r = tags.push(t);
        assert(r[tags.len() as int] == t);
        assert forall|i: int, j: int| 0 <= i < r.len() && 0 <= j < r.len() && i != j implies r[i]
            != r[j] by {
            if i < tags.len() && j < tags.len() {
                assert(r[i] == tags[i] && r[j] == tags[j]);
            } else if i < tags.len() {
                assert(r[i] == tags[i]);
            } else if j < tags.len() {
                assert(r[j] == tags[j]);
            }
        }
    }
}

/// Reads the system clock through `std::time::SystemTime::now`, as whole
/// seconds since the Unix epoch; `None` when the clock is set before it.
/// The reading depends on the moment of the call, so nothing is promised.
#[verifier::external_body]
fn unix_seconds() -> (r: Option<u64>) {
    match std::time::SystemTime::now().duration_since(std::time::UNIX_EPOCH) {
        Ok(d) => Some(d.as_secs()),
        Err(_) => None,
    }
}

impl Note {
    /// Every field but `field_index` is the same in `self` and `o`
    /// (0: modifydate, 1: tags, 2: deleted, 9: content; other indices
    /// compare all fields).
    pub open spec fn same_except(self, o: Note, field_index: int) -> bool {
        &&& (field_index != 0 ==> self.modifydate == o.modifydate)
        &&& (field_index != 1 ==> self.tags@ == o.tags@)
        &&& (field_index != 2 ==> self.deleted == o.deleted)
        &&& self.createdate == o.createdate
        &&& self.systemtags@ == o.systemtags@
        &&& self.version == o.version
        &&& self.syncnum == o.syncnum
        &&& self.key == o.key
        &&& self.minversion == o.minversion
        &&& (field_index != 9 ==> self.content == o.content)
    }

    /// The note's own invariant: no tag appears twice.
    pub open spec fn wf(self) -> bool {
        tag_view(self.tags@).no_duplicates()
    }

    /// A note that was never saved: no identifier, no server fields, no
    /// tags, not in the trash.
    pub open spec fn is_blank_draft(self) -> bool {
        &&& self.modifydate is None
        &&& self.tags@.len() == 0
        &&& self.deleted == 0
        &&& self.createdate is None
        &&& self.systemtags@.len() == 0
        &&& self.version is None
        &&& self.syncnum is None
        &&& self.key is None
        &&& self.minversion is None
    }

    /// An empty draft note.
    pub fn new() -> (r: Note)
        ensures
            r.is_blank_draft(),
            r.content is None,
            r.wf(),
    {
        proof {
            assert(tag_view(Seq::<String>::empty()) =~= Seq::<Seq<char>>::empty());
        }
        Note {
            modifydate: None,
            tags: Vec::new(),
            deleted: 0,
            createdate: None,
            systemtags: Vec::new(),
            version: None,
            syncnum: None,
            key: None,
            minversion: None,
            content: None,
        }
    }

    /// A draft note whose body is `s`.
    pub fn from_text(s: String) -> (r: Note)
        ensures
            r.is_blank_draft(),
            r.content matches Some(c) && c@ == s@,
            r.wf(),
    {
        let n = Note::new();
        n.content(s.as_str())
    }

    /// The same note with its body replaced by `s`.
    pub fn content(self, s: &str) -> (r: Note)
        ensures
            r.same_except(self, 9),
            r.content matches Some(c) && c@ == s@,
            self.wf() ==> r.wf(),
    {
        let mut n = self;
        n.content = Some(s.to_string());
        n
    }

    /// Whether the service has assigned the note an identifier.
    pub fn has_key(&self) -> (r: bool)
        ensures
            r == self.key is Some,
    {
        self.key.is_some()
    }

    /// The identifier, if the note has been saved.
    pub fn key(&self) -> (r: Option<&String>)
        ensures
            match r {
                Some(k) => self.key == Some(*k),
                None => self.key is None,
            },
    {
        match &self.key {
            Some(k) => Some(k),
            None => None,
        }
    }

    /// Stamps the note as modified at `secs` whole seconds after the epoch.
    pub fn set_modified_at(&mut self, secs: u64)
        ensures
            final(self).modifydate == Some(Timestamp { secs, micros: 0 }),
            final(self).same_except(*old(self), 0),
    {
        self.modifydate = Some(Timestamp { secs, micros: 0 });
    }

    /// Stamps the note as modified now, reading the system clock.
    pub fn set_modified(&mut self) -> (r: Result<()>)
        ensures
            r matches Err(e) ==> (e == (Error::Clock { op: Operation::ReadClock }) && *final(self)
                == *old(self)),
            r is Ok ==> (final(self).modifydate matches Some(t) && t.micros == 0),
            final(self).same_except(*old(self), 0),
    {
        match unix_seconds() {
            Some(secs) => {
                self.set_modified_at(secs);
                Ok(())
            },
            None => Err(Error::Clock { op: Operation::ReadClock }),
        }
    }

    /// Marks the note as trashed.
    pub fn delete(&mut self) -> (r: Result<()>)
        ensures
            r is Ok,
            final(self).deleted == 1,
            final(self).same_except(*old(self), 2),
    {
        self.deleted = 1;
        Ok(())
    }

    /// The same note with `tag` inserted: appended when absent, no change
    /// when already present.
    pub fn add_tag(self, tag: &str) -> (r: Note)
        ensures
            tag_view(r.tags@) == with_tag(tag_view(self.tags@), tag@),
            r.same_except(self, 1),
            self.wf() ==> r.wf(),
    {
        proof {
            if self.wf() {
                lemma_with_tag_keeps_unique(tag_view(self.tags@), tag@);
            }
        }
        let mut n = self;
        let t = tag.to_string();
        let mut i: usize = 0;
        while i < n.tags.len()
            invariant
                n == self,
                t@ == tag@,
                i <= n.tags@.len(),
                forall|j: int| 0 <= j < i ==> n.tags@[j]@ != tag@,
            decreases n.tags@.len() - i,
        {
            if n.tags[i] == t {
                assert(tag_view(n.tags@)[i as int] == tag@);
                return n;
            }
            i = i + 1;
        }
        assert(!tag_view(n.tags@).contains(tag@));
        n.tags.push(t);
        assert(tag_view(n.tags@) =~= tag_view(self.tags@).push(tag@));
        n
    }

    /// The tags, in insertion order.
    pub fn tags(&self) -> (r: &[String])
        ensures
            r@ == self.tags@,
    {
        self.tags.as_slice()
    }
}

} // verus!
