//! The session history of a page.

use vstd::prelude::*;

verus! {

/// One entry of a session history.
pub struct HistoryEntry {
    pub url: String,
    pub title: Option<String>,
    /// The serialized state of a same-document entry; `None` for an entry that
    /// a navigation made.
    pub state: Option<String>,
}

/// A [`HistoryEntry`] as a value.
pub struct HistoryEntryView {
    pub url: Seq<char>,
    pub title: Option<Seq<char>>,
    pub state: Option<Seq<char>>,
}

/// An optional text as a value.
pub open spec fn optional_text(t: Option<String>) -> Option<Seq<char>> {
    match t {
        Some(s) => Some(s@),
        None => None,
    }
}

/// A copy of an optional text.
pub fn copy_optional(t: &Option<String>) -> (r: Option<String>)
    ensures
        r == *t,
{
    match t {
        Some(s) => Some(s.clone()),
        None => None,
    }
}

impl View for HistoryEntry {
    type V = HistoryEntryView;

    open spec fn view(&self) -> HistoryEntryView {
        HistoryEntryView {
            url: self.url@,
            title: optional_text(self.title),
            state: optional_text(self.state),
        }
    }
}

/// The entry that a navigation to `url` makes.
pub open spec fn navigation_entry(url: Seq<char>) -> HistoryEntryView {
    HistoryEntryView { url, title: None, state: None }
}

impl HistoryEntry {
    /// The entry that a navigation to `url` makes.
    pub fn navigation(url: String) -> (r: HistoryEntry)
        ensures
            r@ == navigation_entry(url@),
    {
        HistoryEntry { url, title: None, state: None }
    }

    /// The entry that a script makes with serialized state.
    pub fn push_state(url: String, state: String) -> (r: HistoryEntry)
        ensures
            r@ == (HistoryEntryView { url: url@, title: None, state: Some(state@) }),
    {
        HistoryEntry { url, title: None, state: Some(state) }
    }

    /// A copy of the entry.
    pub fn copy(&self) -> (r: HistoryEntry)
        ensures
            r == *self,
    {
        HistoryEntry {
            url: self.url.clone(),
            title: copy_optional(&self.title),
            state: copy_optional(&self.state),
        }
    }
}

/// The entries that the user can move through, and the current one.
pub struct SessionHistory {
    pub entries: Vec<HistoryEntry>,
    pub index: usize,
}

/// A [`SessionHistory`] as a value.
#[verifier::ext_equal]
pub struct HistoryView {
    pub entries: Seq<HistoryEntryView>,
    pub index: int,
}

/// Entries as values.
pub open spec fn entries_view(s: Seq<HistoryEntry>) -> Seq<HistoryEntryView> {
    Seq::new(s.len(), |i: int| s[i]@)
}

impl View for SessionHistory {
    type V = HistoryView;

    open spec fn view(&self) -> HistoryView {
        HistoryView { entries: entries_view(self.entries@), index: self.index as int }
    }
}

impl HistoryView {
    /// The history has a current entry.
    pub open spec fn valid(self) -> bool {
        0 <= self.index < self.entries.len()
    }

    /// The current entry.
    pub open spec fn current(self) -> HistoryEntryView {
        self.entries[self.index]
    }

    /// The history of a page with one entry.
    pub open spec fn single(entry: HistoryEntryView) -> HistoryView {
        HistoryView { entries: seq![entry], index: 0 }
    }

    /// The history after `entry` was added: what lay ahead is dropped.
    pub open spec fn pushed(self, entry: HistoryEntryView) -> HistoryView {
        HistoryView {
            entries: self.entries.subrange(0, self.index + 1).push(entry),
            index: self.index + 1,
        }
    }

    /// The history with its current entry replaced.
    pub open spec fn replaced(self, entry: HistoryEntryView) -> HistoryView {
        HistoryView { entries: self.entries.update(self.index, entry), index: self.index }
    }

    /// Whether moving by `delta` stays within the history.
    pub open spec fn can_go(self, delta: int) -> bool {
        0 <= self.index + delta < self.entries.len()
    }

    /// The history with another current entry.
    pub open spec fn moved(self, delta: int) -> HistoryView {
        HistoryView { entries: self.entries, index: self.index + delta }
    }
}

impl SessionHistory {
    /// The history has a current entry.
    pub open spec fn wf(&self) -> bool {
        self@.valid()
    }

    /// The history with one entry.
    pub fn new(entry: HistoryEntry) -> (r: SessionHistory)
        ensures
            r.wf(),
            r@ == HistoryView::single(entry@),
    {
        let mut entries: Vec<HistoryEntry> = Vec::new();
        entries.push(entry);
        let r = SessionHistory { entries, index: 0 };
        assert(r@ =~= HistoryView::single(entry@));
        r
    }

    /// A copy of the history.
    pub fn copy(&self) -> (r: SessionHistory)
        ensures
            r@ == self@,
            r.entries@ == self.entries@,
            r.index == self.index,
    {
        let mut entries: Vec<HistoryEntry> = Vec::new();
        let mut i: usize = 0;
        while i < self.entries.len()
            invariant
                i <= self.entries@.len(),
                entries@ == self.entries@.take(i as int),
            decreases self.entries@.len() - i,
        {
            entries.push(self.entries[i].copy());
            i += 1;
            assert(entries@ =~= self.entries@.take(i as int));
        }
        assert(entries@ =~= self.entries@);
        SessionHistory { entries, index: self.index }
    }

    /// The URL of the current entry.
    pub fn url(&self) -> (r: &str)
        requires
            self.wf(),
        ensures
            r@ == self@.current().url,
    {
        self.entries[self.index].url.as_str()
    }

    /// The number of entries.
    pub fn length(&self) -> (r: usize)
        ensures
            r == self@.entries.len(),
    {
        self.entries.len()
    }

    /// The position of the current entry.
    pub fn index(&self) -> (r: usize)
        ensures
            r == self@.index,
    {
        self.index
    }

    /// Whether an entry lies behind the current one.
    pub fn can_go_back(&self) -> (r: bool)
        requires
            self.wf(),
        ensures
            r == self@.can_go(-1),
    {
        self.index > 0
    }

    /// Whether an entry lies ahead of the current one.
    pub fn can_go_forward(&self) -> (r: bool)
        requires
            self.wf(),
        ensures
            r == self@.can_go(1),
    {
        self.entries.len() - self.index > 1
    }

    /// Adds an entry behind the current one and makes it current. Entries that
    /// lay ahead are dropped.
    pub fn push(&mut self, entry: HistoryEntry)
        requires
            old(self).wf(),
        ensures
            final(self).wf(),
            final(self)@ == old(self)@.pushed(entry@),
    {
        let ghost before = self@;
        if self.entries.len() - self.index > 1 {
            self.entries.truncate(self.index + 1);
        }
        self.entries.push(entry);
        self.index = self.entries.len() - 1;
        assert(self@ =~= before.pushed(entry@));
    }

    /// Replaces the current entry.
    pub fn replace(&mut self, entry: HistoryEntry)
        requires
            old(self).wf(),
        ensures
            final(self).wf(),
            final(self)@ == old(self)@.replaced(entry@),
    {
        let ghost before = self@;
        self.entries.set(self.index, entry);
        assert(self@ =~= before.replaced(entry@));
    }

    /// Moves by `delta` entries. A move that leaves the history is not made,
    /// and `false` comes back.
    pub fn go(&mut self, delta: i32) -> (moved: bool)
        requires
            old(self).wf(),
        ensures
            final(self).wf(),
            final(self).entries@ == old(self).entries@,
            moved == old(self)@.can_go(delta as int),
            final(self)@ == if moved {
                old(self)@.moved(delta as int)
            } else {
                old(self)@
            },
    {
        if delta < 0 {
            let back: u64 = (-(delta as i64)) as u64;
            if back > self.index as u64 {
                return false;
            }
            self.index = self.index - back as usize;
        } else {
            let ahead: u64 = delta as u64;
            if ahead >= (self.entries.len() - self.index) as u64 {
                return false;
            }
            self.index = self.index + ahead as usize;
        }
        true
    }
}

/// Going back after a push returns to the entry that was current.
pub proof fn push_then_back(h: HistoryView, entry: HistoryEntryView)
    requires
        h.valid(),
    ensures
        h.pushed(entry).valid(),
        h.pushed(entry).can_go(-1),
        h.pushed(entry).moved(-1).current() == h.current(),
        h.pushed(entry).current() == entry,
        !h.pushed(entry).can_go(1),
{
}

/// Moving there and back again changes nothing.
pub proof fn moves_cancel(h: HistoryView, delta: int)
    requires
        h.valid(),
        h.can_go(delta),
    ensures
        h.moved(delta).valid(),
        h.moved(delta).can_go(-delta),
        h.moved(delta).moved(-delta) == h,
{
}

/// Replacing keeps the length and every other entry.
pub proof fn replace_keeps_the_rest(h: HistoryView, entry: HistoryEntryView, i: int)
    requires
        h.valid(),
        0 <= i < h.entries.len(),
        i != h.index,
    ensures
        h.replaced(entry).entries.len() == h.entries.len(),
        h.replaced(entry).entries[i] == h.entries[i],
        h.replaced(entry).current() == entry,
{
}

} // verus!
