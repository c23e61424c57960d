//! The history store: an append-only log of clips.
//!
//! The store stamps each clip with its logical time of insertion, the number
//! of clips written before it. Time therefore never repeats, the clip with
//! the greatest stamp is the one written last, and ascending stamps are the
//! order of insertion.

use vstd::prelude::*;

verus! {

/// What a stored clip is: its text and the time the store gave it.
pub struct Clip {
    pub content: Seq<char>,
    pub created_at: nat,
}

/// One captured snapshot of the clipboard text.
#[derive(Debug, PartialEq, Eq)]
pub struct PasteboardItem {
    pub content: String,
    pub created_at: u64,
}

impl View for PasteboardItem {
    type V = Clip;

    open spec fn view(&self) -> Clip {
        Clip { content: self.content@, created_at: self.created_at as nat }
    }
}

impl DeepView for PasteboardItem {
    type V = Clip;

    open spec fn deep_view(&self) -> Clip {
        self@
    }
}

impl Clone for PasteboardItem {
    fn clone(&self) -> (copy: Self)
        ensures
            copy == *self,
    {
        PasteboardItem { content: self.content.clone(), created_at: self.created_at }
    }
}

impl Default for PasteboardItem {
    fn default() -> (item: Self)
        ensures
            item@ == (Clip { content: Seq::empty(), created_at: 0 }),
    {
        PasteboardItem { content: String::new(), created_at: 0 }
    }
}

/// The log `log` after the store has written `content` to it.
pub open spec fn spec_append(log: Seq<Clip>, content: Seq<char>) -> Seq<Clip> {
    log.push(Clip { content, created_at: log.len() })
}

/// The clip of `log` that was written last, if there is one.
pub open spec fn spec_latest(log: Seq<Clip>) -> Option<Clip> {
    if log.len() == 0 {
        None
    } else {
        Some(log.last())
    }
}

/// Every clip of `log` carries its position as its time.
pub open spec fn stamped_in_order(log: Seq<Clip>) -> bool {
    forall|i: int| 0 <= i < log.len() ==> (#[trigger] log[i]).created_at == i
}

/// The append-only log of clips.
#[derive(Debug)]
pub struct History {
    contents: Vec<String>,
}

impl View for History {
    type V = Seq<Clip>;

    closed spec fn view(&self) -> Seq<Clip> {
        Seq::new(
            self.contents@.len(),
            |i: int| Clip { content: self.contents@[i]@, created_at: i as nat },
        )
    }
}

impl History {
    /// An empty history.
    pub fn new() -> (history: Self)
        ensures
            history@ == Seq::<Clip>::empty(),
    {
        History { contents: Vec::new() }
    }

    /// Writes `content` as a new clip after all the others.
    pub fn append(&mut self, content: String)
        ensures
            final(self)@ == spec_append(old(self)@, content@),
    {
        self.contents.push(content);
    }

    /// The clip with the greatest time, which is the one written last;
    /// `None` while nothing has been written.
    pub fn latest(&self) -> (latest: Option<PasteboardItem>)
        ensures
            match latest {
                Some(item) => spec_latest(self@) == Some(item@),
                None => spec_latest(self@).is_none(),
            },
            forall|i: int|
                0 <= i < self@.len() ==> (#[trigger] self@[i]).created_at
                    <= latest->Some_0.created_at,
    {
        let n: usize = self.contents.len();
        if n == 0 {
            None
        } else {
            Some(PasteboardItem { content: self.contents[n - 1].clone(), created_at: (n - 1) as u64 })
        }
    }

    /// Every clip, by ascending time: the order in which they were written.
    pub fn all(&self) -> (items: Vec<PasteboardItem>)
        ensures
            items.deep_view() == self@,
            items@.len() == self@.len(),
            forall|i: int| 0 <= i < items@.len() ==> (#[trigger] items@[i])@ == self@[i],
            forall|i: int, j: int|
                0 <= i < j < items@.len() ==> (#[trigger] items@[i]).created_at
                    < (#[trigger] items@[j]).created_at,
    {
        let mut items: Vec<PasteboardItem> = Vec::new();
        let mut i: usize = 0;
        while i < self.contents.len()
            invariant
                i <= self.contents@.len(),
                items@.len() == i,
                forall|k: int| 0 <= k < i ==> (#[trigger] items@[k])@ == self@[k],
            decreases self.contents@.len() - i,
        {
            items.push(PasteboardItem { content: self.contents[i].clone(), created_at: i as u64 });
            i += 1;
        }
        assert(items.deep_view() =~= self@);
        items
    }

    /// The number of clips written so far.
    pub fn len(&self) -> (n: usize)
        ensures
            n == self@.len(),
    {
        self.contents.len()
    }

    /// Whether nothing has been written yet.
    pub fn is_empty(&self) -> (empty: bool)
        ensures
            empty == (self@.len() == 0),
    {
        self.contents.len() == 0
    }

    /// The store stamps its clips in order, whatever was written to it.
    pub proof fn lemma_stamped_in_order(&self)
        ensures
            stamped_in_order(self@),
    {
    }
}

/// Time never stands still nor runs back: of two clips, the one written
/// later has the greater time.
pub proof fn lemma_stamps_ascend(log: Seq<Clip>, i: int, j: int)
    requires
        stamped_in_order(log),
        0 <= i < j < log.len(),
    ensures
        log[i].created_at < log[j].created_at,
{
}

/// The latest clip is one with the greatest time.
pub proof fn lemma_latest_is_newest(log: Seq<Clip>, i: int)
    requires
        stamped_in_order(log),
        0 <= i < log.len(),
    ensures
        spec_latest(log) is Some,
        log[i].created_at <= spec_latest(log)->Some_0.created_at,
{
}

/// Writing keeps what was written: the old log is the new one without its
/// last clip, and the new clip is the latest.
pub proof fn lemma_append_only(log: Seq<Clip>, content: Seq<char>)
    ensures
        spec_append(log, content).len() == log.len() + 1,
        spec_append(log, content).drop_last() == log,
        spec_latest(spec_append(log, content)) == Some(
            Clip { content, created_at: log.len() },
        ),
        stamped_in_order(log) ==> stamped_in_order(spec_append(log, content)),
{
    assert(spec_append(log, content).drop_last() =~= log);
}

} // verus!
