//! The poller: one cycle compares the clipboard text with the latest clip
//! and stores the text only where the two differ.
//!
//! The comparison is exact: by characters, case-sensitive, nothing trimmed.
//! Only the latest clip is looked at, so a text may return to the history
//! once another one has come between.

use vstd::prelude::*;
use crate::history::{spec_append, spec_latest, Clip, History, PasteboardItem};

verus! {

/// The pause between two cycles, in milliseconds.
pub const POLL_INTERVAL_MILLIS: u64 = 500;

/// What a cycle asks of the store.
#[derive(Debug, PartialEq, Eq)]
pub enum PollAction {
    /// Write this text as a new clip.
    Store(String),
    /// Write nothing.
    Skip,
}

/// What a cycle did to the history.
#[derive(Debug, Clone, Copy, PartialEq, Eq, Structural)]
pub enum PollOutcome {
    /// The text was written as a new clip.
    Stored,
    /// The latest clip already held the text.
    Unchanged,
}

/// Why a cycle could not run.
#[derive(Debug, Clone, Copy, PartialEq, Eq, Structural)]
pub enum PollError {
    /// The clipboard held no text.
    NoText,
}

/// Whether `text` is news after `latest`: there is no clip yet, or the
/// latest one holds another text.
pub open spec fn is_news(latest: Option<Clip>, text: Seq<char>) -> bool {
    match latest {
        None => true,
        Some(clip) => clip.content != text,
    }
}

/// The log after one cycle that read `text` from the clipboard.
pub open spec fn spec_poll(log: Seq<Clip>, text: Seq<char>) -> Seq<Clip> {
    if is_news(spec_latest(log), text) {
        spec_append(log, text)
    } else {
        log
    }
}

/// The log after `n` cycles that each read `text`.
pub open spec fn spec_polls(log: Seq<Clip>, text: Seq<char>, n: nat) -> Seq<Clip>
    decreases n,
{
    if n == 0 {
        log
    } else {
        spec_poll(spec_polls(log, text, (n - 1) as nat), text)
    }
}

/// The log after one cycle for each text of `texts`, in their order.
pub open spec fn spec_poll_each(log: Seq<Clip>, texts: Seq<Seq<char>>) -> Seq<Clip>
    decreases texts.len(),
{
    if texts.len() == 0 {
        log
    } else {
        spec_poll(spec_poll_each(log, texts.drop_last()), texts.last())
    }
}

/// No two neighbours of `log` hold the same text.
pub open spec fn neighbours_differ(log: Seq<Clip>) -> bool {
    forall|i: int| 0 < i < log.len() ==> log[i - 1].content != (#[trigger] log[i]).content
}

/// Decides what a cycle writes, from the latest clip and from what the
/// clipboard gave: an error where it gave no text, the text itself where it
/// is news, and nothing where the latest clip holds it already.
pub fn decide(
    latest: Option<&PasteboardItem>,
    reading: Option<String>,
) -> (decision: Result<PollAction, PollError>)
    ensures
        match reading {
            None => decision == Err::<PollAction, PollError>(PollError::NoText),
            Some(text) => decision == Ok::<PollAction, PollError>(
                if is_news(
                    match latest {
                        Some(item) => Some(item@),
                        None => None,
                    },
                    text@,
                ) {
                    PollAction::Store(text)
                } else {
                    PollAction::Skip
                },
            ),
        },
{
    match reading {
        None => Err(PollError::NoText),
        Some(text) => {
            let news = match latest {
                None => true,
                Some(item) => !(item.content == text),
            };
            if news {
                Ok(PollAction::Store(text))
            } else {
                Ok(PollAction::Skip)
            }
        },
    }
}

/// Runs one cycle on `history` with what the clipboard gave. Without text
/// the cycle fails and the history stays as it was. With text the history
/// becomes `spec_poll` of the old one: one clip longer where the text is
/// news, unchanged where it is not.
pub fn poll_once(
    history: &mut History,
    reading: Option<String>,
) -> (outcome: Result<PollOutcome, PollError>)
    ensures
        match reading {
            None => {
                &&& outcome == Err::<PollOutcome, PollError>(PollError::NoText)
                &&& final(history)@ == old(history)@
            },
            Some(text) => {
                &&& final(history)@ == spec_poll(old(history)@, text@)
                &&& outcome == Ok::<PollOutcome, PollError>(
                    if is_news(spec_latest(old(history)@), text@) {
                        PollOutcome::Stored
                    } else {
                        PollOutcome::Unchanged
                    },
                )
            },
        },
        neighbours_differ(old(history)@) ==> neighbours_differ(final(history)@),
{
    proof {
        if neighbours_differ(history@) && reading is Some {
            lemma_poll_keeps_neighbours_apart(history@, reading->Some_0@);
        }
    }
    let latest = history.latest();
    match decide(latest.as_ref(), reading) {
        Err(error) => Err(error),
        Ok(PollAction::Skip) => Ok(PollOutcome::Unchanged),
        Ok(PollAction::Store(text)) => {
            history.append(text);
            Ok(PollOutcome::Stored)
        },
    }
}

/// A cycle whose text is news writes exactly one clip, which holds the
/// text and becomes the latest; all earlier clips stay.
pub proof fn lemma_news_is_stored_once(log: Seq<Clip>, text: Seq<char>)
    requires
        log.len() == 0 || log.last().content != text,
    ensures
        spec_poll(log, text).len() == log.len() + 1,
        spec_poll(log, text).drop_last() == log,
        spec_poll(log, text).last().content == text,
{
    assert(spec_poll(log, text).drop_last() =~= log);
}

/// A cycle whose text the latest clip holds already writes nothing.
pub proof fn lemma_same_text_is_skipped(log: Seq<Clip>, text: Seq<char>)
    requires
        log.len() > 0,
        log.last().content == text,
    ensures
        spec_poll(log, text) == log,
{
}

/// After a cycle has read a text, a second cycle with the same text changes
/// nothing.
pub proof fn lemma_poll_is_idempotent(log: Seq<Clip>, text: Seq<char>)
    ensures
        spec_poll(spec_poll(log, text), text) == spec_poll(log, text),
{
}

/// However often the same text is polled, the history grows by one clip at
/// most: all cycles together do what the first one did.
pub proof fn lemma_repeated_polls_store_once(log: Seq<Clip>, text: Seq<char>, n: nat)
    ensures
        n >= 1 ==> spec_polls(log, text, n) == spec_poll(log, text),
        spec_polls(log, text, n).len() <= log.len() + 1,
    decreases n,
{
    if n >= 1 {
        let before = spec_polls(log, text, (n - 1) as nat);
        assert(spec_polls(log, text, n) == spec_poll(before, text));
        if n == 1 {
            assert(before == log);
        } else {
            lemma_repeated_polls_store_once(log, text, (n - 1) as nat);
            lemma_poll_is_idempotent(log, text);
        }
    }
}

/// A history in which no two neighbours hold the same text stays so under
/// any cycle.
pub proof fn lemma_poll_keeps_neighbours_apart(log: Seq<Clip>, text: Seq<char>)
    requires
        neighbours_differ(log),
    ensures
        neighbours_differ(spec_poll(log, text)),
{
}

/// Whatever the clipboard holds from cycle to cycle, the poller only adds
/// to the history: what was written stays where it was, each cycle adds one
/// clip at most, and where no two neighbours held the same text before,
/// none do after.
pub proof fn lemma_polls_only_append(log: Seq<Clip>, texts: Seq<Seq<char>>)
    ensures
        log.len() <= spec_poll_each(log, texts).len() <= log.len() + texts.len(),
        spec_poll_each(log, texts).subrange(0, log.len() as int) == log,
        neighbours_differ(log) ==> neighbours_differ(spec_poll_each(log, texts)),
    decreases texts.len(),
{
    if texts.len() == 0 {
        assert(log.subrange(0, log.len() as int) =~= log);
    } else {
        let before = spec_poll_each(log, texts.drop_last());
        lemma_polls_only_append(log, texts.drop_last());
        assert(spec_poll(before, texts.last()).subrange(0, log.len() as int) =~= before.subrange(
            0,
            log.len() as int,
        ));
        if neighbours_differ(log) {
            lemma_poll_keeps_neighbours_apart(before, texts.last());
        }
    }
}

} // verus!
