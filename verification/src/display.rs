//! The state of the terminal view: the clips it shows and whether it is to
//! close. The state changes only through its own steps: a refresh from the
//! history and the handling of one event.

use vstd::prelude::*;
use crate::event::{Event, KeyCode, KeyEvent, KeyEventKind};
use crate::history::{Clip, PasteboardItem};

verus! {

/// The key that closes the view.
pub const QUIT_KEY: char = 'q';

/// Whether `key_event` is about the key that closes the view.
pub open spec fn is_quit_key(key_event: KeyEvent) -> bool {
    key_event.code == KeyCode::Char(QUIT_KEY)
}

/// Whether `event` closes the view: only the press of the quit key does.
pub open spec fn is_quit_event(event: Event) -> bool {
    match event {
        Event::Key(key_event) => key_event.kind == KeyEventKind::Press && is_quit_key(key_event),
        Event::Other => false,
    }
}

/// The lines that show `clips`: the text of each, in the same order.
pub open spec fn spec_lines(clips: Seq<Clip>) -> Seq<Seq<char>> {
    clips.map_values(|clip: Clip| clip.content)
}

/// The view's state.
#[derive(Debug)]
pub struct App {
    /// The clips on show, as the history gave them at the last refresh.
    pub items: Vec<PasteboardItem>,
    /// Set once the view is to close.
    pub exit: bool,
}

impl Default for App {
    /// A view that shows nothing yet and stays open.
    fn default() -> (app: Self)
        ensures
            app.items@ == Seq::<PasteboardItem>::empty(),
            !app.exit,
    {
        App { items: Vec::new(), exit: false }
    }
}

impl App {
    /// Replaces the clips on show by `items`.
    pub fn refresh(&mut self, items: Vec<PasteboardItem>)
        ensures
            final(self).items == items,
            final(self).exit == old(self).exit,
    {
        self.items = items;
    }

    /// The lines to draw: one for each clip on show, holding its text.
    pub fn lines(&self) -> (lines: Vec<String>)
        ensures
            lines.deep_view() == spec_lines(self.items.deep_view()),
            lines@.len() == self.items@.len(),
            forall|i: int|
                0 <= i < lines@.len() ==> (#[trigger] lines@[i])@ == self.items@[i].content@,
    {
        let mut lines: Vec<String> = Vec::new();
        let mut i: usize = 0;
        while i < self.items.len()
            invariant
                i <= self.items@.len(),
                lines@.len() == i,
                forall|k: int| 0 <= k < i ==> (#[trigger] lines@[k])@ == self.items@[k].content@,
            decreases self.items@.len() - i,
        {
            lines.push(self.items[i].content.clone());
            i += 1;
        }
        assert(lines.deep_view() =~= spec_lines(self.items.deep_view()));
        lines
    }

    /// Handles one event of the terminal. A key that was pressed goes to
    /// `handle_key_event`; every other event is ignored.
    pub fn handle_event(&mut self, event: Event)
        ensures
            final(self).exit == (old(self).exit || is_quit_event(event)),
            final(self).items == old(self).items,
    {
        match event {
            Event::Key(key_event) => {
                if key_event.kind == KeyEventKind::Press {
                    self.handle_key_event(key_event);
                }
            },
            Event::Other => {},
        }
    }

    /// Handles one key: the quit key closes the view, every other key is
    /// ignored.
    pub fn handle_key_event(&mut self, key_event: KeyEvent)
        ensures
            final(self).exit == (old(self).exit || is_quit_key(key_event)),
            final(self).items == old(self).items,
    {
        match key_event.code {
            KeyCode::Char(c) => {
                if c == QUIT_KEY {
                    self.exit();
                }
            },
            KeyCode::Other => {},
        }
    }

    /// Closes the view.
    pub fn exit(&mut self)
        ensures
            final(self).exit,
            final(self).items == old(self).items,
    {
        self.exit = true;
    }
}

} // verus!
