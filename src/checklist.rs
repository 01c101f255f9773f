//! Layout of a checklist screen: titles and list items placed one row
//! after another, the current item of the open list drawn highlighted.
//! The caller draws each `Label` it gets back.

use vstd::prelude::*;

verus! {

/// Colour pair of ordinary text.
pub const REGULAR_PAIR: i16 = 0;

/// Colour pair of the current list item.
pub const HIGHLIGHT_PAIR: i16 = 1;

/// Colour pair of titles.
pub const TITLE_PAIR: i16 = 2;

/// A piece of text to draw at a screen position with a colour pair.
#[derive(Debug)]
pub struct Label {
    pub row: usize,
    pub col: usize,
    pub text: String,
    pub pair: i16,
}

/// Where the next label goes, and the current item of the open list, if a
/// list is open.
#[derive(Debug)]
pub struct Ui {
    pub list_curr: Option<usize>,
    pub row: usize,
    pub col: usize,
}

impl Ui {
    /// No list open, at the top left corner.
    pub fn new() -> (r: Ui)
        ensures
            r.list_curr is None,
            r.row == 0,
            r.col == 0,
    {
        Ui { list_curr: None, row: 0, col: 0 }
    }

    /// Starts a frame at `row`, `col`.
    pub fn begin(&mut self, row: usize, col: usize)
        ensures
            final(self).row == row,
            final(self).col == col,
            final(self).list_curr == old(self).list_curr,
    {
        self.row = row;
        self.col = col;
    }

    /// Ends a frame.
    pub fn end(&mut self)
        ensures
            *final(self) == *old(self),
    {
    }

    /// Opens a list whose current item is `id`. Lists do not nest.
    pub fn begin_list(&mut self, id: usize)
        requires
            old(self).list_curr is None,
        ensures
            final(self).list_curr == Some(id),
            final(self).row == old(self).row,
            final(self).col == old(self).col,
    {
        self.list_curr = Some(id);
    }

    /// Closes the open list.
    pub fn end_list(&mut self)
        ensures
            final(self).list_curr is None,
            final(self).row == old(self).row,
            final(self).col == old(self).col,
    {
        self.list_curr = None;
    }

    /// An item of the open list: `- [ ] ` and the text, highlighted when
    /// `id` is the current item; the next label goes one row lower.
    pub fn list_element(&mut self, label: &str, id: usize) -> (r: Label)
        requires
            old(self).list_curr is Some,
            old(self).row < usize::MAX,
        ensures
            r.row == old(self).row,
            r.col == old(self).col,
            r.text@ == "- [ ] "@ + label@,
            r.pair == if old(self).list_curr == Some(id) {
                HIGHLIGHT_PAIR
            } else {
                REGULAR_PAIR
            },
            final(self).row == old(self).row + 1,
            final(self).col == old(self).col,
            final(self).list_curr == old(self).list_curr,
    {
        let pair = match self.list_curr {
            Some(curr) => if curr == id {
                HIGHLIGHT_PAIR
            } else {
                REGULAR_PAIR
            },
            None => REGULAR_PAIR,
        };
        let mut text = String::from_str("- [ ] ");
        text.append(label);
        self.label(text, pair)
    }

    /// `text` in colour pair `pair` at the current position; the next label
    /// goes one row lower.
    pub fn label(&mut self, text: String, pair: i16) -> (r: Label)
        requires
            old(self).row < usize::MAX,
        ensures
            r.row == old(self).row,
            r.col == old(self).col,
            r.text == text,
            r.pair == pair,
            final(self).row == old(self).row + 1,
            final(self).col == old(self).col,
            final(self).list_curr == old(self).list_curr,
    {
        let r = Label { row: self.row, col: self.col, text, pair };
        self.row = self.row + 1;
        r
    }
}

} // verus!
