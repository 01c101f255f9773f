//! Selection and scroll position of a list shown through a viewport.

use vstd::prelude::*;

verus! {

/// A step of the selection through the visible list.
#[derive(Debug, Clone, Copy, PartialEq, Eq, Structural)]
pub enum NavigationDirection {
    Up,
    Down,
}

/// Tracks which row of the visible list is selected and which row is the
/// first one shown, so that the selection stays inside the viewport.
#[derive(Debug)]
pub struct ListStateManager {
    pub scroll_offset: usize,
    pub selected_index: usize,
    pub max_display_items: Option<usize>,
    pub highlighted: bool,
}

/// The height of the viewport in rows: zero until it is known.
pub open spec fn height_of(max_display_items: Option<usize>) -> int {
    match max_display_items {
        Some(h) => h as int,
        None => 0,
    }
}

/// Where a selection of `target` puts the selected row, among `total` rows.
pub open spec fn clamp_index(target: int, total: int) -> int {
    if total <= 0 {
        0
    } else if target > total - 1 {
        total - 1
    } else {
        target
    }
}

/// The first shown row after selecting row `sel`, from first shown row
/// `scroll`, with a viewport of `h` rows over `total` rows.
pub open spec fn scroll_for(sel: int, scroll: int, h: int, total: int) -> int {
    let moved = if sel < scroll {
        sel
    } else if sel >= scroll + h {
        sel - h + 1
    } else {
        scroll
    };
    let limit = if total > h {
        total - h
    } else {
        0
    };
    if moved < limit {
        moved
    } else {
        limit
    }
}

/// The row one step from `index` in `direction`, wrapping around at both
/// ends of `total` rows.
pub open spec fn step_index(index: int, direction: NavigationDirection, total: int) -> int {
    match direction {
        NavigationDirection::Down => if index >= total - 1 {
            0
        } else {
            index + 1
        },
        NavigationDirection::Up => if index == 0 {
            total - 1
        } else {
            index - 1
        },
    }
}

/// The selected row lies inside the viewport.
pub open spec fn selection_visible(sel: int, scroll: int, h: int) -> bool {
    scroll <= sel < scroll + h
}

/// The state after selecting row `index` of `total` visible rows from `l`.
pub open spec fn selected_after(l: ListStateManager, index: int, total: int) -> ListStateManager {
    let sel = clamp_index(index, total);
    ListStateManager {
        scroll_offset: scroll_for(sel, l.scroll_offset as int, l.spec_height(), total) as usize,
        selected_index: sel as usize,
        max_display_items: l.max_display_items,
        highlighted: true,
    }
}

/// Whenever the visible list is non-empty and the viewport has at least one
/// row, the row that a selection lands on is inside the viewport that the
/// selection scrolls to, whatever the target row and the previous scroll.
pub proof fn lemma_selection_stays_visible(target: int, scroll: int, h: int, total: int)
    requires
        total > 0,
        h > 0,
        target >= 0,
        scroll >= 0,
    ensures
        selection_visible(clamp_index(target, total), scroll_for(clamp_index(target, total), scroll, h, total), h),
        0 <= clamp_index(target, total) < total,
{
}

impl ListStateManager {
    /// The viewport height that the scroll arithmetic uses.
    pub open spec fn spec_height(&self) -> int {
        height_of(self.max_display_items)
    }

    /// The state before anything is selected or scrolled.
    pub open spec fn spec_new() -> ListStateManager {
        ListStateManager { scroll_offset: 0, selected_index: 0, max_display_items: None, highlighted: false }
    }

    /// Nothing selected or scrolled yet, and no known viewport height.
    pub fn new() -> (r: ListStateManager)
        ensures
            r == ListStateManager::spec_new(),
    {
        ListStateManager { scroll_offset: 0, selected_index: 0, max_display_items: None, highlighted: false }
    }

    /// Selects row `index` of `total_items` visible rows, clamped into the
    /// list, and moves the first shown row as little as needed to keep the
    /// selection inside the viewport, never past the last full screen.
    pub fn select(&mut self, index: usize, total_items: usize)
        ensures
            *final(self) == selected_after(*old(self), index as int, total_items as int),
            total_items > 0 && old(self).spec_height() > 0 ==> selection_visible(
                final(self).selected_index as int,
                final(self).scroll_offset as int,
                final(self).spec_height(),
            ),
    {
        let h: usize = match self.max_display_items {
            Some(h) => h,
            None => 0,
        };
        let sel: usize = if total_items == 0 {
            0
        } else if index > total_items - 1 {
            total_items - 1
        } else {
            index
        };
        self.selected_index = sel;
        self.highlighted = true;
        let mut scroll = self.scroll_offset;
        if sel < scroll {
            scroll = sel;
        } else if sel - scroll >= h {
            scroll = sel + 1 - h;
        }
        let limit: usize = if total_items > h {
            total_items - h
        } else {
            0
        };
        if scroll > limit {
            scroll = limit;
        }
        self.scroll_offset = scroll;
    }

    /// Moves the selection one row in `direction` among `total_items` rows,
    /// wrapping from the last row to the first and back; with no rows it
    /// does nothing. Returns the row selected afterwards.
    pub fn move_selection(&mut self, direction: NavigationDirection, total_items: usize) -> (r:
        usize)
        ensures
            total_items == 0 ==> *final(self) == *old(self),
            total_items > 0 ==> *final(self) == selected_after(
                *old(self),
                step_index(old(self).selected_index as int, direction, total_items as int),
                total_items as int,
            ),
            r == final(self).selected_index,
            total_items > 0 && old(self).spec_height() > 0 ==> selection_visible(
                final(self).selected_index as int,
                final(self).scroll_offset as int,
                final(self).spec_height(),
            ),
    {
        if total_items == 0 {
            return self.selected_index;
        }
        let current = self.selected_index;
        let target: usize = match direction {
            NavigationDirection::Down => if current >= total_items - 1 {
                0
            } else {
                current + 1
            },
            NavigationDirection::Up => if current == 0 {
                total_items - 1
            } else {
                current - 1
            },
        };
        self.select(target, total_items);
        self.selected_index
    }

    /// The selected row.
    pub fn get_index(&self) -> (r: usize)
        ensures
            r == self.selected_index,
    {
        self.selected_index
    }

    /// Whether a row is shown as selected.
    pub fn is_highlighted(&self) -> (r: bool)
        ensures
            r == self.highlighted,
    {
        self.highlighted
    }

    /// The viewport height in rows, zero while unknown.
    pub fn viewport_height(&self) -> (r: usize)
        ensures
            r as int == self.spec_height(),
    {
        match self.max_display_items {
            Some(h) => h,
            None => 0,
        }
    }

    /// Records the viewport height; the selection and scroll stay as they
    /// are until the next `select`.
    pub fn set_viewport_height(&mut self, height: usize)
        ensures
            final(self).max_display_items == Some(height),
            final(self).scroll_offset == old(self).scroll_offset,
            final(self).selected_index == old(self).selected_index,
            final(self).highlighted == old(self).highlighted,
    {
        self.max_display_items = Some(height);
    }

    /// Sets the first shown row.
    pub fn set_scroll_offset(&mut self, offset: usize)
        ensures
            final(self).scroll_offset == offset,
            final(self).max_display_items == old(self).max_display_items,
            final(self).selected_index == old(self).selected_index,
            final(self).highlighted == old(self).highlighted,
    {
        self.scroll_offset = offset;
    }

    /// Stops showing a row as selected; the selected row is kept.
    pub fn clear_selection(&mut self)
        ensures
            !final(self).highlighted,
            final(self).scroll_offset == old(self).scroll_offset,
            final(self).max_display_items == old(self).max_display_items,
            final(self).selected_index == old(self).selected_index,
    {
        self.highlighted = false;
    }

    /// Shows one row earlier, unless the first row is already shown.
    pub fn scroll_up(&mut self)
        ensures
            final(self).scroll_offset == if old(self).scroll_offset > 0 {
                (old(self).scroll_offset - 1) as usize
            } else {
                0
            },
            final(self).max_display_items == old(self).max_display_items,
            final(self).selected_index == old(self).selected_index,
            final(self).highlighted == old(self).highlighted,
    {
        if self.scroll_offset > 0 {
            self.scroll_offset = self.scroll_offset - 1;
        }
    }

    /// Shows one row later, unless the last of `total_items` rows is
    /// already inside the viewport.
    pub fn scroll_down(&mut self, total_items: usize)
        ensures
            final(self).scroll_offset == if old(self).scroll_offset + old(self).spec_height()
                < total_items {
                (old(self).scroll_offset + 1) as usize
            } else {
                old(self).scroll_offset
            },
            final(self).max_display_items == old(self).max_display_items,
            final(self).selected_index == old(self).selected_index,
            final(self).highlighted == old(self).highlighted,
    {
        let h = self.viewport_height();
        if self.scroll_offset < total_items && h < total_items - self.scroll_offset {
            self.scroll_offset = self.scroll_offset + 1;
        }
    }
}

} // verus!
