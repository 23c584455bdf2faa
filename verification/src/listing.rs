//! Paginated-listing accounting: one LIST operation walks pages until the
//! service reports no continuation.

use vstd::prelude::*;

verus! {

/// What one page of a paginated listing reports: how many items it held,
/// whether the listing was truncated (more pages follow), and the
/// continuation token to request the next page with, if any.
pub struct ListPage {
    pub item_count: usize,
    pub truncated: bool,
    pub next_token: Option<String>,
}

/// Whether the listing walks on to another page or is complete.
#[derive(Clone, Copy, PartialEq, Eq, Structural, Debug)]
pub enum ListStep {
    Continue,
    Done,
}

/// Running item total of one paginated listing operation.
pub struct ListProgress {
    pub total_items: u64,
}

impl ListProgress {
    /// A listing that has seen no page yet.
    pub fn new() -> (r: ListProgress)
        ensures
            r.total_items == 0,
    {
        ListProgress { total_items: 0 }
    }

    /// Folds one page into the running total and decides whether the listing
    /// continues: it does exactly when the service reported truncation. The
    /// total is exact whenever it fits in 64 bits and saturates otherwise.
    pub fn absorb_page(&mut self, page: &ListPage) -> (r: ListStep)
        ensures
            final(self).total_items == if old(self).total_items + page.item_count <= u64::MAX {
                old(self).total_items + page.item_count
            } else {
                u64::MAX as int
            },
            r == ListStep::Continue <==> page.truncated,
    {
        let count = page.item_count as u64;
        self.total_items = if count <= u64::MAX - self.total_items {
            self.total_items + count
        } else {
            u64::MAX
        };
        if page.truncated {
            ListStep::Continue
        } else {
            ListStep::Done
        }
    }
}

} // verus!
