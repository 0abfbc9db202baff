//! Paging arithmetic for long lists: pages of `size` records, numbered from
//! one, shown in windows of eight page links.

use vstd::prelude::*;

verus! {

/// Page links shown at a time.
pub const SPAN: usize = 8;

/// Records per page unless chosen otherwise.
pub const DEFAULT_PAGE_SIZE: usize = 18;

/// A position in a paged list: `total` records, current page `index`
/// (from one), `size` records per page.
#[derive(Clone, Copy, Debug, PartialEq, Eq, Structural)]
pub struct Page {
    pub total: usize,
    pub index: usize,
    pub size: usize,
}

impl Default for Page {
    fn default() -> (r: Self)
        ensures
            r == (Page { total: 0, index: 1, size: DEFAULT_PAGE_SIZE }),
    {
        Page { total: 0, index: 1, size: DEFAULT_PAGE_SIZE }
    }
}

impl Page {
    /// Number of pages; one where there are no records.
    pub open spec fn spec_page_total(self) -> int {
        if self.total == 0 {
            1
        } else {
            (self.total - 1) / (self.size as int) + 1
        }
    }

    /// First page of the window that holds the current page.
    pub open spec fn spec_page_start(self) -> int {
        ((self.index - 1) / (SPAN as int)) * (SPAN as int) + 1
    }

    /// Number of pages; one where there are no records.
    pub fn page_total(&self) -> (r: usize)
        requires
            self.size > 0,
        ensures
            r == self.spec_page_total(),
    {
        let t = if self.total > 1 {
            self.total
        } else {
            1
        };
        (t - 1) / self.size + 1
    }

    /// First page of the window that holds the current page.
    pub fn page_start(&self) -> (r: usize)
        requires
            self.index >= 1,
        ensures
            r == self.spec_page_start(),
    {
        proof {
            assert(((self.index - 1) / (SPAN as int)) * (SPAN as int) <= self.index - 1) by (nonlinear_arith);
        }
        ((self.index - 1) / SPAN) * SPAN + 1
    }

    /// Last page of the window that holds the current page, at most the
    /// number of pages.
    pub fn page_end(&self) -> (r: usize)
        requires
            self.index >= 1,
            self.size > 0,
        ensures
            r == if self.spec_page_start() + SPAN - 1 <= self.spec_page_total() {
                self.spec_page_start() + SPAN - 1
            } else {
                self.spec_page_total()
            },
    {
        let start = self.page_start();
        let total = self.page_total();
        if start <= total && total - start >= SPAN - 1 {
            start + (SPAN - 1)
        } else {
            total
        }
    }

    /// Sets the number of records.
    pub fn change_total(&mut self, total: usize) -> (r: &mut Self)
        ensures
            *r == (Page { total, ..*old(self) }),
            *final(self) == *final(r),
    {
        self.total = total;
        self
    }

    /// Goes to the first page.
    pub fn to_start(&mut self) -> (r: &mut Self)
        ensures
            *r == (Page { index: 1, ..*old(self) }),
            *final(self) == *final(r),
    {
        self.index = 1;
        self
    }

    /// Goes to the last page.
    pub fn to_end(&mut self) -> (r: &mut Self)
        requires
            old(self).size > 0,
        ensures
            *r == (Page { index: old(self).spec_page_total() as usize, ..*old(self) }),
            *final(self) == *final(r),
    {
        self.index = self.page_total();
        self
    }

    /// Goes to page `index`.
    pub fn to(&mut self, index: usize) -> (r: &mut Self)
        ensures
            *r == (Page { index, ..*old(self) }),
            *final(self) == *final(r),
    {
        self.index = index;
        self
    }

    /// Goes to the next page.
    pub fn next(&mut self) -> (r: &mut Self)
        requires
            old(self).index < usize::MAX,
        ensures
            *r == (Page { index: (old(self).index + 1) as usize, ..*old(self) }),
            *final(self) == *final(r),
    {
        self.index = self.index + 1;
        self
    }

    /// Goes to the previous page.
    pub fn pre(&mut self) -> (r: &mut Self)
        requires
            old(self).index > 0,
        ensures
            *r == (Page { index: (old(self).index - 1) as usize, ..*old(self) }),
            *final(self) == *final(r),
    {
        self.index = self.index - 1;
        self
    }

    /// Whether the current page is the first.
    pub fn is_start(&self) -> (r: bool)
        ensures
            r == (self.index == 1),
    {
        self.index == 1
    }

    /// Whether the current page is the last.
    pub fn is_end(&self) -> (r: bool)
        requires
            self.size > 0,
        ensures
            r == (self.index == self.spec_page_total()),
    {
        self.index == self.page_total()
    }

    /// Whether `index` is the current page.
    pub fn is_active(&self, index: usize) -> (r: bool)
        ensures
            r == (self.index == index),
    {
        self.index == index
    }

    /// Sets the number of records per page.
    pub fn change_size(&mut self, size: usize) -> (r: &mut Self)
        ensures
            *r == (Page { size, ..*old(self) }),
            *final(self) == *final(r),
    {
        self.size = size;
        self
    }
}

} // verus!
