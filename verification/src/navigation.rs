//! Tab navigation over the command pages.

use crate::pages::{default_page_by_type, is_default_page_of, Page, PageAdd, PageType};
use vstd::prelude::*;

verus! {

/// Which command page is currently open.
pub struct LegacyCommandsNavigation {
    pub current_page: Page,
}

impl Default for LegacyCommandsNavigation {
    /// Navigation opens on a fresh add page.
    fn default() -> (n: LegacyCommandsNavigation)
        ensures
            n.current_page.spec_page_type() == PageType::Add,
            is_default_page_of(n.current_page, PageType::Add),
    {
        LegacyCommandsNavigation { current_page: Page::Add(PageAdd::default()) }
    }
}

impl LegacyCommandsNavigation {
    /// Tab selection: picking the tab already open keeps the page and its
    /// form contents; picking another tab replaces the page with that tab's
    /// fresh default page.
    pub fn switch_to(&mut self, target: PageType)
        ensures
            target == old(self).current_page.spec_page_type() ==> *final(self) == *old(self),
            target != old(self).current_page.spec_page_type() ==> is_default_page_of(
                final(self).current_page,
                target,
            ) && final(self).current_page.spec_page_type() == target,
    {
        let current = self.current_page.page_type();
        if current != target {
            self.current_page = default_page_by_type(&target);
        }
    }
}

} // verus!
