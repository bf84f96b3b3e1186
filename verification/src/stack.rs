//! The stack of visited pages.

use vstd::prelude::*;

verus! {

/// The ordered history of visited pages; the last page is the current one.
///
/// The root page is held apart from the pages opened above it, so a stack
/// without a root cannot be built and no operation can remove the root.
pub struct NavigationStack<P> {
    root: P,
    above: Vec<P>,
}

impl<P> View for NavigationStack<P> {
    type V = Seq<P>;

    /// The pages from the root (index 0) to the current page (last index).
    closed spec fn view(&self) -> Seq<P> {
        seq![self.root] + self.above@
    }
}

impl<P> NavigationStack<P> {
    /// A stack never is empty.
    pub proof fn lemma_rooted(&self)
        ensures
            self@.len() >= 1,
    {
    }

    /// The stack that holds `root` alone.
    pub fn new(root: P) -> (stack: Self)
        ensures
            stack@ == seq![root],
    {
        let stack = NavigationStack { root, above: Vec::new() };
        assert(stack@ =~= seq![root]);
        stack
    }

    /// Makes `page` the current page.
    pub fn push(&mut self, page: P)
        ensures
            final(self)@ == old(self)@.push(page),
    {
        self.above.push(page);
        assert(self@ =~= old(self)@.push(page));
    }

    /// Leaves the current page, unless it is the root: returns whether a page
    /// was removed.
    pub fn pop(&mut self) -> (popped: bool)
        ensures
            popped == (old(self)@.len() > 1),
            popped ==> final(self)@ == old(self)@.drop_last(),
            !popped ==> final(self)@ == old(self)@,
    {
        if self.above.len() > 0 {
            self.above.pop();
            assert(self@ =~= old(self)@.drop_last());
            true
        } else {
            false
        }
    }
}

impl<P: Copy> NavigationStack<P> {
    /// The current page.
    pub fn peek(&self) -> (page: P)
        ensures
            self@.len() >= 1,
            page == self@.last(),
    {
        let above: usize = self.above.len();
        if above == 0 {
            self.root
        } else {
            self.above[above - 1]
        }
    }
}

} // verus!
