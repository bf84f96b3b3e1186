//! The navigation state of the application and the operations on it.
//!
//! The state is modelled as an `Option<Seq<P>>`: `None` until the state has
//! been initialized, afterwards the pages from the root to the current page.

use vstd::prelude::*;
use crate::stack::NavigationStack;

verus! {

/// A model is valid when it is uninitialized or holds at least its root.
pub open spec fn valid<P>(model: Option<Seq<P>>) -> bool {
    model matches Some(pages) ==> pages.len() >= 1
}

/// The current page of a model, if it has been initialized.
pub open spec fn top<P>(model: Option<Seq<P>>) -> Option<P> {
    match model {
        Some(pages) => Some(pages.last()),
        None => None,
    }
}

/// The root page of a model, if it has been initialized.
pub open spec fn root<P>(model: Option<Seq<P>>) -> Option<P> {
    match model {
        Some(pages) => Some(pages.first()),
        None => None,
    }
}

/// Initializing sets an uninitialized model to its root and leaves an
/// initialized one as it is.
pub open spec fn after_init<P>(model: Option<Seq<P>>, root: P) -> Option<Seq<P>> {
    match model {
        Some(_) => model,
        None => Some(seq![root]),
    }
}

/// Pushing appends the page to an initialized model and leaves an
/// uninitialized one as it is.
pub open spec fn after_push<P>(model: Option<Seq<P>>, page: P) -> Option<Seq<P>> {
    match model {
        Some(pages) => Some(pages.push(page)),
        None => None,
    }
}

/// Only an initialized model with a page above its root can be popped.
pub open spec fn can_pop<P>(model: Option<Seq<P>>) -> bool {
    model matches Some(pages) && pages.len() > 1
}

/// Popping removes the last page where `can_pop` holds and changes nothing
/// where it does not.
pub open spec fn after_pop<P>(model: Option<Seq<P>>) -> Option<Seq<P>> {
    match model {
        Some(pages) if pages.len() > 1 => Some(pages.drop_last()),
        _ => model,
    }
}

/// The navigation state of the one navigation surface of the application:
/// uninitialized at first, a stack of pages once it has been given its root.
pub struct NavigationState<P> {
    stack: Option<NavigationStack<P>>,
}

impl<P> View for NavigationState<P> {
    type V = Option<Seq<P>>;

    closed spec fn view(&self) -> Option<Seq<P>> {
        match self.stack {
            Some(stack) => Some(stack@),
            None => None,
        }
    }
}

impl<P> NavigationState<P> {
    /// Every state is valid: once initialized it never is without its root.
    pub proof fn lemma_valid(&self)
        ensures
            valid(self@),
    {
        if let Some(stack) = self.stack {
            stack.lemma_rooted();
        }
    }

    /// The uninitialized state.
    pub fn new() -> (state: Self)
        ensures
            state@ is None,
    {
        NavigationState { stack: None }
    }

    /// Whether the state has been given its root page.
    pub fn is_initialized(&self) -> (initialized: bool)
        ensures
            initialized == (self@ is Some),
    {
        self.stack.is_some()
    }
}

/// Gives the state its root page. Only the first call has an effect: on a
/// state that has been initialized the call changes nothing.
pub fn init_navigation_state<P>(state: &mut NavigationState<P>, root: P)
    ensures
        final(state)@ == after_init(old(state)@, root),
{
    if state.stack.is_none() {
        state.stack = Some(NavigationStack::new(root));
    }
}

/// Makes `page` the current page. On an uninitialized state the call changes
/// nothing.
pub fn push_page<P>(state: &mut NavigationState<P>, page: P)
    ensures
        final(state)@ == after_push(old(state)@, page),
{
    match &mut state.stack {
        Some(stack) => {
            stack.push(page);
        },
        None => {},
    }
}

/// Goes back by one page. Returns `true` when a page was removed; on a state
/// that is uninitialized or at its root it changes nothing and returns
/// `false`.
pub fn pop_page<P>(state: &mut NavigationState<P>) -> (popped: bool)
    ensures
        popped == can_pop(old(state)@),
        final(state)@ == after_pop(old(state)@),
{
    match &mut state.stack {
        Some(stack) => stack.pop(),
        None => false,
    }
}

/// Goes back by one page and reports the page that is current afterwards, in
/// one step on the exclusively held state, so that no other operation can come
/// between the removal and the reading. Returns `None`, and changes nothing,
/// on a state that is uninitialized or at its root.
pub fn pop_to_previous<P: Copy>(state: &mut NavigationState<P>) -> (shown: Option<P>)
    ensures
        final(state)@ == after_pop(old(state)@),
        shown == (if can_pop(old(state)@) {
            top(after_pop(old(state)@))
        } else {
            None
        }),
{
    match &mut state.stack {
        Some(stack) => {
            if stack.pop() {
                Some(stack.peek())
            } else {
                None
            }
        },
        None => None,
    }
}

/// The current page: `None` only on an uninitialized state.
pub fn current_page<P: Copy>(state: &NavigationState<P>) -> (page: Option<P>)
    ensures
        page == top(state@),
{
    match &state.stack {
        Some(stack) => Some(stack.peek()),
        None => None,
    }
}

} // verus!
