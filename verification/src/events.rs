//! What each navigation event does to the state, and what the caller has to
//! do in turn.
//!
//! Navigation intents come from the user interface, on its own execution
//! context. The back gesture comes from the host platform, on any thread. The
//! functions here change the state and return the command for the user
//! interface; the caller delivers it.

use vstd::prelude::*;
use crate::navigation_handler::{
    after_pop, after_push, can_pop, pop_to_previous, push_page, NavigationState,
};

verus! {

/// What the host platform should do after a back gesture.
#[derive(Clone, Copy, Debug, PartialEq, Eq)]
pub enum ExitDecision {
    /// The gesture was handled by going back one page.
    ContinueApp,
    /// Nothing is left to go back to.
    ExitApp,
}

impl ExitDecision {
    /// The answer in the form the host platform expects: `true` means that
    /// the application should exit.
    pub fn exits(self) -> (exit: bool)
        ensures
            exit == (self is ExitApp),
    {
        match self {
            ExitDecision::ExitApp => true,
            ExitDecision::ContinueApp => false,
        }
    }
}

/// How a command has to reach the user interface.
#[derive(Clone, Copy, Debug, PartialEq, Eq)]
pub enum Delivery {
    /// The event arrived on the execution context of the user interface: the
    /// command is applied in place.
    Immediate,
    /// The event arrived elsewhere: the command is posted to the execution
    /// context of the user interface and applied there.
    Deferred,
}

/// The command "show this page as the current page".
#[derive(Debug, PartialEq, Eq)]
pub struct UiCommand<P> {
    pub page: P,
    pub delivery: Delivery,
}

/// The result of a back gesture of the host platform.
#[derive(Debug, PartialEq, Eq)]
pub struct BackOutcome<P> {
    pub decision: ExitDecision,
    pub command: Option<UiCommand<P>>,
}

/// The command that follows a step back from `model`: the page below the
/// current one where there is one, nothing otherwise.
pub open spec fn command_after_pop<P>(model: Option<Seq<P>>, delivery: Delivery) -> Option<
    UiCommand<P>,
> {
    match model {
        Some(pages) if pages.len() > 1 => Some(
            UiCommand { page: pages[pages.len() - 2], delivery },
        ),
        _ => None,
    }
}

/// The command that follows a forward step to `page`: none on an
/// uninitialized model.
pub open spec fn command_after_push<P>(model: Option<Seq<P>>, page: P) -> Option<UiCommand<P>> {
    match model {
        Some(_) => Some(UiCommand { page, delivery: Delivery::Immediate }),
        None => None,
    }
}

/// The outcome of a back gesture on `model`: the application goes on, with a
/// deferred command, exactly where a page can be popped.
pub open spec fn back_outcome<P>(model: Option<Seq<P>>) -> BackOutcome<P> {
    BackOutcome {
        decision: if can_pop(model) {
            ExitDecision::ContinueApp
        } else {
            ExitDecision::ExitApp
        },
        command: command_after_pop(model, Delivery::Deferred),
    }
}

/// An event that reaches the navigation state.
pub enum NavigationEvent<P> {
    /// The user interface asks to show a page.
    NavigateTo(P),
    /// The user interface asks to go back.
    NavigateBack,
    /// The host platform reports a back gesture.
    HostBack,
}

/// The model that an event leaves behind.
pub open spec fn after_event<P>(model: Option<Seq<P>>, event: NavigationEvent<P>) -> Option<
    Seq<P>,
> {
    match event {
        NavigationEvent::NavigateTo(page) => after_push(model, page),
        NavigationEvent::NavigateBack => after_pop(model),
        NavigationEvent::HostBack => after_pop(model),
    }
}

/// The command that an event on `model` gives rise to.
pub open spec fn command_of<P>(model: Option<Seq<P>>, event: NavigationEvent<P>) -> Option<
    UiCommand<P>,
> {
    match event {
        NavigationEvent::NavigateTo(page) => command_after_push(model, page),
        NavigationEvent::NavigateBack => command_after_pop(model, Delivery::Immediate),
        NavigationEvent::HostBack => command_after_pop(model, Delivery::Deferred),
    }
}

/// The model after a history of events, handled one at a time in their order.
pub open spec fn after_events<P>(
    model: Option<Seq<P>>,
    events: Seq<NavigationEvent<P>>,
) -> Option<Seq<P>>
    decreases events.len(),
{
    if events.len() == 0 {
        model
    } else {
        after_event(after_events(model, events.drop_last()), events.last())
    }
}

/// The user interface asks to show `page`. The page is pushed and the user
/// interface is told to show it, in place. Before initialization the intent
/// is ignored: nothing is pushed and nothing is shown.
pub fn on_navigate_to<P: Copy>(state: &mut NavigationState<P>, page: P) -> (command: Option<
    UiCommand<P>,
>)
    ensures
        final(state)@ == after_event(old(state)@, NavigationEvent::NavigateTo(page)),
        command == command_of(old(state)@, NavigationEvent::NavigateTo(page)),
{
    if state.is_initialized() {
        push_page(state, page);
        Some(UiCommand { page, delivery: Delivery::Immediate })
    } else {
        None
    }
}

/// The user interface asks to go back. Where a page can be popped, the user
/// interface is told to show the page below it, in place; otherwise nothing
/// changes and nothing is shown.
pub fn on_navigate_back<P: Copy>(state: &mut NavigationState<P>) -> (command: Option<UiCommand<P>>)
    ensures
        final(state)@ == after_event(old(state)@, NavigationEvent::NavigateBack),
        command == command_of(old(state)@, NavigationEvent::NavigateBack),
{
    match pop_to_previous(state) {
        Some(page) => Some(UiCommand { page, delivery: Delivery::Immediate }),
        None => None,
    }
}

/// The host platform reports a back gesture. Where a page can be popped, the
/// application goes on and the user interface is told, by a deferred command,
/// to show the page below it. On a state that is at its root or uninitialized
/// nothing changes, nothing is shown, and the application should exit.
pub fn on_host_back_request<P: Copy>(state: &mut NavigationState<P>) -> (outcome: BackOutcome<P>)
    ensures
        final(state)@ == after_event(old(state)@, NavigationEvent::HostBack),
        outcome == back_outcome(old(state)@),
{
    match pop_to_previous(state) {
        Some(page) => BackOutcome {
            decision: ExitDecision::ContinueApp,
            command: Some(UiCommand { page, delivery: Delivery::Deferred }),
        },
        None => BackOutcome { decision: ExitDecision::ExitApp, command: None },
    }
}

} // verus!
