//! Laws of the navigation model, proved over the spec functions that the
//! contracts of the operations are stated in.

use vstd::prelude::*;
use crate::events::{
    after_events, back_outcome, command_after_pop, command_after_push, command_of, Delivery,
    NavigationEvent,
};
use crate::navigation_handler::{
    after_init, after_pop, after_push, can_pop, root, top, valid,
};

verus! {

/// The model after `count` steps back in a row.
pub open spec fn after_pops<P>(model: Option<Seq<P>>, count: nat) -> Option<Seq<P>>
    decreases count,
{
    if count == 0 {
        model
    } else {
        after_pops(after_pop(model), (count - 1) as nat)
    }
}

/// Every operation keeps a valid model valid, keeps an initialized model
/// initialized, and keeps its root in place.
pub proof fn law_operations_keep_root<P>(model: Option<Seq<P>>, page: P)
    requires
        valid(model),
    ensures
        valid(after_init(model, page)),
        valid(after_push(model, page)),
        valid(after_pop(model)),
        after_init(model, page) is Some,
        model is Some ==> {
            &&& root(after_init(model, page)) == root(model)
            &&& root(after_push(model, page)) == root(model)
            &&& root(after_pop(model)) == root(model)
            &&& after_push(model, page) is Some
            &&& after_pop(model) is Some
        },
{
}

/// No number of steps back empties an initialized stack: the pages that are
/// left are the first `max(1, len - count)` ones, so the root stays where it
/// is, a current page can always be read, and once every page above the root
/// has been left the current page is the root.
pub proof fn law_root_survives_pops<P>(model: Option<Seq<P>>, count: nat)
    requires
        valid(model),
    ensures
        valid(after_pops(model, count)),
        model is None ==> after_pops(model, count) is None,
        model matches Some(pages) ==> {
            &&& after_pops(model, count) == Some(
                pages.take(
                    if count < pages.len() {
                        pages.len() - count
                    } else {
                        1
                    },
                ),
            )
            &&& root(after_pops(model, count)) == root(model)
            &&& top(after_pops(model, count)) is Some
            &&& count + 1 >= pages.len() ==> top(after_pops(model, count)) == root(model)
        },
    decreases count,
{
    if count > 0 {
        law_root_survives_pops(after_pop(model), (count - 1) as nat);
        if let Some(pages) = model {
            let kept: int = if count < pages.len() {
                pages.len() - count
            } else {
                1
            };
            if pages.len() > 1 {
                assert(pages.drop_last().take(kept) =~= pages.take(kept));
            }
        }
    } else if let Some(pages) = model {
        assert(pages.take(pages.len() as int) =~= pages);
    }
}

/// Pushing a page onto an initialized stack and stepping back at once removes
/// that page again: the step back succeeds and the stack, and with it the
/// current page, is what it was before the push.
pub proof fn law_push_then_pop<P>(model: Option<Seq<P>>, page: P)
    requires
        valid(model),
        model is Some,
    ensures
        can_pop(after_push(model, page)),
        after_pop(after_push(model, page)) == model,
        top(after_pop(after_push(model, page))) == top(model),
{
    let pages = model->0;
    assert(pages.push(page).drop_last() =~= pages);
}

/// A stack that holds only its root cannot be popped: the step back fails and
/// changes nothing.
pub proof fn law_pop_at_root<P>(model: Option<Seq<P>>)
    requires
        model matches Some(pages) && pages.len() == 1,
    ensures
        !can_pop(model),
        after_pop(model) == model,
{
}

/// A back gesture of the host asks for the exit exactly when the stack holds
/// its root alone or the state is uninitialized, and then it changes nothing
/// and commands nothing. Otherwise the application goes on, and the page that
/// is current afterwards is the one that was second from the top.
pub proof fn law_exit_decision<P>(model: Option<Seq<P>>)
    requires
        valid(model),
    ensures
        back_outcome(model).decision is ExitApp <==> (model matches Some(pages) ==> pages.len()
            == 1),
        back_outcome(model).decision is ExitApp ==> {
            &&& back_outcome(model).command is None
            &&& after_pop(model) == model
        },
        back_outcome(model).decision is ContinueApp ==> {
            &&& model is Some
            &&& top(after_pop(model)) == Some(model->0[model->0.len() - 2])
        },
{
}

/// Every command shows the page that is current in the state that the event
/// left behind, so the user interface and the stack move in step; a command
/// that follows a back gesture of the host is deferred, one that follows an
/// intent of the user interface is applied in place.
pub proof fn law_command_shows_current_page<P>(model: Option<Seq<P>>, page: P, delivery: Delivery)
    ensures
        command_after_push(model, page) is Some <==> model is Some,
        command_after_push(model, page) matches Some(command) ==> {
            &&& Some(command.page) == top(after_push(model, page))
            &&& command.delivery is Immediate
        },
        command_after_pop(model, delivery) is Some <==> can_pop(model),
        command_after_pop(model, delivery) matches Some(command) ==> {
            &&& Some(command.page) == top(after_pop(model))
            &&& command.delivery == delivery
        },
        back_outcome(model).command == command_after_pop(model, Delivery::Deferred),
{
}

/// Whatever events arrive, and in whatever order the two sources interleave,
/// as long as they are handled one at a time: the state stays valid, an
/// initialized state keeps its root, and an uninitialized state stays so.
pub proof fn law_history_keeps_root<P>(model: Option<Seq<P>>, events: Seq<NavigationEvent<P>>)
    requires
        valid(model),
    ensures
        valid(after_events(model, events)),
        model is Some ==> root(after_events(model, events)) == root(model),
        model is None ==> after_events(model, events) is None,
    decreases events.len(),
{
    if events.len() > 0 {
        law_history_keeps_root(model, events.drop_last());
    }
}

/// In a history of events that are handled one at a time, the command of each
/// event shows the page that is current right after that event, before the
/// next one is handled.
pub proof fn law_commands_follow_history<P>(
    model: Option<Seq<P>>,
    events: Seq<NavigationEvent<P>>,
    index: int,
)
    requires
        0 <= index < events.len(),
    ensures
        command_of(after_events(model, events.take(index)), events[index]) matches Some(command)
            ==> Some(command.page) == top(after_events(model, events.take(index + 1))),
{
    let handled = events.take(index + 1);
    assert(handled.drop_last() =~= events.take(index));
    assert(handled.last() == events[index]);
}

} // verus!
