use vstd::prelude::*;

use crate::errors::Error;

verus! {

/// A server event, reduced to what the watch reads of it.
#[derive(Debug, Clone, Copy, PartialEq, Eq, Structural)]
pub enum WindowEvent {
    /// A window was created.
    Created { window: u32 },
    /// An attribute of a window was changed.
    PropertyChanged { window: u32, atom: u32 },
    /// Any other kind of event.
    Ignored,
}

/// What to do with one event.
#[derive(Debug, Clone, Copy, PartialEq, Eq, Structural)]
pub enum Dispatch {
    /// Run the action on this window.
    Invoke(u32),
    /// List the attributes of this newly created window, then decide.
    InspectProperties(u32),
    /// Nothing.
    Skip,
}

/// The decision for one event.
pub open spec fn dispatch_of(event: WindowEvent, marker: u32) -> Dispatch {
    match event {
        WindowEvent::Created { window } => Dispatch::InspectProperties(window),
        WindowEvent::PropertyChanged { window, atom } => if atom == marker {
            Dispatch::Invoke(window)
        } else {
            Dispatch::Skip
        },
        WindowEvent::Ignored => Dispatch::Skip,
    }
}

/// The window that the action runs on once a created window's attributes have
/// been listed: the window itself when the listing names the marker.
pub open spec fn created_target(window: u32, marker: u32, listed: Result<Seq<u32>, ()>) -> Option<u32> {
    match listed {
        Ok(atoms) => if atoms.contains(marker) {
            Some(window)
        } else {
            None
        },
        Err(_) => None,
    }
}

/// A listing of attributes, with the reason for a failure dropped.
pub open spec fn listing_view(listed: Result<Vec<u32>, Error>) -> Result<Seq<u32>, ()> {
    match listed {
        Ok(atoms) => Ok(atoms@),
        Err(_) => Err(()),
    }
}

/// The window that the action runs on for one event, given what listing a
/// created window's attributes returns.
pub open spec fn action_target(event: WindowEvent, marker: u32, listed: Result<Seq<u32>, ()>) -> Option<u32> {
    match dispatch_of(event, marker) {
        Dispatch::Invoke(w) => Some(w),
        Dispatch::InspectProperties(w) => created_target(w, marker, listed),
        Dispatch::Skip => None,
    }
}

/// An event that marks its window: a created window that lists the marker,
/// or a change of the marker attribute itself.
pub open spec fn marks_window(event: WindowEvent, marker: u32, listed: Result<Seq<u32>, ()>) -> bool {
    match event {
        WindowEvent::Created { .. } => listed is Ok && listed->Ok_0.contains(marker),
        WindowEvent::PropertyChanged { atom, .. } => atom == marker,
        WindowEvent::Ignored => false,
    }
}

/// Classifies one event.
pub fn process_event(event: &WindowEvent, marker: u32) -> (r: Dispatch)
    ensures
        r == dispatch_of(*event, marker),
{
    match event {
        WindowEvent::Created { window } => Dispatch::InspectProperties(*window),
        WindowEvent::PropertyChanged { window, atom } => {
            if *atom == marker {
                Dispatch::Invoke(*window)
            } else {
                Dispatch::Skip
            }
        },
        WindowEvent::Ignored => Dispatch::Skip,
    }
}

/// Decides on a created window from the listing of its attributes; a failed
/// listing means that the window is already gone.
pub fn process_create_event(window: u32, marker: u32, listed: &Result<Vec<u32>, Error>) -> (r:
    Option<u32>)
    ensures
        r == created_target(window, marker, listing_view(*listed)),
{
    match listed {
        Err(_) => None,
        Ok(atoms) => {
            let mut i: usize = 0;
            while i < atoms.len()
                invariant
                    i <= atoms@.len(),
                    listing_view(*listed) == Ok::<Seq<u32>, ()>(atoms@),
                    forall|j: int| 0 <= j < i ==> atoms@[j] != marker,
                decreases atoms@.len() - i,
            {
                if atoms[i] == marker {
                    assert(atoms@[i as int] == marker);
                    assert(atoms@.contains(marker));
                    return Some(window);
                }
                i = i + 1;
            }
            None
        },
    }
}

/// An event that does not mark its window never runs the action.
pub proof fn lemma_unmarked_never_acted_on(event: WindowEvent, marker: u32, listed: Result<Seq<u32>, ()>)
    requires
        !marks_window(event, marker, listed),
    ensures
        action_target(event, marker, listed) is None,
{
}

/// An event that marks its window runs the action once, on that window.
pub proof fn lemma_marked_acted_on_once(event: WindowEvent, marker: u32, listed: Result<Seq<u32>, ()>)
    requires
        marks_window(event, marker, listed),
    ensures
        action_target(event, marker, listed) == Some(
            match event {
                WindowEvent::Created { window } => window,
                WindowEvent::PropertyChanged { window, .. } => window,
                WindowEvent::Ignored => 0u32,
            },
        ),
{
}

} // verus!
