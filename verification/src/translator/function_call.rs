//! The places between which a function call is translated, and the work
//! that the translation of a call may leave to be done.

use crate::net_model::Label;
use crate::petri_net_interface::{place_label, transition_label, Net};
use crate::translator::mir_function::memory::Value;
use crate::translator::sync::ThreadRef;
use netcrab::petri_net::{PlaceRef, TransitionRef};
use vstd::prelude::*;

verus! {

/// The places of a call site: where the call starts, where it ends, and
/// where it goes on if the called function unwinds.
pub struct FunctionPlaces {
    pub start_place: PlaceRef,
    pub end_place: PlaceRef,
    pub cleanup_place: Option<PlaceRef>,
}

/// The labels of the places of a call site.
pub struct FunctionPlacesModel {
    pub start: Label,
    pub end: Label,
    pub cleanup: Option<Label>,
}

impl View for FunctionPlaces {
    type V = FunctionPlacesModel;

    open spec fn view(&self) -> FunctionPlacesModel {
        FunctionPlacesModel {
            start: place_label(self.start_place),
            end: place_label(self.end_place),
            cleanup: match self.cleanup_place {
                Some(place) => Some(place_label(place)),
                None => None,
            },
        }
    }
}

impl FunctionPlaces {
    /// Whether the places are places of the net.
    pub open spec fn wf(&self, net: Net) -> bool {
        &&& net.has_place(self.start_place)
        &&& net.has_place(self.end_place)
        &&& self.cleanup_place is Some ==> net.has_place(self.cleanup_place->Some_0)
    }
}


/// Work that the translation of a call leaves to be done once the call
/// itself is wired into the net.
pub enum PostprocessingTask {
    /// The mutex that the call makes is to be added to the net, and the
    /// destination of the call is to denote it.
    NewMutex,
    /// The transitions that start and end a wait are to be linked to the
    /// condition variable and to the mutex that the arguments of the call denote.
    LinkWait { wait_start: TransitionRef, wait_end: TransitionRef },
    /// The body of a spawned thread is to be translated between the start
    /// place and the end place of the thread. `function` is the index of the
    /// thread's function in the program, `environment` what its first
    /// argument (the closure with its captured variables) denotes.
    NewThread { thread: ThreadRef, function: usize, environment: Value },
}

/// The mathematical model of a task: transitions are named by their labels.
pub enum PostprocessingTaskModel {
    NewMutex,
    LinkWait { wait_start: Label, wait_end: Label },
    NewThread { thread: ThreadRef, function: usize, environment: Value },
}

impl View for PostprocessingTask {
    type V = PostprocessingTaskModel;

    open spec fn view(&self) -> PostprocessingTaskModel {
        match *self {
            PostprocessingTask::NewMutex => PostprocessingTaskModel::NewMutex,
            PostprocessingTask::LinkWait { wait_start, wait_end } => PostprocessingTaskModel::LinkWait {
                wait_start: transition_label(wait_start),
                wait_end: transition_label(wait_end),
            },
            PostprocessingTask::NewThread {
                thread,
                function,
                environment,
            } => PostprocessingTaskModel::NewThread { thread, function, environment },
        }
    }
}

impl PostprocessingTask {
    /// Whether the transitions that the task holds are transitions of the net.
    pub open spec fn wf(&self, net: Net) -> bool {
        match *self {
            PostprocessingTask::LinkWait { wait_start, wait_end } => net.has_transition(wait_start)
                && net.has_transition(wait_end),
            _ => true,
        }
    }
}

/// The model of the task that a call leaves, if it leaves one.
pub open spec fn task_view(task: Option<PostprocessingTask>) -> Option<PostprocessingTaskModel> {
    match task {
        Some(task) => Some(task@),
        None => None,
    }
}

} // verus!
