use vstd::prelude::*;

use crate::scheduler::SignalId;

verus! {

/// Loading state of a file-backed model.
#[derive(Debug, Clone, PartialEq)]
pub enum FileState {
    Waiting,
    Loading { progress: u8 },
    Loaded,
    LoadError(String),
    TooCostly,
}

/// The progress, in percent, that a loading state stands for.
pub open spec fn state_progress(s: FileState) -> u8 {
    match s {
        FileState::Loading { progress } => progress,
        FileState::Loaded => 100,
        _ => 0,
    }
}

/// A loaded model reports 100 percent, a loading one the progress it
/// recorded, and a waiting, failed or too costly one 0 percent.
pub proof fn lemma_progress_of_states(s: FileState)
    ensures
        s is Loaded ==> state_progress(s) == 100u8,
        s matches FileState::Loading { progress } ==> state_progress(s) == progress,
        (s is Waiting || s is LoadError || s is TooCostly) ==> state_progress(s) == 0u8,
{
}

/// A file-backed data model with a loading state machine; continuing a load
/// is not available and fails the load.
pub struct FileModel<T> {
    data: Option<T>,
    path: String,
    state: FileState,
    change_signal: SignalId,
    memory_limit: usize,
}

impl<T> FileModel<T> {
    /// The loading state.
    pub closed spec fn state_view(&self) -> FileState {
        self.state
    }

    /// The loaded data, if any.
    pub closed spec fn data_view(&self) -> Option<T> {
        self.data
    }

    /// The path of the backing file.
    pub closed spec fn path_view(&self) -> Seq<char> {
        self.path@
    }

    /// The signal raised when the model changes.
    pub closed spec fn signal(&self) -> SignalId {
        self.change_signal
    }

    /// The memory limit for loading.
    pub closed spec fn limit(&self) -> usize {
        self.memory_limit
    }

    /// A model that waits to be loaded, without data and without memory limit.
    pub fn new(path: String, signal_id: SignalId) -> (m: Self)
        ensures
            m.state_view() is Waiting,
            m.data_view() is None,
            m.path_view() == path@,
            m.signal() == signal_id,
            m.limit() == usize::MAX,
    {
        FileModel {
            data: None,
            path,
            state: FileState::Waiting,
            change_signal: signal_id,
            memory_limit: usize::MAX,
        }
    }

    /// The loading state.
    pub fn state(&self) -> (s: &FileState)
        ensures
            *s == self.state_view(),
    {
        &self.state
    }

    /// The loaded data, if any.
    pub fn data(&self) -> (d: Option<&T>)
        ensures
            match self.data_view() {
                Some(x) => d == Some(&x),
                None => d is None,
            },
    {
        match &self.data {
            Some(x) => Some(x),
            None => None,
        }
    }

    /// The path of the backing file.
    pub fn path(&self) -> (p: &str)
        ensures
            p@ == self.path_view(),
    {
        self.path.as_str()
    }

    /// The signal raised when the model changes.
    pub fn change_signal(&self) -> (s: SignalId)
        ensures
            s == self.signal(),
    {
        self.change_signal
    }

    /// Set the memory limit for loading.
    pub fn set_memory_limit(&mut self, limit: usize)
        ensures
            final(self).limit() == limit,
            final(self).state_view() == old(self).state_view(),
            final(self).data_view() == old(self).data_view(),
            final(self).path_view() == old(self).path_view(),
            final(self).signal() == old(self).signal(),
    {
        self.memory_limit = limit;
    }

    /// Loading progress in percent: the recorded progress while loading, 100
    /// once loaded, 0 otherwise.
    pub fn progress(&self) -> (p: u8)
        ensures
            p == state_progress(self.state_view()),
    {
        match &self.state {
            FileState::Loading { progress } => *progress,
            FileState::Loaded => 100,
            _ => 0,
        }
    }

    /// Begin loading; only a waiting model starts (at progress 0). Reports
    /// whether the state changed.
    pub fn request_load(&mut self) -> (changed: bool)
        ensures
            changed == (old(self).state_view() is Waiting),
            changed ==> final(self).state_view() == (FileState::Loading { progress: 0 }),
            !changed ==> final(self).state_view() == old(self).state_view(),
            final(self).data_view() == old(self).data_view(),
            final(self).path_view() == old(self).path_view(),
            final(self).signal() == old(self).signal(),
            final(self).limit() == old(self).limit(),
    {
        if !matches!(self.state, FileState::Waiting) {
            return false;
        }
        self.state = FileState::Loading { progress: 0 };
        true
    }

    /// Continue loading: loading is not available, so a loading model fails
    /// with a load error saying so. Reports whether the state changed.
    pub fn try_continue_loading(&mut self) -> (changed: bool)
        ensures
            changed == (old(self).state_view() is Loading),
            changed ==> (final(self).state_view() matches FileState::LoadError(m) && m@
                == "loading not yet implemented"@),
            !changed ==> final(self).state_view() == old(self).state_view(),
            final(self).data_view() == old(self).data_view(),
            final(self).path_view() == old(self).path_view(),
            final(self).signal() == old(self).signal(),
            final(self).limit() == old(self).limit(),
    {
        if !matches!(self.state, FileState::Loading { .. }) {
            return false;
        }
        self.state = FileState::LoadError("loading not yet implemented".to_owned());
        true
    }

    /// Go back to waiting and drop the data. Reports whether anything
    /// changed (it does not when the model already waits without data).
    pub fn reset(&mut self) -> (changed: bool)
        ensures
            changed == !(old(self).state_view() is Waiting && old(self).data_view() is None),
            final(self).state_view() is Waiting,
            final(self).data_view() is None,
            final(self).path_view() == old(self).path_view(),
            final(self).signal() == old(self).signal(),
            final(self).limit() == old(self).limit(),
    {
        if matches!(self.state, FileState::Waiting) && self.data.is_none() {
            return false;
        }
        self.data = None;
        self.state = FileState::Waiting;
        true
    }
}

} // verus!
