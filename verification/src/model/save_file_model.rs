use vstd::prelude::*;

use crate::scheduler::SignalId;

verus! {

/// The IEEE-754 bit pattern of the percentage 100.0.
pub const PROGRESS_COMPLETE_BITS: u64 = 0x4059000000000000;

/// Loading and saving state of a file-backed model. A loading progress is
/// held as the IEEE-754 bit pattern of its percentage (0.0 to 100.0); the
/// pattern of 0.0 is 0.
#[derive(Debug, Clone, PartialEq)]
pub enum FileState {
    /// Waiting to be loaded (initial state).
    Waiting,
    /// Currently loading.
    Loading { progress: u64 },
    /// Successfully loaded.
    Loaded,
    /// Data modified and not yet saved.
    Unsaved,
    /// Currently saving.
    Saving,
    /// Loading failed with the given message.
    LoadError(String),
    /// Saving failed with the given message.
    SaveError(String),
    /// Loading would exceed the memory limit.
    TooCostly,
}

/// The progress (as a bit pattern) that a state stands for: the recorded
/// progress while loading, 100.0 once loaded (saved or not), 0.0 otherwise.
pub open spec fn state_progress(s: FileState) -> u64 {
    match s {
        FileState::Loading { progress } => progress,
        FileState::Loaded | FileState::Unsaved => PROGRESS_COMPLETE_BITS,
        _ => 0,
    }
}

/// Once its data is loaded, a model reports a progress of 100.0 whether
/// the data was modified since or not; marking the data as modified or
/// saving it does not change that, and only a model that is loading reports
/// a progress between. Every other state reports 0.0.
pub proof fn lemma_progress_of_states(s: FileState)
    ensures
        (s is Loaded || s is Unsaved) ==> state_progress(s) == 0x4059000000000000u64,
        state_progress(FileState::Loaded) == state_progress(FileState::Unsaved),
        s matches FileState::Loading { progress } ==> state_progress(s) == progress,
        !(s is Loaded || s is Unsaved || s is Loading) ==> state_progress(s) == 0,
{
}

/// The states from which a load can be requested.
pub open spec fn may_request_load(s: FileState) -> bool {
    s is Waiting || s is LoadError || s is TooCostly
}

/// The states from which a save can be requested.
pub open spec fn may_request_save(s: FileState) -> bool {
    s is Unsaved || s is SaveError
}

/// A load can be requested from waiting and after a failed or too costly
/// load, never while loading, once loaded, modified or saving, or after a
/// failed save; a save only of modified data or after a failed save.
pub proof fn lemma_request_states(s: FileState)
    ensures
        may_request_load(FileState::Waiting),
        (s is LoadError || s is TooCostly) ==> may_request_load(s),
        (s is Loading || s is Loaded || s is Unsaved || s is Saving || s is SaveError)
            ==> !may_request_load(s),
        may_request_save(FileState::Unsaved),
        s is SaveError ==> may_request_save(s),
        !(s is Unsaved || s is SaveError) ==> !may_request_save(s),
        !(may_request_load(s) && may_request_save(s)),
{
}

/// A file-backed data model whose loading and saving are driven by the
/// caller through an explicit state machine.
pub struct FileModel<T> {
    data: Option<T>,
    path: String,
    state: FileState,
    change_signal: SignalId,
    memory_limit: usize,
}

impl<T> FileModel<T> {
    /// The loading/saving state.
    pub closed spec fn state_view(&self) -> FileState {
        self.state
    }

    /// The data, if any.
    pub closed spec fn data_view(&self) -> Option<T> {
        self.data
    }

    /// The path of the backing file.
    pub closed spec fn path_view(&self) -> Seq<char> {
        self.path@
    }

    /// The signal raised when the model changes.
    pub closed spec fn signal(&self) -> SignalId {
        self.change_signal
    }

    /// The memory limit for loading.
    pub closed spec fn limit(&self) -> usize {
        self.memory_limit
    }

    /// Everything but the state is as in `other`.
    pub open spec fn same_but_state(&self, other: &Self) -> bool {
        &&& self.data_view() == other.data_view()
        &&& self.path_view() == other.path_view()
        &&& self.signal() == other.signal()
        &&& self.limit() == other.limit()
    }

    /// A model that waits to be loaded, without data and without memory limit.
    pub fn new(path: String, signal_id: SignalId) -> (m: Self)
        ensures
            m.state_view() is Waiting,
            m.data_view() is None,
            m.path_view() == path@,
            m.signal() == signal_id,
            m.limit() == usize::MAX,
    {
        FileModel {
            data: None,
            path,
            state: FileState::Waiting,
            change_signal: signal_id,
            memory_limit: usize::MAX,
        }
    }

    /// The loading/saving state.
    pub fn state(&self) -> (s: &FileState)
        ensures
            *s == self.state_view(),
    {
        &self.state
    }

    /// The data, if any.
    pub fn data(&self) -> (d: Option<&T>)
        ensures
            match self.data_view() {
                Some(x) => d == Some(&x),
                None => d is None,
            },
    {
        match &self.data {
            Some(x) => Some(x),
            None => None,
        }
    }

    /// The data for modification, if any.
    pub fn data_mut(&mut self) -> (d: Option<&mut T>)
        ensures
            match old(self).data_view() {
                Some(x) => d matches Some(r) && *r == x && final(self).data_view() == Some(
                    *final(r),
                ),
                None => d is None && final(self).data_view() is None,
            },
            final(self).state_view() == old(self).state_view(),
            final(self).path_view() == old(self).path_view(),
            final(self).signal() == old(self).signal(),
            final(self).limit() == old(self).limit(),
    {
        match &mut self.data {
            Some(x) => Some(x),
            None => None,
        }
    }

    /// The path of the backing file.
    pub fn path(&self) -> (p: &str)
        ensures
            p@ == self.path_view(),
    {
        self.path.as_str()
    }

    /// The signal raised when the model changes.
    pub fn change_signal(&self) -> (s: SignalId)
        ensures
            s == self.signal(),
    {
        self.change_signal
    }

    /// Set the memory limit for loading.
    pub fn set_memory_limit(&mut self, limit: usize)
        ensures
            final(self).limit() == limit,
            final(self).state_view() == old(self).state_view(),
            final(self).data_view() == old(self).data_view(),
            final(self).path_view() == old(self).path_view(),
            final(self).signal() == old(self).signal(),
    {
        self.memory_limit = limit;
    }

    /// The memory limit for loading.
    pub fn memory_limit(&self) -> (l: usize)
        ensures
            l == self.limit(),
    {
        self.memory_limit
    }

    /// Loading progress (bit pattern of the percentage).
    pub fn progress(&self) -> (p: u64)
        ensures
            p == state_progress(self.state_view()),
    {
        match &self.state {
            FileState::Loading { progress } => *progress,
            FileState::Loaded | FileState::Unsaved => PROGRESS_COMPLETE_BITS,
            _ => 0,
        }
    }

    /// Begin loading, from waiting or after a failed or too costly load;
    /// reports whether loading began.
    pub fn request_load(&mut self) -> (started: bool)
        ensures
            started == may_request_load(old(self).state_view()),
            started ==> final(self).state_view() == (FileState::Loading { progress: 0 }),
            !started ==> final(self).state_view() == old(self).state_view(),
            final(self).same_but_state(&*old(self)),
    {
        match &self.state {
            FileState::Waiting | FileState::LoadError(_) | FileState::TooCostly => {
                self.state = FileState::Loading { progress: 0 };
                true
            },
            _ => false,
        }
    }

    /// Record the loading progress; only while loading.
    pub fn set_progress(&mut self, progress: u64)
        ensures
            old(self).state_view() is Loading ==> final(self).state_view() == (FileState::Loading {
                progress,
            }),
            !(old(self).state_view() is Loading) ==> final(self).state_view() == old(
                self,
            ).state_view(),
            final(self).same_but_state(&*old(self)),
    {
        if matches!(self.state, FileState::Loading { .. }) {
            self.state = FileState::Loading { progress };
        }
    }

    /// Complete loading with `data`, whatever the state.
    pub fn complete_load(&mut self, data: T)
        ensures
            state_progress(final(self).state_view()) == 0x4059000000000000u64,
            final(self).state_view() is Loaded,
            final(self).data_view() == Some(data),
            final(self).path_view() == old(self).path_view(),
            final(self).signal() == old(self).signal(),
            final(self).limit() == old(self).limit(),
    {
        self.data = Some(data);
        self.state = FileState::Loaded;
    }

    /// Fail loading with the message `error`, whatever the state.
    pub fn fail_load(&mut self, error: String)
        ensures
            final(self).state_view() matches FileState::LoadError(m) && m@ == error@,
            final(self).same_but_state(&*old(self)),
    {
        self.state = FileState::LoadError(error);
    }

    /// Mark the data as too costly to load, whatever the state.
    pub fn mark_too_costly(&mut self)
        ensures
            final(self).state_view() is TooCostly,
            final(self).same_but_state(&*old(self)),
    {
        self.state = FileState::TooCostly;
    }

    /// Mark loaded data as modified; in any other state nothing changes.
    /// The data stays fully loaded, so the progress stays where it was.
    pub fn mark_unsaved(&mut self)
        ensures
            state_progress(final(self).state_view()) == state_progress(old(self).state_view()),
            old(self).state_view() is Loaded ==> final(self).state_view() is Unsaved,
            !(old(self).state_view() is Loaded) ==> final(self).state_view() == old(
                self,
            ).state_view(),
            final(self).same_but_state(&*old(self)),
    {
        if matches!(self.state, FileState::Loaded) {
            self.state = FileState::Unsaved;
        }
    }

    /// Begin saving modified data, also after a failed save; reports whether
    /// saving began.
    pub fn request_save(&mut self) -> (started: bool)
        ensures
            started == may_request_save(old(self).state_view()),
            started ==> final(self).state_view() is Saving,
            !started ==> final(self).state_view() == old(self).state_view(),
            final(self).same_but_state(&*old(self)),
    {
        match &self.state {
            FileState::Unsaved | FileState::SaveError(_) => {
                self.state = FileState::Saving;
                true
            },
            _ => false,
        }
    }

    /// Complete saving: a saving model is loaded again; in any other state
    /// nothing changes.
    pub fn complete_save(&mut self)
        ensures
            old(self).state_view() is Saving ==> final(self).state_view() is Loaded,
            !(old(self).state_view() is Saving) ==> final(self).state_view() == old(
                self,
            ).state_view(),
            final(self).same_but_state(&*old(self)),
    {
        if matches!(self.state, FileState::Saving) {
            self.state = FileState::Loaded;
        }
    }

    /// Fail saving with the message `error`, whatever the state.
    pub fn fail_save(&mut self, error: String)
        ensures
            final(self).state_view() matches FileState::SaveError(m) && m@ == error@,
            final(self).same_but_state(&*old(self)),
    {
        self.state = FileState::SaveError(error);
    }

    /// Go back to waiting and drop the data; reports whether anything
    /// changed (nothing does when the model already waits without data).
    pub fn reset(&mut self) -> (changed: bool)
        ensures
            changed == !(old(self).state_view() is Waiting && old(self).data_view() is None),
            final(self).state_view() is Waiting,
            final(self).data_view() is None,
            final(self).path_view() == old(self).path_view(),
            final(self).signal() == old(self).signal(),
            final(self).limit() == old(self).limit(),
    {
        if matches!(self.state, FileState::Waiting) && self.data.is_none() {
            return false;
        }
        self.data = None;
        self.state = FileState::Waiting;
        true
    }
}

} // verus!
