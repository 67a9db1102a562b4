use vstd::prelude::*;

use crate::record::Record;
use crate::scheduler::SignalId;

verus! {

/// Error raised when a configuration cannot be loaded or saved.
pub enum ConfigError {
    ParseError(String),
    MissingField(String),
}

/// The message that describes a configuration error.
pub open spec fn config_error_message(e: ConfigError) -> Seq<char> {
    match e {
        ConfigError::ParseError(s) => "parse error: "@ + s@,
        ConfigError::MissingField(s) => "missing field: "@ + s@,
    }
}

impl ConfigError {
    /// The message that describes this error; it quotes the detail text.
    pub fn to_string(&self) -> (s: String)
        ensures
            s@ == config_error_message(*self),
    {
        match self {
            ConfigError::ParseError(d) => "parse error: ".to_owned().concat(d.as_str()),
            ConfigError::MissingField(d) => "missing field: ".to_owned().concat(d.as_str()),
        }
    }
}

/// A call that takes a configuration model by mutable reference; each
/// variant names the method of the same name (`SetValue` is `set`). The
/// other methods take the model by shared reference and change nothing.
#[derive(Debug, Clone, Copy, PartialEq, Eq, Structural)]
pub enum ConfigCall {
    SetValue,
    Modify,
    ResetToDefault,
    Load,
}

/// Whether a call marks the model dirty: setting, modifying and resetting
/// the value do; loading does not.
pub open spec fn marks_dirty(call: ConfigCall) -> bool {
    call is SetValue || call is Modify || call is ResetToDefault
}

/// Setting, modifying and resetting the value mark the model dirty;
/// loading does not.
pub proof fn lemma_calls_that_mark_dirty()
    ensures
        marks_dirty(ConfigCall::SetValue),
        marks_dirty(ConfigCall::Modify),
        marks_dirty(ConfigCall::ResetToDefault),
        !marks_dirty(ConfigCall::Load),
        !dirty_after_call(false, ConfigCall::Load),
        dirty_after_call(true, ConfigCall::Load),
{
}

/// The dirty flag after one call, starting from `dirty`.
pub open spec fn dirty_after_call(dirty: bool, call: ConfigCall) -> bool {
    dirty || marks_dirty(call)
}

/// The dirty flag after a sequence of calls, starting from `dirty`.
pub open spec fn dirty_after(dirty: bool, calls: Seq<ConfigCall>) -> bool
    decreases calls.len(),
{
    if calls.len() == 0 {
        dirty
    } else {
        dirty_after_call(dirty_after(dirty, calls.drop_last()), calls.last())
    }
}

/// Whether one of `calls` sets, modifies or resets the value.
pub open spec fn any_marks_dirty(calls: Seq<ConfigCall>) -> bool {
    exists|i: int| 0 <= i < calls.len() && marks_dirty(#[trigger] calls[i])
}

/// A model is dirty after a sequence of calls exactly when it was dirty
/// before or one of the calls set, modified or reset the value; no call
/// makes a dirty model clean again.
pub proof fn lemma_dirty_flag(dirty: bool, calls: Seq<ConfigCall>)
    ensures
        dirty_after(dirty, calls) == (dirty || any_marks_dirty(calls)),
    decreases calls.len(),
{
    if calls.len() > 0 {
        let init = calls.drop_last();
        lemma_dirty_flag(dirty, init);
        if any_marks_dirty(init) {
            let i = choose|i: int| 0 <= i < init.len() && marks_dirty(#[trigger] init[i]);
            assert(calls[i] == init[i]);
        }
        if marks_dirty(calls.last()) {
            assert(calls[calls.len() - 1] == calls.last());
        }
        if any_marks_dirty(calls) {
            let i = choose|i: int| 0 <= i < calls.len() && marks_dirty(#[trigger] calls[i]);
            if i < calls.len() - 1 {
                assert(init[i] == calls[i]);
            }
        }
    }
}

/// The dirty flag of a configuration model, with the calls it has seen.
pub struct DirtyFlag {
    set: bool,
    calls: Ghost<Seq<ConfigCall>>,
}

impl DirtyFlag {
    /// The flag is what the calls it has seen left it, starting clean.
    #[verifier::type_invariant]
    spec fn inv(self) -> bool {
        self.set == dirty_after(false, self.calls@)
    }

    /// Whether the flag is set.
    pub closed spec fn is_set(&self) -> bool {
        self.set
    }

    /// The calls the flag has seen, in order.
    pub closed spec fn seen(&self) -> Seq<ConfigCall> {
        self.calls@
    }

    /// A clean flag that has seen no call.
    pub fn new() -> (f: DirtyFlag)
        ensures
            !f.is_set(),
            f.seen() == Seq::<ConfigCall>::empty(),
    {
        DirtyFlag { set: false, calls: Ghost(Seq::empty()) }
    }

    /// Note `call`: the flag becomes set if the call marks the model dirty.
    pub fn note(&mut self, call: ConfigCall)
        ensures
            final(self).seen() == old(self).seen().push(call),
            final(self).is_set() == dirty_after_call(old(self).is_set(), call),
    {
        proof {
            use_type_invariant(&*self);
        }
        let ghost calls = self.calls@.push(call);
        proof {
            assert(calls.drop_last() =~= self.calls@);
        }
        let set = self.set || match call {
            ConfigCall::SetValue | ConfigCall::Modify | ConfigCall::ResetToDefault => true,
            ConfigCall::Load => false,
        };
        *self = DirtyFlag { set, calls: Ghost(calls) };
    }

    /// Whether the flag is set: exactly when one of the calls it has seen
    /// set, modified or reset the value.
    pub fn get(&self) -> (d: bool)
        ensures
            d == self.is_set(),
            d == dirty_after(false, self.seen()),
            d == any_marks_dirty(self.seen()),
    {
        proof {
            use_type_invariant(self);
            lemma_dirty_flag(false, self.calls@);
        }
        self.set
    }
}

/// A configuration record backed by a file path, with a dirty flag that
/// records whether the value changed since it was created.
pub struct ConfigModel<T: Record> {
    value: T,
    path: String,
    change_signal: SignalId,
    dirty: DirtyFlag,
}

impl<T: Record> ConfigModel<T> {
    /// The configuration value.
    pub closed spec fn value(&self) -> T {
        self.value
    }

    /// The path of the backing file.
    pub closed spec fn path_view(&self) -> Seq<char> {
        self.path@
    }

    /// The signal raised when the configuration changes.
    pub closed spec fn signal(&self) -> SignalId {
        self.change_signal
    }

    /// The calls made on the model by mutable reference since it was
    /// created, in order.
    pub closed spec fn calls(&self) -> Seq<ConfigCall> {
        self.dirty.seen()
    }

    /// Whether the value changed since the model was created.
    pub closed spec fn dirty(&self) -> bool {
        self.dirty.is_set()
    }

    /// A clean model holding `value`.
    pub fn new(value: T, path: String, signal_id: SignalId) -> (m: Self)
        ensures
            m.value() == value,
            m.path_view() == path@,
            m.signal() == signal_id,
            m.calls() == Seq::<ConfigCall>::empty(),
            !m.dirty(),
    {
        ConfigModel { value, path, change_signal: signal_id, dirty: DirtyFlag::new() }
    }

    /// The configuration value.
    pub fn get(&self) -> (r: &T)
        ensures
            *r == self.value(),
    {
        &self.value
    }

    /// Replace the value and mark the model dirty; always reports `true`,
    /// since records are not compared.
    pub fn set(&mut self, new_value: T) -> (r: bool)
        ensures
            r,
            final(self).value() == new_value,
            final(self).dirty(),
            final(self).calls() == old(self).calls().push(ConfigCall::SetValue),
            final(self).path_view() == old(self).path_view(),
            final(self).signal() == old(self).signal(),
    {
        self.value = new_value;
        self.dirty.note(ConfigCall::SetValue);
        true
    }

    /// Modify the value in place with `f` and mark the model dirty; always
    /// reports `true`. The new value is what `f` leaves behind the reference
    /// it is handed to the old value.
    pub fn modify<F: FnOnce(&mut T)>(&mut self, f: F) -> (r: bool)
        requires
            forall|args: (&mut T,)| call_requires(f, args),
        ensures
            r,
            exists|m: &mut T|
                *m == old(self).value() && *final(m) == final(self).value() && call_ensures(
                    f,
                    (m,),
                    (),
                ),
            final(self).dirty(),
            final(self).calls() == old(self).calls().push(ConfigCall::Modify),
            final(self).path_view() == old(self).path_view(),
            final(self).signal() == old(self).signal(),
    {
        f(&mut self.value);
        self.dirty.note(ConfigCall::Modify);
        true
    }
}

impl<T: Record> ConfigModel<T> {
    /// The signal raised when the configuration changes.
    pub fn change_signal(&self) -> (s: SignalId)
        ensures
            s == self.signal(),
    {
        self.change_signal
    }

    /// The path of the backing file.
    pub fn path(&self) -> (p: &str)
        ensures
            p@ == self.path_view(),
    {
        self.path.as_str()
    }

    /// Whether the value changed since the model was created: exactly when
    /// one of the calls made on it since then set, modified or reset the
    /// value.
    pub fn is_dirty(&self) -> (d: bool)
        ensures
            d == self.dirty(),
            d == dirty_after(false, self.calls()),
            d == any_marks_dirty(self.calls()),
    {
        self.dirty.get()
    }

    /// Reset the value to its default and mark the model dirty; always
    /// reports `true`.
    pub fn reset_to_default(&mut self) -> (r: bool)
        ensures
            r,
            final(self).value().is_default(),
            final(self).dirty(),
            final(self).calls() == old(self).calls().push(ConfigCall::ResetToDefault),
            final(self).path_view() == old(self).path_view(),
            final(self).signal() == old(self).signal(),
    {
        self.value.SetToDefault();
        self.dirty.note(ConfigCall::ResetToDefault);
        true
    }

    /// Loading from the backing file is not available: this always fails
    /// with a parse error saying so, and changes nothing but the record of
    /// calls.
    pub fn load(&mut self) -> (r: Result<(), ConfigError>)
        ensures
            r matches Err(ConfigError::ParseError(d)) && d@ == "load not yet implemented"@,
            final(self).value() == old(self).value(),
            final(self).path_view() == old(self).path_view(),
            final(self).signal() == old(self).signal(),
            final(self).dirty() == old(self).dirty(),
            final(self).calls() == old(self).calls().push(ConfigCall::Load),
    {
        self.dirty.note(ConfigCall::Load);
        Err(ConfigError::ParseError("load not yet implemented".to_owned()))
    }

    /// Saving to the backing file is not available: this always fails with a
    /// parse error saying so.
    pub fn save(&self) -> (r: Result<(), ConfigError>)
        ensures
            r matches Err(ConfigError::ParseError(d)) && d@ == "save not yet implemented"@,
    {
        Err(ConfigError::ParseError("save not yet implemented".to_owned()))
    }
}

} // verus!
