use vstd::prelude::*;
use crate::binding::ReactionRoleConfig;

verus! {

/// What reading the state file gave at startup.
#[derive(Clone, Debug, PartialEq, Eq)]
pub enum StoreRead {
    /// There was no file to read.
    Absent,
    /// The file was there but did not hold a binding record.
    Malformed,
    /// The file held this binding.
    Record(ReactionRoleConfig),
}

/// The binding that a read of the state file stands for: none unless it held a record.
pub open spec fn stored_binding(r: StoreRead) -> Option<ReactionRoleConfig> {
    match r {
        StoreRead::Record(b) => Some(b),
        _ => None,
    }
}

/// The slot for the current binding: empty until the first creation, then
/// replaced whole by each later one.
pub struct BindingState {
    current: Option<ReactionRoleConfig>,
}

impl View for BindingState {
    type V = Option<ReactionRoleConfig>;

    open spec fn view(&self) -> Option<ReactionRoleConfig> {
        self.current_spec()
    }
}

impl BindingState {
    pub closed spec fn current_spec(&self) -> Option<ReactionRoleConfig> {
        self.current
    }

    /// A slot with no binding.
    pub fn empty() -> (s: Self)
        ensures
            s@ == None::<ReactionRoleConfig>,
    {
        BindingState { current: None }
    }

    /// The slot as startup leaves it: holding the stored record, or nothing when
    /// the file was absent or malformed.
    pub fn seeded(read: StoreRead) -> (s: Self)
        ensures
            s@ == stored_binding(read),
    {
        match read {
            StoreRead::Record(b) => BindingState { current: Some(b) },
            _ => BindingState { current: None },
        }
    }

    /// The current binding, if any.
    pub fn get(&self) -> (r: &Option<ReactionRoleConfig>)
        ensures
            *r == self@,
    {
        &self.current
    }

    /// Replaces the current binding, whatever it was, by `binding`.
    pub fn replace(&mut self, binding: ReactionRoleConfig)
        ensures
            final(self)@ == Some(binding),
    {
        self.current = Some(binding);
    }
}

} // verus!
