//! Values that a package either states itself or defers to its workspace.

use vstd::prelude::*;

verus! {

/// The boolean `true` as a type: the only value that the `workspace` key of
/// an inheriting field can hold.
#[derive(Debug, Default, Clone, Copy, PartialEq, Eq, Structural)]
pub struct True;

/// A field that is either given in the manifest itself or left to the
/// workspace, written `{ workspace = true }`. An inherited field stays
/// unresolved: nothing here looks the workspace's value up.
#[derive(Debug, Clone, PartialEq, Eq)]
pub enum MaybeInherited<T> {
    Inherited { workspace: True },
    Local(T),
}

impl View for True {
    type V = True;

    open spec fn view(&self) -> True {
        *self
    }
}

impl DeepView for True {
    type V = True;

    open spec fn deep_view(&self) -> True {
        *self
    }
}

impl<T: DeepView> DeepView for MaybeInherited<T> {
    type V = MaybeInherited<T::V>;

    open spec fn deep_view(&self) -> MaybeInherited<T::V> {
        match self {
            MaybeInherited::Inherited { workspace } => MaybeInherited::Inherited { workspace: *workspace },
            MaybeInherited::Local(x) => MaybeInherited::Local(x.deep_view()),
        }
    }
}

impl<T> MaybeInherited<T> {
    /// The local value, if the field has one.
    pub open spec fn local(self) -> Option<T> {
        match self {
            MaybeInherited::Local(x) => Some(x),
            MaybeInherited::Inherited { .. } => None,
        }
    }

    /// The field that defers to the workspace.
    pub fn inherited() -> (r: Self)
        ensures
            r == (MaybeInherited::<T>::Inherited { workspace: True }),
    {
        MaybeInherited::Inherited { workspace: True }
    }

    /// The local value, or `None` for an inherited field.
    pub fn as_local(self) -> (r: Option<T>)
        ensures
            r == self.local(),
    {
        match self {
            MaybeInherited::Local(x) => Some(x),
            MaybeInherited::Inherited { .. } => None,
        }
    }

    /// The same field, borrowing the local value.
    pub fn as_ref(&self) -> (r: MaybeInherited<&T>)
        ensures
            r.local() == match self.local() {
                Some(x) => Some(&x),
                None => None,
            },
    {
        match self {
            MaybeInherited::Local(x) => MaybeInherited::Local(x),
            MaybeInherited::Inherited { .. } => MaybeInherited::Inherited { workspace: True },
        }
    }
}

} // verus!
