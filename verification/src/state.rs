//! Per-object native state: a tagged box with checked downcasts.
//!
//! A host object of a class that declared a state type owns one [`StateBox`].
//! The box records a type identifier beside the stored slot; every typed
//! access compares the requested identifier against the recorded one and fails
//! cleanly with a state-type error on mismatch, never reinterpreting the slot.
//! `take` moves the value out while leaving the type's default behind, so the
//! box never holds an uninitialized slot.

use crate::errors::{Error, StateTypeError};
use vstd::prelude::*;

verus! {

/// Identifies a native state type across the boundary. Distinct native types
/// registered with the host get distinct identifiers.
pub type StateTypeId = u64;

/// A type that can stand in a state box: it has a default value for `take` to
/// leave behind.
pub trait StateDefault: Sized {
    /// Whether a value is the type's default.
    spec fn spec_is_default(&self) -> bool;

    /// The default value itself.
    fn default_state() -> (r: Self)
        ensures
            r.spec_is_default(),
    ;
}

impl StateDefault for bool {
    open spec fn spec_is_default(&self) -> bool {
        *self == false
    }

    fn default_state() -> (r: Self) {
        false
    }
}

impl StateDefault for i64 {
    open spec fn spec_is_default(&self) -> bool {
        *self == 0
    }

    fn default_state() -> (r: Self) {
        0
    }
}

impl StateDefault for u64 {
    open spec fn spec_is_default(&self) -> bool {
        *self == 0
    }

    fn default_state() -> (r: Self) {
        0
    }
}

impl StateDefault for String {
    open spec fn spec_is_default(&self) -> bool {
        self@ == Seq::<char>::empty()
    }

    fn default_state() -> (r: Self) {
        String::new()
    }
}

impl<T> StateDefault for Vec<T> {
    open spec fn spec_is_default(&self) -> bool {
        self@ == Seq::<T>::empty()
    }

    fn default_state() -> (r: Self) {
        Vec::new()
    }
}

/// Type-erased per-object storage: holds at most one native value, beside the
/// type identifier recorded when the value was bound. `declared` is the state
/// type the object's class registered, or `None` for a stateless class.
pub struct StateBox<T> {
    declared: Option<StateTypeId>,
    state: Option<(StateTypeId, T)>,
}

impl<T> StateBox<T> {
    /// The state type the owning class declared, if any.
    pub closed spec fn spec_declared(self) -> Option<StateTypeId> {
        self.declared
    }

    /// The recorded type identifier and stored value, once bound.
    pub closed spec fn spec_state(self) -> Option<(StateTypeId, T)> {
        self.state
    }

    /// What a downcast under `tag` sees: the stored value if `tag` matches the
    /// identifier recorded at bind time, nothing otherwise.
    pub open spec fn spec_get(self, tag: StateTypeId) -> Option<T> {
        match self.spec_state() {
            Some(p) => if p.0 == tag {
                Some(p.1)
            } else {
                None
            },
            None => None,
        }
    }

    /// A fresh, unbound box for an object of a class that declared `declared`
    /// as its state type (`None` for a stateless class).
    pub fn new(declared: Option<StateTypeId>) -> (b: Self)
        ensures
            b.spec_declared() == declared,
            b.spec_state() is None,
    {
        StateBox { declared, state: None }
    }

    /// Attaches a native value under its type identifier. Fails if the class
    /// declared no state type, or if a value was already bound. Binding under
    /// an identifier other than the declared one is a logic error, so the
    /// caller must not attempt it.
    pub fn bind(&mut self, tag: StateTypeId, value: T) -> (r: Result<(), Error>)
        requires
            old(self).spec_declared() matches Some(d) ==> d == tag,
        ensures
            old(self).spec_declared() is None ==> (r matches Err(Error::StateType(_)) && *final (
            self) == *old(self)),
            old(self).spec_declared() is Some && old(self).spec_state() is Some ==> (r matches Err(
                Error::StateType(_),
            ) && *final (self) == *old(self)),
            old(self).spec_declared() is Some && old(self).spec_state() is None ==> (r == Ok::<
                (),
                Error,
            >(()) && final (self).spec_state() == Some((tag, value)) && final (
            self).spec_declared() == old(self).spec_declared()),
    {
        match self.declared {
            None => Err(Error::StateType(StateTypeError)),
            Some(_) => {
                match self.state {
                    Some(_) => Err(Error::StateType(StateTypeError)),
                    None => {
                        self.state = Some((tag, value));
                        Ok(())
                    },
                }
            },
        }
    }

    /// A typed borrow of the bound value: succeeds exactly when a value is
    /// bound and `tag` matches the identifier recorded at bind time.
    pub fn get(&self, tag: StateTypeId) -> (r: Result<&T, Error>)
        ensures
            self.spec_get(tag) matches Some(v) ==> (r matches Ok(p) && *p == v),
            self.spec_get(tag) is None ==> r matches Err(Error::StateType(_)),
    {
        match &self.state {
            Some(p) => if p.0 == tag {
                Ok(&p.1)
            } else {
                Err(Error::StateType(StateTypeError))
            },
            None => Err(Error::StateType(StateTypeError)),
        }
    }

    /// A typed mutable borrow of the bound value: succeeds exactly when a
    /// value is bound and `tag` matches the identifier recorded at bind time.
    /// Whatever the caller writes through the borrow is what the box holds
    /// afterwards, still under the same identifier.
    pub fn get_mut(&mut self, tag: StateTypeId) -> (r: Result<&mut T, Error>)
        ensures
            old(self).spec_get(tag) matches Some(v) ==> (r matches Ok(p) && *p == v && final (
            self).spec_declared() == old(self).spec_declared() && final (self).spec_state()
                == Some((tag, *final (p)))),
            old(self).spec_get(tag) is None ==> (r matches Err(Error::StateType(_)) && *final (
            self) == *old(self)),
    {
        match &mut self.state {
            Some(p) => if p.0 == tag {
                Ok(&mut p.1)
            } else {
                Err(Error::StateType(StateTypeError))
            },
            None => Err(Error::StateType(StateTypeError)),
        }
    }

    /// Swaps the bound value for a new one under the same identifier and
    /// returns the previous value: the checked form of in-place mutation.
    /// Fails like `get` when `tag` does not match; the new value is then
    /// dropped.
    pub fn replace(&mut self, tag: StateTypeId, value: T) -> (r: Result<T, Error>)
        ensures
            old(self).spec_get(tag) matches Some(v) ==> (r == Ok::<T, Error>(v) && final (
            self).spec_declared() == old(self).spec_declared() && final (self).spec_state()
                == Some((tag, value))),
            old(self).spec_get(tag) is None ==> (r matches Err(Error::StateType(_)) && *final (
            self) == *old(self)),
    {
        let matches_tag = match &self.state {
            Some(p) => p.0 == tag,
            None => false,
        };
        if matches_tag {
            let mut prev: Option<(StateTypeId, T)> = Some((tag, value));
            core::mem::swap(&mut self.state, &mut prev);
            match prev {
                Some(p) => Ok(p.1),
                None => {
                    proof {
                        assert(false);
                    }
                    Err(Error::StateType(StateTypeError))
                },
            }
        } else {
            Err(Error::StateType(StateTypeError))
        }
    }
}

impl<T: StateDefault> StateBox<T> {
    /// Moves the bound value out, leaving the type's default behind under the
    /// same identifier, so the box stays initialized. Fails like `get` when
    /// `tag` does not match.
    pub fn take(&mut self, tag: StateTypeId) -> (r: Result<T, Error>)
        ensures
            old(self).spec_get(tag) matches Some(v) ==> (r == Ok::<T, Error>(v) && final (
            self).spec_declared() == old(self).spec_declared() && (final (self).spec_state()
                matches Some(p) && p.0 == tag && p.1.spec_is_default())),
            old(self).spec_get(tag) is None ==> (r matches Err(Error::StateType(_)) && *final (
            self) == *old(self)),
    {
        let matches_tag = match &self.state {
            Some(p) => p.0 == tag,
            None => false,
        };
        if matches_tag {
            let mut prev: Option<(StateTypeId, T)> = Some((tag, T::default_state()));
            core::mem::swap(&mut self.state, &mut prev);
            match prev {
                Some(p) => Ok(p.1),
                None => {
                    proof {
                        assert(false);
                    }
                    Err(Error::StateType(StateTypeError))
                },
            }
        } else {
            Err(Error::StateType(StateTypeError))
        }
    }
}

/// After binding `v` under `t`, a downcast under `t` yields exactly `v`, and a
/// downcast under any other identifier fails.
pub proof fn lemma_get_after_bind<T>(b: StateBox<T>, t: StateTypeId, u: StateTypeId, v: T)
    requires
        b.spec_state() == Some((t, v)),
        u != t,
    ensures
        b.spec_get(t) == Some(v),
        b.spec_get(u) is None,
{
}

/// After a successful `take` under `t`, a downcast under `t` yields the
/// type's default.
pub proof fn lemma_get_after_take<T: StateDefault>(b: StateBox<T>, t: StateTypeId)
    requires
        b.spec_state() matches Some(p) && p.0 == t && p.1.spec_is_default(),
    ensures
        b.spec_get(t) matches Some(d) && d.spec_is_default(),
{
}

} // verus!
