//! Cells without a flag: the caller knows whether a value is there.

use vstd::prelude::*;

verus! {

/// A cell which may hold a value.
#[derive(Debug)]
pub struct Maybe<T> {
    data: Option<T>,
}

impl<T> View for Maybe<T> {
    type V = Option<T>;

    /// The value held, if any.
    closed spec fn view(&self) -> Option<T> {
        self.data
    }
}

impl<T> Maybe<T> {
    /// Create a new, empty cell.
    pub fn empty() -> (cell: Self)
        ensures
            cell@ is None,
    {
        Maybe { data: None }
    }

    /// Create a new, populated cell.
    pub fn new(data: T) -> (cell: Self)
        ensures
            cell@ == Some(data),
    {
        Maybe { data: Some(data) }
    }

    /// Obtain a reference to the contained value.
    pub fn as_ref(&self) -> (value: &T)
        requires
            self@ is Some,
        ensures
            self@ == Some(*value),
    {
        self.data.as_ref().unwrap()
    }

    /// Obtain a mutable reference to the contained value.
    pub fn as_mut(&mut self) -> (value: &mut T)
        requires
            old(self)@ is Some,
        ensures
            old(self)@ == Some(*value),
            final(self)@ == Some(*final(value)),
    {
        self.data.as_mut().unwrap()
    }

    /// There is no flag to override: this does nothing.
    pub fn set_loaded(&mut self, _loaded: bool)
        ensures
            *final(self) == *old(self),
    {
    }

    /// Drop the contained value in place.
    pub fn clear(&mut self)
        requires
            old(self)@ is Some,
        ensures
            final(self)@ is None,
    {
        self.data = None;
    }

    /// Move the contained value out, leaving the cell empty.
    pub fn load(&mut self) -> (value: T)
        requires
            old(self)@ is Some,
        ensures
            old(self)@ == Some(value),
            final(self)@ is None,
    {
        self.data.take().unwrap()
    }

    /// Store a new value in an occupied cell, returning the previous one.
    pub fn replace(&mut self, value: T) -> (previous: T)
        requires
            old(self)@ is Some,
        ensures
            old(self)@ == Some(previous),
            final(self)@ == Some(value),
    {
        let previous = self.load();
        self.data = Some(value);
        previous
    }

    /// Store a new value. What the cell held before is overwritten.
    pub fn store(&mut self, value: T)
        ensures
            final(self)@ == Some(value),
    {
        self.data = Some(value);
    }
}

impl<T> From<T> for Maybe<T> {
    fn from(value: T) -> (cell: Self) {
        Maybe { data: Some(value) }
    }
}

impl<T> vstd::std_specs::convert::FromSpecImpl<T> for Maybe<T> {
    open spec fn obeys_from_spec() -> bool {
        true
    }

    closed spec fn from_spec(value: T) -> Self {
        Maybe { data: Some(value) }
    }
}

/// Converting a value into a cell populates the cell with it.
pub proof fn law_maybe_from<T>(value: T)
    ensures
        <Maybe<T> as vstd::std_specs::convert::FromSpec<T>>::from_spec(value)@ == Some(value),
{
}

/// A cell which may hold a value of a type without destructor. Reading copies the value.
#[derive(Debug)]
pub struct MaybeCopy<T> {
    data: Option<T>,
}

impl<T> View for MaybeCopy<T> {
    type V = Option<T>;

    /// The value held, if any.
    closed spec fn view(&self) -> Option<T> {
        self.data
    }
}

impl<T> MaybeCopy<T> {
    /// Create a new, empty cell.
    pub fn empty() -> (cell: Self)
        ensures
            cell@ is None,
    {
        MaybeCopy { data: None }
    }

    /// Create a new, populated cell.
    pub fn new(data: T) -> (cell: Self)
        ensures
            cell@ == Some(data),
    {
        MaybeCopy { data: Some(data) }
    }
}

impl<T: Copy> MaybeCopy<T> {
    /// Obtain a reference to the contained value.
    pub fn as_ref(&self) -> (value: &T)
        requires
            self@ is Some,
        ensures
            self@ == Some(*value),
    {
        self.data.as_ref().unwrap()
    }

    /// Obtain a mutable reference to the contained value.
    pub fn as_mut(&mut self) -> (value: &mut T)
        requires
            old(self)@ is Some,
        ensures
            old(self)@ == Some(*value),
            final(self)@ == Some(*final(value)),
    {
        self.data.as_mut().unwrap()
    }

    /// There is no flag to override: this does nothing.
    pub fn set_loaded(&mut self, _loaded: bool)
        ensures
            *final(self) == *old(self),
    {
    }

    /// Copy the contained value out. The cell keeps it.
    pub fn load(&self) -> (value: T)
        requires
            self@ is Some,
        ensures
            self@ == Some(value),
    {
        *self.data.as_ref().unwrap()
    }

    /// Store a new value in an occupied cell, returning the previous one.
    pub fn replace(&mut self, value: T) -> (previous: T)
        requires
            old(self)@ is Some,
        ensures
            old(self)@ == Some(previous),
            final(self)@ == Some(value),
    {
        let previous = self.load();
        self.data = Some(value);
        previous
    }

    /// Store a new value in the cell, occupied or not.
    pub fn store(&mut self, value: T)
        ensures
            final(self)@ == Some(value),
    {
        self.data = Some(value);
    }
}

impl<T: Copy> From<T> for MaybeCopy<T> {
    fn from(value: T) -> (cell: Self) {
        MaybeCopy { data: Some(value) }
    }
}

impl<T: Copy> vstd::std_specs::convert::FromSpecImpl<T> for MaybeCopy<T> {
    open spec fn obeys_from_spec() -> bool {
        true
    }

    closed spec fn from_spec(value: T) -> Self {
        MaybeCopy { data: Some(value) }
    }
}

/// Converting a value into a cell populates the cell with it.
pub proof fn law_maybe_copy_from<T: Copy>(value: T)
    ensures
        <MaybeCopy<T> as vstd::std_specs::convert::FromSpec<T>>::from_spec(value)@ == Some(value),
{
}

} // verus!
