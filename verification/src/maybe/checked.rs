//! Cells with a `loaded` flag that every access consults.

use vstd::prelude::*;

verus! {

/// A cell which may hold a value, and records whether it does.
#[derive(Debug)]
pub struct Maybe<T> {
    data: Option<T>,
    loaded: bool,
}

impl<T> View for Maybe<T> {
    type V = Option<T>;

    /// The value that an access finds: none unless the cell is flagged as loaded.
    open spec fn view(&self) -> Option<T> {
        if self.loaded() {
            self.stored()
        } else {
            None
        }
    }
}

impl<T> Maybe<T> {
    /// The `loaded` flag of the cell.
    pub closed spec fn loaded(&self) -> bool {
        self.loaded
    }

    /// The value stored last and not moved out since, whatever the flag says.
    pub closed spec fn stored(&self) -> Option<T> {
        self.data
    }

    /// The flag says what the cell holds. Every operation but `set_loaded` keeps this.
    pub open spec fn consistent(&self) -> bool {
        self.loaded() == (self.stored() is Some)
    }

    /// Create a new, empty cell.
    pub fn empty() -> (cell: Self)
        ensures
            cell@ is None,
            !cell.loaded(),
            cell.stored() is None,
    {
        Maybe { data: None, loaded: false }
    }

    /// Create a new, populated cell.
    pub fn new(data: T) -> (cell: Self)
        ensures
            cell@ == Some(data),
            cell.loaded(),
            cell.stored() == Some(data),
    {
        Maybe { data: Some(data), loaded: true }
    }

    /// Tell whether the cell is flagged as loaded.
    pub fn is_loaded(&self) -> (yes: bool)
        ensures
            yes == self.loaded(),
    {
        self.loaded
    }

    /// Obtain a reference to the contained value.
    pub fn as_ref(&self) -> (value: &T)
        requires
            self@ is Some,
        ensures
            self@ == Some(*value),
    {
        self.data.as_ref().unwrap()
    }

    /// Obtain a mutable reference to the contained value.
    pub fn as_mut(&mut self) -> (value: &mut T)
        requires
            old(self)@ is Some,
        ensures
            old(self)@ == Some(*value),
            final(self)@ == Some(*final(value)),
            final(self).loaded(),
            final(self).stored() == final(self)@,
    {
        self.data.as_mut().unwrap()
    }

    /// Override the `loaded` flag of the cell.
    pub fn set_loaded(&mut self, loaded: bool)
        ensures
            final(self).loaded() == loaded,
            final(self).stored() == old(self).stored(),
            final(self)@ == (if loaded {
                old(self).stored()
            } else {
                None
            }),
    {
        self.loaded = loaded;
    }

    /// Drop the contained value in place.
    pub fn clear(&mut self)
        requires
            old(self)@ is Some,
        ensures
            final(self)@ is None,
            !final(self).loaded(),
            final(self).stored() is None,
    {
        self.loaded = false;
        self.data = None;
    }

    /// Move the contained value out, leaving the cell empty.
    pub fn load(&mut self) -> (value: T)
        requires
            old(self)@ is Some,
        ensures
            old(self)@ == Some(value),
            final(self)@ is None,
            !final(self).loaded(),
            final(self).stored() is None,
    {
        self.loaded = false;
        self.data.take().unwrap()
    }

    /// Store a new value in an occupied cell, returning the previous one.
    pub fn replace(&mut self, value: T) -> (previous: T)
        requires
            old(self)@ is Some,
        ensures
            old(self)@ == Some(previous),
            final(self)@ == Some(value),
            final(self).loaded(),
            final(self).stored() == Some(value),
    {
        let previous = self.data.take().unwrap();
        self.data = Some(value);
        previous
    }

    /// Store a new value in an empty cell.
    pub fn store(&mut self, value: T)
        requires
            !old(self).loaded(),
        ensures
            final(self)@ == Some(value),
            final(self).loaded(),
            final(self).stored() == Some(value),
    {
        self.loaded = true;
        self.data = Some(value);
    }

    /// Give up a cell that has been cleared. A cell may not go away while it is loaded.
    pub fn release(self)
        requires
            !self.loaded(),
    {
    }
}

impl<T> From<T> for Maybe<T> {
    fn from(value: T) -> (cell: Self) {
        Maybe { data: Some(value), loaded: true }
    }
}

impl<T> vstd::std_specs::convert::FromSpecImpl<T> for Maybe<T> {
    open spec fn obeys_from_spec() -> bool {
        true
    }

    closed spec fn from_spec(value: T) -> Self {
        Maybe { data: Some(value), loaded: true }
    }
}

/// Converting a value into a cell populates the cell with it.
pub proof fn law_maybe_from<T>(value: T)
    ensures
        <Maybe<T> as vstd::std_specs::convert::FromSpec<T>>::from_spec(value)@ == Some(value),
        <Maybe<T> as vstd::std_specs::convert::FromSpec<T>>::from_spec(value).loaded(),
{
}

/// A cell which may hold a value of a type without destructor. Reading copies the value.
#[derive(Debug)]
pub struct MaybeCopy<T> {
    data: Option<T>,
    loaded: bool,
}

impl<T> View for MaybeCopy<T> {
    type V = Option<T>;

    /// The value that an access finds: none unless the cell is flagged as loaded.
    open spec fn view(&self) -> Option<T> {
        if self.loaded() {
            self.stored()
        } else {
            None
        }
    }
}

impl<T> MaybeCopy<T> {
    /// The `loaded` flag of the cell.
    pub closed spec fn loaded(&self) -> bool {
        self.loaded
    }

    /// The value stored last, whatever the flag says.
    pub closed spec fn stored(&self) -> Option<T> {
        self.data
    }

    /// Create a new, empty cell.
    pub fn empty() -> (cell: Self)
        ensures
            cell@ is None,
            !cell.loaded(),
            cell.stored() is None,
    {
        MaybeCopy { data: None, loaded: false }
    }

    /// Create a new, populated cell.
    pub fn new(data: T) -> (cell: Self)
        ensures
            cell@ == Some(data),
            cell.loaded(),
            cell.stored() == Some(data),
    {
        MaybeCopy { data: Some(data), loaded: true }
    }
}

impl<T: Copy> MaybeCopy<T> {
    /// Obtain a reference to the contained value.
    pub fn as_ref(&self) -> (value: &T)
        requires
            self@ is Some,
        ensures
            self@ == Some(*value),
    {
        self.data.as_ref().unwrap()
    }

    /// Obtain a mutable reference to the contained value.
    pub fn as_mut(&mut self) -> (value: &mut T)
        requires
            old(self)@ is Some,
        ensures
            old(self)@ == Some(*value),
            final(self)@ == Some(*final(value)),
            final(self).loaded(),
            final(self).stored() == final(self)@,
    {
        self.data.as_mut().unwrap()
    }

    /// Override the `loaded` flag of the cell.
    pub fn set_loaded(&mut self, loaded: bool)
        ensures
            final(self).loaded() == loaded,
            final(self).stored() == old(self).stored(),
            final(self)@ == (if loaded {
                old(self).stored()
            } else {
                None
            }),
    {
        self.loaded = loaded;
    }

    /// Copy the contained value out. The cell keeps it.
    pub fn load(&self) -> (value: T)
        requires
            self@ is Some,
        ensures
            self@ == Some(value),
    {
        *self.data.as_ref().unwrap()
    }

    /// Store a new value in an occupied cell, returning the previous one.
    pub fn replace(&mut self, value: T) -> (previous: T)
        requires
            old(self)@ is Some,
        ensures
            old(self)@ == Some(previous),
            final(self)@ == Some(value),
            final(self).loaded(),
            final(self).stored() == Some(value),
    {
        let previous = *self.data.as_ref().unwrap();
        self.data = Some(value);
        previous
    }

    /// Store a new value in the cell, occupied or not.
    pub fn store(&mut self, value: T)
        ensures
            final(self)@ == Some(value),
            final(self).loaded(),
            final(self).stored() == Some(value),
    {
        self.loaded = true;
        self.data = Some(value);
    }
}

impl<T: Copy> From<T> for MaybeCopy<T> {
    fn from(value: T) -> (cell: Self) {
        MaybeCopy { data: Some(value), loaded: true }
    }
}

impl<T: Copy> vstd::std_specs::convert::FromSpecImpl<T> for MaybeCopy<T> {
    open spec fn obeys_from_spec() -> bool {
        true
    }

    closed spec fn from_spec(value: T) -> Self {
        MaybeCopy { data: Some(value), loaded: true }
    }
}

/// Converting a value into a cell populates the cell with it.
pub proof fn law_maybe_copy_from<T: Copy>(value: T)
    ensures
        <MaybeCopy<T> as vstd::std_specs::convert::FromSpec<T>>::from_spec(value)@ == Some(value),
        <MaybeCopy<T> as vstd::std_specs::convert::FromSpec<T>>::from_spec(value).loaded(),
{
}

/// What is stored in an empty cell is what is moved out of it, and the cell is empty
/// after that.
pub proof fn law_store_load<T>(
    cell: &mut Maybe<T>,
    full: &mut Maybe<T>,
    value: T,
    loaded: T,
)
    requires
        cell.stored() is None,
        call_ensures(Maybe::<T>::store, (cell, value), ()),
        *final(cell) == *full,
        call_ensures(Maybe::<T>::load, (full,), loaded),
    ensures
        loaded == value,
        final(cell).loaded(),
        !final(full).loaded(),
        final(full)@ is None,
{
}

} // verus!
