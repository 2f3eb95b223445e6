use vstd::prelude::*;

verus! {

/// The outcome of a create request.
pub enum CreateAction<T> {
    /// What was asked for was already there.
    Identity,
    /// It was made, and this is it.
    Created(T),
}

impl<T> CreateAction<T> {
    pub open spec fn spec_is_changed(&self) -> bool {
        self is Created
    }

    /// Whether the request changed anything.
    pub fn is_changed(&self) -> (r: bool)
        ensures
            r == self.spec_is_changed(),
    {
        match self {
            CreateAction::Identity => false,
            CreateAction::Created(_) => true,
        }
    }

    /// What was made, if anything was.
    pub fn changed(self) -> (r: Option<T>)
        ensures
            match self {
                CreateAction::Identity => r is None,
                CreateAction::Created(t) => r == Some(t),
            },
    {
        match self {
            CreateAction::Identity => None,
            CreateAction::Created(t) => Some(t),
        }
    }
}

/// The outcome of a delete request.
pub enum DeleteAction<T> {
    /// There was nothing to remove.
    Identity,
    /// This was removed.
    Deleted(T),
}

impl<T> DeleteAction<T> {
    pub open spec fn spec_is_changed(&self) -> bool {
        self is Deleted
    }

    /// Whether the request changed anything.
    pub fn is_changed(&self) -> (r: bool)
        ensures
            r == self.spec_is_changed(),
    {
        match self {
            DeleteAction::Identity => false,
            DeleteAction::Deleted(_) => true,
        }
    }

    /// What was removed, if anything was.
    pub fn changed(self) -> (r: Option<T>)
        ensures
            match self {
                DeleteAction::Identity => r is None,
                DeleteAction::Deleted(t) => r == Some(t),
            },
    {
        match self {
            DeleteAction::Identity => None,
            DeleteAction::Deleted(t) => Some(t),
        }
    }
}

/// The outcome of a rename request.
pub enum RenameAction<T> {
    /// The new name was the name already.
    Identity,
    /// There was nothing of that identity to rename.
    NoSource,
    /// This was renamed.
    Renamed(T),
}

impl<T> RenameAction<T> {
    pub open spec fn spec_is_changed(&self) -> bool {
        self is Renamed
    }

    /// Whether the request changed anything.
    pub fn is_changed(&self) -> (r: bool)
        ensures
            r == self.spec_is_changed(),
    {
        match self {
            RenameAction::Renamed(_) => true,
            _ => false,
        }
    }

    /// What was renamed, if anything was.
    pub fn changed(self) -> (r: Option<T>)
        ensures
            match self {
                RenameAction::Renamed(t) => r == Some(t),
                _ => r is None,
            },
    {
        match self {
            RenameAction::Renamed(t) => Some(t),
            _ => None,
        }
    }
}

/// The outcome of adding a key to a collection-valued property.
pub enum MappingCreateAction<T> {
    /// The key was added.
    Created(T),
    /// The key was there already, with the same value.
    Identity,
    /// The key was there with another value, which was replaced.
    ValueChanged(T),
}

impl<T> MappingCreateAction<T> {
    pub open spec fn spec_is_changed(&self) -> bool {
        !(self is Identity)
    }

    /// Whether the request changed anything.
    pub fn is_changed(&self) -> (r: bool)
        ensures
            r == self.spec_is_changed(),
    {
        match self {
            MappingCreateAction::Identity => false,
            _ => true,
        }
    }

    /// What was added or replaced, if anything was.
    pub fn changed(self) -> (r: Option<T>)
        ensures
            match self {
                MappingCreateAction::Created(t) => r == Some(t),
                MappingCreateAction::ValueChanged(t) => r == Some(t),
                MappingCreateAction::Identity => r is None,
            },
    {
        match self {
            MappingCreateAction::Created(t) => Some(t),
            MappingCreateAction::ValueChanged(t) => Some(t),
            MappingCreateAction::Identity => None,
        }
    }
}

/// The outcome of removing a key from a collection-valued property.
pub enum MappingDeleteAction<T> {
    /// The key was removed.
    Deleted(T),
    /// The key was not there.
    Identity,
}

impl<T> MappingDeleteAction<T> {
    pub open spec fn spec_is_changed(&self) -> bool {
        self is Deleted
    }

    /// Whether the request changed anything.
    pub fn is_changed(&self) -> (r: bool)
        ensures
            r == self.spec_is_changed(),
    {
        match self {
            MappingDeleteAction::Deleted(_) => true,
            MappingDeleteAction::Identity => false,
        }
    }

    /// What was removed, if anything was.
    pub fn changed(self) -> (r: Option<T>)
        ensures
            match self {
                MappingDeleteAction::Deleted(t) => r == Some(t),
                MappingDeleteAction::Identity => r is None,
            },
    {
        match self {
            MappingDeleteAction::Deleted(t) => Some(t),
            MappingDeleteAction::Identity => None,
        }
    }
}

/// The outcome of a request that creates several things at once: those
/// that were made.
pub struct SetCreateAction<T> {
    pub changed: Vec<T>,
}

impl<T> SetCreateAction<T> {
    pub fn new(changed: Vec<T>) -> (r: Self)
        ensures
            r.changed@ == changed@,
    {
        SetCreateAction { changed }
    }

    /// The outcome in which nothing was made.
    pub fn empty() -> (r: Self)
        ensures
            r.changed@.len() == 0,
    {
        SetCreateAction { changed: Vec::new() }
    }

    /// Whether anything was made.
    pub fn is_changed(&self) -> (r: bool)
        ensures
            r == (self.changed@.len() > 0),
    {
        self.changed.len() > 0
    }
}

/// The outcome of a request that removes several things at once: those
/// that were removed.
pub struct SetDeleteAction<T> {
    pub changed: Vec<T>,
}

impl<T> SetDeleteAction<T> {
    pub fn new(changed: Vec<T>) -> (r: Self)
        ensures
            r.changed@ == changed@,
    {
        SetDeleteAction { changed }
    }

    /// The outcome in which nothing was removed.
    pub fn empty() -> (r: Self)
        ensures
            r.changed@.len() == 0,
    {
        SetDeleteAction { changed: Vec::new() }
    }

    /// Whether anything was removed.
    pub fn is_changed(&self) -> (r: bool)
        ensures
            r == (self.changed@.len() > 0),
    {
        self.changed.len() > 0
    }
}

/// The outcome of a request that unlocks several devices at once: those
/// that were unlocked, and those that stayed locked.
pub struct SetUnlockAction<T> {
    pub unlocked: Vec<T>,
    pub still_locked: Vec<T>,
}

impl<T> SetUnlockAction<T> {
    pub fn new(unlocked: Vec<T>, still_locked: Vec<T>) -> (r: Self)
        ensures
            r.unlocked@ == unlocked@,
            r.still_locked@ == still_locked@,
    {
        SetUnlockAction { unlocked, still_locked }
    }

    /// The outcome in which nothing was unlocked.
    pub fn empty() -> (r: Self)
        ensures
            r.unlocked@.len() == 0,
            r.still_locked@.len() == 0,
    {
        SetUnlockAction { unlocked: Vec::new(), still_locked: Vec::new() }
    }

    /// Whether anything was unlocked.
    pub fn is_changed(&self) -> (r: bool)
        ensures
            r == (self.unlocked@.len() > 0),
    {
        self.unlocked.len() > 0
    }
}

} // verus!
