use vstd::prelude::*;

use crate::actions::{CreateAction, DeleteAction, RenameAction};
use crate::error::StratisError;
use crate::ident::PoolUuid;
use crate::types::Name;

verus! {

broadcast use vstd::std_specs::hash::group_hash_axioms;

/// The pools that the engine knows, by identifier, with their names.
pub struct PoolRegistry {
    pools: std::collections::HashMap<u128, String>,
}

/// What a create request does: `Identity` when the pool is there already under
/// the requested name, `Created` with the identifier when it is not there at
/// all, an error and no change when it is there under another name.
pub open spec fn create_outcome(
    before: Map<u128, Seq<char>>,
    uuid: u128,
    name: Seq<char>,
    after: Map<u128, Seq<char>>,
    r: Result<CreateAction<PoolUuid>, StratisError>,
) -> bool {
    if !before.contains_key(uuid) {
        &&& r matches Ok(CreateAction::Created(u))
        &&& u.0 == uuid
        &&& after == before.insert(uuid, name)
    } else if before[uuid] == name {
        r matches Ok(CreateAction::Identity) && after == before
    } else {
        r matches Err(StratisError::PoolNameConflict(u)) && u.0 == uuid && after == before
    }
}

/// What a delete request does: the pool is gone afterwards, and `Deleted`
/// comes back when it was there before.
pub open spec fn delete_outcome(
    before: Map<u128, Seq<char>>,
    uuid: u128,
    after: Map<u128, Seq<char>>,
    r: DeleteAction<PoolUuid>,
) -> bool {
    &&& after == before.remove(uuid)
    &&& if before.contains_key(uuid) {
        r matches DeleteAction::Deleted(u) && u.0 == uuid
    } else {
        r is Identity
    }
}

/// What a rename request does.
pub open spec fn rename_outcome(
    before: Map<u128, Seq<char>>,
    uuid: u128,
    name: Seq<char>,
    after: Map<u128, Seq<char>>,
    r: RenameAction<PoolUuid>,
) -> bool {
    if !before.contains_key(uuid) {
        r is NoSource && after == before
    } else if before[uuid] == name {
        r is Identity && after == before
    } else {
        &&& r matches RenameAction::Renamed(u)
        &&& u.0 == uuid
        &&& after == before.insert(uuid, name)
    }
}

impl PoolRegistry {
    /// The pools, by identifier, with their names.
    pub closed spec fn spec_pools(&self) -> Map<u128, Seq<char>> {
        self.pools@.map_values(|s: String| s@)
    }

    /// A registry that holds no pool.
    pub fn new() -> (r: PoolRegistry)
        ensures
            r.spec_pools() == Map::<u128, Seq<char>>::empty(),
    {
        let r = PoolRegistry { pools: std::collections::HashMap::new() };
        assert(r.spec_pools() =~= Map::<u128, Seq<char>>::empty());
        r
    }

    /// Whether a pool of this identifier is known.
    pub fn contains(&self, uuid: PoolUuid) -> (r: bool)
        ensures
            r == self.spec_pools().contains_key(uuid.0),
    {
        self.pools.contains_key(&uuid.0)
    }

    /// Makes a pool of this identifier and name known, unless it is known already.
    pub fn create_pool(&mut self, uuid: PoolUuid, name: &Name) -> (r: Result<
        CreateAction<PoolUuid>,
        StratisError,
    >)
        ensures
            create_outcome(old(self).spec_pools(), uuid.0, name@, final(self).spec_pools(), r),
    {
        let requested = name.to_owned();
        match self.pools.get(&uuid.0) {
            Some(existing) => {
                if *existing == requested {
                    Ok(CreateAction::Identity)
                } else {
                    Err(StratisError::PoolNameConflict(uuid))
                }
            },
            None => {
                self.pools.insert(uuid.0, requested);
                assert(final(self).spec_pools() =~= old(self).spec_pools().insert(uuid.0, name@));
                Ok(CreateAction::Created(uuid))
            },
        }
    }

    /// Forgets the pool of this identifier, if it is known.
    pub fn delete_pool(&mut self, uuid: PoolUuid) -> (r: DeleteAction<PoolUuid>)
        ensures
            delete_outcome(old(self).spec_pools(), uuid.0, final(self).spec_pools(), r),
    {
        let removed = self.pools.remove(&uuid.0);
        assert(final(self).spec_pools() =~= old(self).spec_pools().remove(uuid.0));
        match removed {
            Some(_) => DeleteAction::Deleted(uuid),
            None => DeleteAction::Identity,
        }
    }

    /// Gives the pool of this identifier a new name.
    pub fn rename_pool(&mut self, uuid: PoolUuid, new_name: &Name) -> (r: RenameAction<PoolUuid>)
        ensures
            rename_outcome(old(self).spec_pools(), uuid.0, new_name@, final(self).spec_pools(), r),
    {
        let requested = new_name.to_owned();
        match self.pools.get(&uuid.0) {
            None => RenameAction::NoSource,
            Some(existing) => {
                if *existing == requested {
                    RenameAction::Identity
                } else {
                    self.pools.insert(uuid.0, requested);
                    assert(final(self).spec_pools() =~= old(self).spec_pools().insert(
                        uuid.0,
                        new_name@,
                    ));
                    RenameAction::Renamed(uuid)
                }
            },
        }
    }
}

/// A create request reports "already there" exactly when the pool was there
/// before under the requested name, and "created" exactly when it was not
/// there before and is there afterwards.
pub proof fn lemma_create_reports_change(
    before: Map<u128, Seq<char>>,
    uuid: u128,
    name: Seq<char>,
    after: Map<u128, Seq<char>>,
    r: Result<CreateAction<PoolUuid>, StratisError>,
)
    requires
        create_outcome(before, uuid, name, after, r),
    ensures
        (r matches Ok(CreateAction::Identity)) <==> (before.contains_key(uuid) && before[uuid] == name),
        (r matches Ok(CreateAction::Created(_))) <==> (!before.contains_key(uuid) && after.contains_key(uuid)
            && after[uuid] == name),
{
}

/// A delete request reports a change exactly when the pool was there before
/// and is gone afterwards.
pub proof fn lemma_delete_reports_change(
    before: Map<u128, Seq<char>>,
    uuid: u128,
    after: Map<u128, Seq<char>>,
    r: DeleteAction<PoolUuid>,
)
    requires
        delete_outcome(before, uuid, after, r),
    ensures
        r.spec_is_changed() <==> (before.contains_key(uuid) && !after.contains_key(uuid)),
{
}

} // verus!
