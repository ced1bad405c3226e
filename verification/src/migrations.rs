//! Which migrations of the store's schema are due.

use vstd::prelude::*;

verus! {

/// The schema version that this build works with.
pub const CURRENT_VERSION: i32 = 2;

/// A step that brings the schema one version forward.
#[derive(Debug, Clone, Copy, PartialEq, Eq, Structural)]
pub enum Migration {
    /// Creates the initial schema.
    V1,
    /// Adds the Azure Foundry configuration.
    V2,
}

/// The store was written by a newer build.
#[derive(Debug, Clone, Copy, PartialEq, Eq, Structural)]
pub struct NewerSchema {
    pub stored: i32,
    pub current: i32,
}

/// The schema version of a store: 0 where the store has no table of
/// versions, or no readable version in it.
pub fn stored_version(table_exists: bool, recorded: Option<i32>) -> (r: i32)
    ensures
        r == (if table_exists && recorded is Some {
            recorded->Some_0
        } else {
            0i32
        }),
{
    if !table_exists {
        return 0;
    }
    match recorded {
        Some(version) => version,
        None => 0,
    }
}

/// The steps that are due for a store of a given version, in order.
pub open spec fn steps_due(stored: int) -> Seq<Migration> {
    if stored < 1 {
        seq![Migration::V1, Migration::V2]
    } else if stored < 2 {
        seq![Migration::V2]
    } else {
        Seq::empty()
    }
}

/// The steps to run on a store of a given version, in order. A store of a
/// newer version than this build's is refused, and nothing is run on it.
pub fn pending_migrations(stored: i32) -> (r: Result<Vec<Migration>, NewerSchema>)
    ensures
        stored > CURRENT_VERSION ==> r == Err::<Vec<Migration>, NewerSchema>(
            NewerSchema { stored, current: CURRENT_VERSION },
        ),
        stored <= CURRENT_VERSION ==> (r matches Ok(steps) && steps@ == steps_due(stored as int)),
{
    if stored > CURRENT_VERSION {
        return Err(NewerSchema { stored, current: CURRENT_VERSION });
    }
    let mut steps: Vec<Migration> = Vec::new();
    if stored < 1 {
        steps.push(Migration::V1);
    }
    if stored < 2 {
        steps.push(Migration::V2);
    }
    assert(steps@ =~= steps_due(stored as int));
    Ok(steps)
}

/// The version that the store records once a step has run.
pub fn version_after(step: Migration) -> (r: i32)
    ensures
        r == (match step {
            Migration::V1 => 1i32,
            Migration::V2 => 2i32,
        }),
        1 <= r <= CURRENT_VERSION,
{
    match step {
        Migration::V1 => 1,
        Migration::V2 => 2,
    }
}

} // verus!
