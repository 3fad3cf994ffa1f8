//! Brings a saved document up to the current version of the format. A
//! document is migrated as the generic value that it was decoded to, one
//! version at a time.

use ciborium::Value;
use vstd::prelude::*;

verus! {

/// `ciborium::Value`, the generic form of a decoded document, taken as it
/// is: nothing is said about what a value holds.
#[verifier::external_type_specification]
#[verifier::external_body]
pub struct ExValue(Value);

/// The version of the format that worlds are saved in.
pub const VERSION: u32 = 4;

/// A migration that failed, with the version that it was to lead to.
#[derive(Debug, PartialEq, Eq)]
pub struct MigrationError {
    pub version: u32,
    pub message: String,
}

/// Whether `result` can come of migrating `world` from version `from` to
/// version `to` with `step`, which takes a document to the version that it
/// is given. The steps are taken one after the other, each on what the one
/// before gave; without a step to take the document stays as it is. The
/// first step that fails ends the migration with its message and the
/// version that it was to lead to, and nothing of the steps before is kept.
pub open spec fn migrated<F: Fn(u32, Value) -> Result<Value, String>>(
    step: F,
    from: u32,
    to: u32,
    world: Value,
    result: Result<Value, MigrationError>,
) -> bool
    decreases to - from,
{
    if from >= to {
        result == Ok::<Value, MigrationError>(world)
    } else {
        exists|stepped: Result<Value, String>| #[trigger]
            step.ensures(((from + 1) as u32, world), stepped) && match stepped {
                Ok(next) => migrated(step, (from + 1) as u32, to, next, result),
                Err(message) => result matches Err(error) && error.version == from + 1
                    && error.message == message,
            }
    }
}

/// Migrates `world` from version `from` to version `to`: for each version
/// after `from`, up to `to`, `step` is called with that version and the
/// document as the versions before left it.
pub fn run<F: Fn(u32, Value) -> Result<Value, String>>(from: u32, to: u32, world: Value, step: &F) -> (result:
    Result<Value, MigrationError>)
    requires
        forall|version: u32, document: Value|
            from < version <= to ==> #[trigger] step.requires((version, document)),
    ensures
        migrated(*step, from, to, world, result),
{
    let mut document = world;
    let mut nth = from;
    while nth < to
        invariant
            from <= nth,
            from < to ==> nth <= to,
            forall|version: u32, document: Value|
                from < version <= to ==> #[trigger] step.requires((version, document)),
            forall|result: Result<Value, MigrationError>| #[trigger]
                migrated(*step, nth, to, document, result) ==> migrated(
                    *step,
                    from,
                    to,
                    world,
                    result,
                ),
        decreases to - nth,
    {
        let ghost before = document;
        let stepped = step(nth + 1, document);
        match stepped {
            Ok(next) => {
                document = next;
                proof {
                    assert forall|result: Result<Value, MigrationError>| #[trigger]
                        migrated(*step, (nth + 1) as u32, to, document, result) implies migrated(
                        *step,
                        from,
                        to,
                        world,
                        result,
                    ) by {
                        assert(step.ensures(((nth + 1) as u32, before), stepped));
                        assert(migrated(*step, nth, to, before, result));
                    }
                }
            },
            Err(message) => {
                let result = Err(MigrationError { version: nth + 1, message });
                proof {
                    assert(step.ensures(((nth + 1) as u32, before), stepped));
                    assert(migrated(*step, nth, to, before, result));
                }
                return result;
            },
        }
        nth += 1;
    }
    let result = Ok(document);
    assert(migrated(*step, nth, to, document, result));
    result
}

/// Migrating the same document again gives the same again, as long as each
/// step gives the same for the same document: if it fails, then both times
/// at the same version and with the same message.
pub proof fn migration_is_repeatable<F: Fn(u32, Value) -> Result<Value, String>>(
    step: F,
    from: u32,
    to: u32,
    world: Value,
    first: Result<Value, MigrationError>,
    second: Result<Value, MigrationError>,
)
    requires
        forall|version: u32, document: Value, a: Result<Value, String>, b: Result<Value, String>|
            #[trigger] step.ensures((version, document), a) && #[trigger] step.ensures(
                (version, document),
                b,
            ) ==> a == b,
        migrated(step, from, to, world, first),
        migrated(step, from, to, world, second),
    ensures
        first == second,
    decreases to - from,
{
    if from < to {
        let a = choose|stepped: Result<Value, String>| #[trigger]
            step.ensures(((from + 1) as u32, world), stepped) && match stepped {
                Ok(next) => migrated(step, (from + 1) as u32, to, next, first),
                Err(message) => first matches Err(error) && error.version == from + 1
                    && error.message == message,
            };
        let b = choose|stepped: Result<Value, String>| #[trigger]
            step.ensures(((from + 1) as u32, world), stepped) && match stepped {
                Ok(next) => migrated(step, (from + 1) as u32, to, next, second),
                Err(message) => second matches Err(error) && error.version == from + 1
                    && error.message == message,
            };
        assert(a == b);
        match a {
            Ok(next) => {
                migration_is_repeatable(step, (from + 1) as u32, to, next, first, second);
            },
            Err(_) => {},
        }
    }
}

} // verus!
