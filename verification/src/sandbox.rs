//! What the sandbox in the browser decides before it hands a command to its
//! world.

use crate::pos::Pos;
use vstd::prelude::*;

verus! {

/// A bot that comes with the sandbox.
#[derive(Clone, Copy, Debug, PartialEq, Eq, Structural)]
pub enum Prefab {
    Dummy,
    Roberto,
}

/// The order to put a bot that comes with the sandbox into the world.
#[derive(Clone, Copy, Debug, PartialEq, Eq, Structural)]
pub struct PrefabOrder {
    pub prefab: Prefab,
    /// Where the bot is to appear, if that is fixed.
    pub at: Option<Pos>,
    /// Whether the bot is gone for good once it is killed.
    pub ephemeral: bool,
}

/// The point with the given coordinates, where a coordinate that is left
/// out counts as zero; no point where both are left out.
pub open spec fn opt_pos(x: Option<i32>, y: Option<i32>) -> Option<Pos> {
    if x.is_none() && y.is_none() {
        None
    } else {
        Some(
            Pos {
                x: match x {
                    Some(x) => x,
                    None => 0,
                },
                y: match y {
                    Some(y) => y,
                    None => 0,
                },
            },
        )
    }
}

/// The point that the browser means by two coordinates, either of which it
/// may leave out.
pub fn decode_opt_pos(x: Option<i32>, y: Option<i32>) -> (pos: Option<Pos>)
    ensures
        pos == opt_pos(x, y),
{
    if x.is_none() && y.is_none() {
        None
    } else {
        Some(
            Pos {
                x: match x {
                    Some(x) => x,
                    None => 0,
                },
                y: match y {
                    Some(y) => y,
                    None => 0,
                },
            },
        )
    }
}

/// The bot that goes by `name`.
pub open spec fn prefab_named(name: Seq<char>) -> Option<Prefab> {
    if name == "dummy"@ {
        Some(Prefab::Dummy)
    } else if name == "roberto"@ {
        Some(Prefab::Roberto)
    } else {
        None
    }
}

/// The bot that goes by `name`, if the sandbox comes with one.
pub fn find_prefab(name: &str) -> (prefab: Option<Prefab>)
    ensures
        prefab == prefab_named(name@),
{
    let name = name.to_owned();
    if name == "dummy".to_owned() {
        Some(Prefab::Dummy)
    } else if name == "roberto".to_owned() {
        Some(Prefab::Roberto)
    } else {
        None
    }
}

/// The order that the browser gives with the name of a bot, the
/// coordinates of a place and a word on whether the bot is to stay dead.
/// The bot appears at the place, else at the sandbox's own spawn point, and
/// stays dead only if that was asked for. A name that no bot goes by gives
/// no order.
pub fn prefab_order(
    name: &str,
    x: Option<i32>,
    y: Option<i32>,
    ephemeral: Option<bool>,
    spawn_point: Option<Pos>,
) -> (order: Option<PrefabOrder>)
    ensures
        order == match prefab_named(name@) {
            Some(prefab) => Some(
                PrefabOrder {
                    prefab,
                    at: match opt_pos(x, y) {
                        Some(pos) => Some(pos),
                        None => spawn_point,
                    },
                    ephemeral: ephemeral == Some(true),
                },
            ),
            None => None,
        },
{
    let prefab = match find_prefab(name) {
        Some(prefab) => prefab,
        None => {
            return None;
        },
    };
    let at = match decode_opt_pos(x, y) {
        Some(pos) => Some(pos),
        None => spawn_point,
    };
    let ephemeral = match ephemeral {
        Some(ephemeral) => ephemeral,
        None => false,
    };
    Some(PrefabOrder { prefab, at, ephemeral })
}

} // verus!
