use vstd::prelude::*;

verus! {

/// How a player relates to the player whose game is being observed.
#[derive(Clone, Copy, Debug, PartialEq, Eq, Structural)]
pub enum PlayerType {
    Team,
    Enemy,
    Local,
    Unknown,
}

} // verus!
