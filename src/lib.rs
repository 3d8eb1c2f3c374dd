//! A grid-based mining game over funded reward pools. Players reveal cells
//! of a 10 by 10 grid one step at a time; each reveal is drawn as empty,
//! gold (paying a share of the pool) or a bomb (ending the round). Accrued
//! reward is collected at will, and each finished round starts a cooldown.
//! Every action takes the records it touches and the current time as plain
//! values and returns the token movements its caller must perform.

pub mod errors;
pub mod grid;
pub mod oracle;
pub mod state;
pub mod mine;
pub mod collect;
pub mod create_pool;
pub mod update_pool;
pub mod initialize;
pub mod update;
pub mod laws;
