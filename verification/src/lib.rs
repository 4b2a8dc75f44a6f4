use vstd::prelude::*;

pub mod detect;
pub mod earliest;
pub mod filter;
pub mod generic_tables;
pub mod history;
pub mod hlist;
pub mod loc;
pub mod locate;
pub mod order_conditions;
pub mod partition_point;
pub mod periodic;
pub mod propagation;
pub mod rational;
pub mod rk;
pub mod solver;
pub mod stable_index_deque;
pub mod stepsize;
pub mod symbol;
mod tables;
pub mod tower;

verus! {

} // verus!
