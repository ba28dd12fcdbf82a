//! The configuration of a parachain runtime: which calls are let through, what a
//! block can hold, and the amounts, periods, limits and identities that the
//! pallets are given.
//!
//! Every parameter is a unit type with a `get`. Those that derive from constants
//! of the chain take them as arguments: [`limits::BlockConstants`],
//! [`deposits::Currency`], [`periods::BlockTimes`] and [`periods::BuildFlags`].

pub mod bounds;
pub mod calls;
pub mod deposits;
pub mod dispatch;
pub mod filters;
pub mod governance;
pub mod identities;
pub mod limits;
pub mod periods;
pub mod permissions;
pub mod ratio;
pub mod weight;
