//! Warnings for items that are never used: functions, structs, constants, local variables and
//! imports.
//!
//! A walk over the unit that is compiled finds out what its paths name. It warns of local variables
//! as their scopes close, and notes what the members of each composite are made of. Of these
//! dependencies, those that start at something used are followed, which gives the composites that
//! are live. The items at the top of the unit and of its modules are then checked, one by one.
//!
//! A name that starts with `_` may be unused. Fields of structs are not warned of, and neither is
//! what the unit imports.
pub mod balance;
pub mod check;
pub mod collect;
pub mod collect_items;
pub mod events;
pub mod item_events;
pub mod laws;
pub mod live;
pub mod occurrences;
pub mod pass;
pub mod scopes;
pub mod uses;
