//! A registry for deferred calls.
//!
//! Users create *requests*: a target to call, a payload, and optionally an
//! asset held in escrow for the target. A request is paid for with a fee,
//! either once when it is created, or, for a recurring request, out of a
//! pool that its owner fills in advance. *Executors* stake a fixed amount
//! per stake; once per epoch one of them is drawn from the stake roll and
//! alone may execute requests until the epoch ends. An admin sets the
//! parameters and keeps a blacklist of targets.
//!
//! The registry is one value, [`registry::Registry`], and every operation
//! in [`contract`] is a function on it: it either succeeds, changes the
//! registry and hands back instructions for the host together with an
//! event, or it fails with an error and changes nothing. What holds between
//! the parts of a registry ([`registry::consistent`]) holds of every
//! registry at all times: the type keeps it.
//!
//! The host is not part of this library. It keeps the registry between
//! calls ([`snapshot`]), validates addresses, moves the assets that the
//! instructions name, and reports back on the call of a request's target.
//!
//! Three things are as they are on purpose:
//!
//! - The draw of the executor is seeded with the block height and with
//!   nothing else ([`rotation`]). Whoever knows the height at which an epoch
//!   starts knows the draw, and can arrange the stake roll before.
//! - The mark of the request in execution is a record, not a lock: it does
//!   not keep a second request from being executed before the host has
//!   reported on the first.
//! - Stakes are taken back by position, and a removal moves the last entry
//!   of the roll to the place of the one taken out. The positions of one
//!   call are read one after another, each against the roll as the removals
//!   before it have left it.

pub mod asset;
pub mod blacklist;
pub mod contract;
pub mod error;
pub mod helper;
pub mod laws;
pub mod ledger;
pub mod msg;
pub mod payment;
pub mod query;
pub mod registry;
pub mod rotation;
pub mod snapshot;
pub mod state;
pub mod text;
pub mod version;
pub mod wrapper;
