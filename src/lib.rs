//! Crash-consistent overwrites of single files on a filesystem that offers only
//! write, fsync, rename and unlink.
//!
//! A write first stages its content in a hidden sibling of the target, the
//! staging record, whose name carries the content's fingerprint; it then
//! promotes the record: copy it to a temporary sibling, rename that onto the
//! target, remove the record. A read first looks for records that interrupted
//! writes left behind, promotes the first one that checks out, removes them
//! all, and only then reads the target.
//!
//! The library holds the decisions of this protocol as sessions (`write`,
//! `read`, `commit`) that hand their caller one filesystem request at a time
//! (`fsop`) and take its outcome back; the durable primitives behind those
//! requests are plans of single system calls (`durable`). `model` runs the
//! sessions against an ideal filesystem, and `laws` proves the protocol's
//! properties over those runs.
use vstd::prelude::*;

pub mod checksum;
pub mod commit;
pub mod durable;
pub mod error;
pub mod fsop;
pub mod laws;
pub mod mode;
pub mod model;
pub mod path;
pub mod random;
pub mod read;
pub mod text;
pub mod write;

verus! {

} // verus!
