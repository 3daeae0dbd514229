//! Composable accessors into one centrally owned state tree, and a container
//! that owns the tree and applies queued writes on demand.
//!
//! An accessor is a small copyable value that says where a piece of data
//! lives inside the state. Every accessor is a [`Selector`], which reads,
//! and most are a [`Path`], which also navigates for writing. Each carries a
//! fallibility tag in its type: a guaranteed accessor is expected to resolve
//! on every state, a fallible one may come back empty.
//!
//! Accessors are built by composition ([`ComposeExt::compose`]), starting at
//! the [`RootPath`] of the state and narrowing step by step: into a `Vec` by
//! position or by identity, into a `HashMap` by key, into an array, an
//! `Option` or a `Box`. The tag of a composition is the conjunction of the
//! tags of its parts; [`ManuallyAssertExt::manually_asserted`] overrides it
//! on the caller's word.
//!
//! A [`Context`] owns the root state. Reads go through accessors and see the
//! state as it is; writes are queued as [`Mutation`]s and touch the state
//! only when [`Context::apply`] runs them, in the order they were queued.
//! Queuing needs the [`Queue`] alone, so a container that has been
//! [split](Context::split) can be read while writes to it are queued.

pub mod array;
pub mod boxed;
pub mod change;
pub mod compose;
pub mod context;
pub mod edit;
pub mod manual;
pub mod map;
pub mod option;
pub mod path;
pub mod root;
pub mod vec;

pub use array::{ArrayLookup, ArrayLookupExt};
pub use boxed::{BoxedExt, Unboxed};
pub use change::{applies, runs, written, Mutation};
pub use compose::{ComposeExt, Composed, Conjunction, Guarantee};
pub use context::{Context, Queue};
pub use manual::{ManuallyAssertExt, ManuallyAsserted};
pub use map::{MapItem, MapLookup, MapLookupExt};
pub use option::{OptionExt, OptionUnwrapped};
pub use path::{Path, Selector};
pub use root::{RootPath, StateMarker};
pub use vec::{VecIndex, VecIndexExt, VecItem, VecLookup, VecLookupExt};
