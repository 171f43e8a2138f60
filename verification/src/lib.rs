//! The discrete core of a simulated-annealing search for smooth, symmetric
//! closed curves built from a chain of rigid joints.
//!
//! The search perturbs a short window of joints, optimises the perturbed
//! chain numerically and takes it over or drops it. This crate holds
//! everything in that search that is decided without arithmetic on real
//! numbers, and proves it:
//!
//! * [`settings`]: the constants of a chain: the geometry of its joints,
//!   the weights of its cost and the steps of its finite differences.
//! * [`chain`]: the chain, its phantom boundary joints and the snapshot of
//!   its initial poses; a chain is refused unless it has three joints and
//!   its phantom joints attach to joints of it.
//! * [`repulsion`]: the chain with the symmetry group of the curve and the
//!   strength of the repulsion, which never falls and never passes its cap.
//! * [`sweep`]: the order of the actions of an optimisation run, and the cost
//!   that the run returns.
//! * [`perturb`]: the window and the angles of a move, which cancel over the
//!   window.
//! * [`anneal`]: the acceptance rule and the bookkeeping of the driver.
//! * [`magnitude`]: costs, strengths, probabilities and draws, as values
//!   that are ordered but never computed with.
//!
//! The numerical work stays with the caller: the library tells it which
//! action is due, the caller carries the action out on poses of a type `P`
//! of its own, and reports what came of it.

pub mod anneal;
pub mod chain;
pub mod magnitude;
pub mod perturb;
pub mod repulsion;
pub mod settings;
pub mod sweep;
