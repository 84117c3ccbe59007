//! Small concrete machines, nodes and policies: ready-made instances of
//! the library's transition and decision traits, each with its exact
//! specification. They serve as building blocks for simple agents and as
//! the subjects of the crate's test suite.

/// Sample automata and mapping values.
pub mod machines;
/// Sample behavior tree nodes and controllers.
pub mod nodes;
/// Sample composition policies, enumerable node families and collections.
pub mod compositions;
