//! Behavior tree nodes: self-consuming state machines whose step returns
//! either a continuation plus a nonterminal value, or a terminal value with
//! no continuation.

/// The base leaf nodes on which behavior trees are built.
pub mod base_nodes;
/// The behavior tree node trait and associated enums.
pub mod behavior_tree_node;
/// An assortment of controlling wrappers for behavior tree nodes.
pub mod control_wrappers;
/// A parallel node over two differently typed children.
pub mod heterogeneous_parallel_node;
/// A serial node over two differently typed children.
pub mod heterogeneous_serial_node;
/// An assortment of mapping wrappers for behavior tree nodes.
pub mod map_wrappers;
/// An assortment of serial and parallel node controllers.
pub mod node_compositions;
/// An automaton wrapper for behavior tree nodes.
pub mod node_runner;
/// Construction wrappers for behavior tree nodes.
pub mod node_wrappers;
/// A parallel running node controller.
pub mod parallel_node;
/// A serial running node controller.
pub mod serial_node;
