//! A composition algebra for step-driven state machines ("automata") and for
//! hierarchical decision processes ("behavior tree nodes") built on top of
//! them. A host loop drives an agent by calling it once per tick with one
//! input and receiving one action.
//!
//! Every machine and node carries, next to its executable `transition` /
//! `step` method, a specification of what that method does: a transition
//! relation that the method is proved to satisfy. Deterministic components
//! pin the relation down to a function of the old state and the input, so
//! the behaviour of a whole composition is derivable from the behaviour of
//! its parts.

/// Automata: the transition contract, the base machine kinds, structural
/// combinators, and the pushdown automaton.
pub mod automata_impl;
/// Behavior tree nodes: the step contract, leaf nodes, wrappers, and the
/// serial and parallel composition operators with their decision policies.
pub mod behavior_tree;
/// A three-valued logical value for behavior node outcomes.
pub mod behavior_value;
/// Ready-made sample machines, nodes and policies with exact
/// specifications.
pub mod samples;
