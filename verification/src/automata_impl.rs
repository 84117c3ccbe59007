//! Automata: agents driven by one `transition` call per tick.

/// Combinators for automata.
pub mod automata_combinators;
/// The Automaton trait and the FiniteStateAutomaton trait.
pub mod automaton;
/// The DualStateMachine finite state machine implementation.
pub mod dual_state_machine;
/// The InternalAutomaton borrowed-stepper automaton implementation.
pub mod internal_automaton;
/// The InternalStateMachine finite state machine implementation.
pub mod internal_state_machine;
/// An assortment of mapping and construction wrappers for automata.
pub mod map_wrappers;
/// The OwnStateMachine boxed state machine implementation.
pub mod own_state_machine;
/// A pushdown automaton implementation based on finite state machines.
pub mod pushdown_automaton;
/// The RefStateMachine finite state machine implementation.
pub mod ref_state_machine;
/// Stateless automaton.
pub mod stateless_mapper;
