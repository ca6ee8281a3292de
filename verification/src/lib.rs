//! A small entity-component-system runtime driving a Game-of-Life style
//! cellular automaton with interactive editing.
//!
//! The engine keeps entities as bags of typed components, mutations are
//! requested through queued events, and an ordered system pipeline advances
//! the automaton one tick at a time. A separate module decodes nucleotide
//! sequences into organism traits.

pub mod component;
pub mod engine;
pub mod life;
pub mod game_of_life;
pub mod genes;
pub mod evolution;
