//! The genetic-encoding experiment: organisms decoded from nucleotide
//! sequences. Disconnected from the engine; a pure lookup-table decoder.

use vstd::prelude::*;
use crate::genes::Genome;

verus! {

/// Placeholder owner of the genetic-encoding experiment.
pub struct Evolution {}

/// An organism: its genome and the stats decoded from it.
#[derive(Debug, Clone)]
pub struct Organism {
    pub genome: Genome,
    pub food: u32,
    pub age: u32,
    pub health: u32,
    pub lifespan: u32,
}

} // verus!
