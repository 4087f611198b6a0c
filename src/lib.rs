//! Decision logic of a continuous-collision rigid-body stepper: mesh
//! connectivity, the ordering of single-precision values by bit pattern,
//! selection of the earliest admissible root, contact classification and the
//! tracking of the earliest contact and the next step within a substep.
pub mod classify;
pub mod contact;
pub mod ieee;
pub mod roots;
pub mod substep;
pub mod topology;
