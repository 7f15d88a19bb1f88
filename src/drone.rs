//! The states of a drone as a sealed set of types: the pattern this library
//! produces, written out. A drone's state is one of `Idle`, `Hovering` and
//! `Flying`, and no other crate can add a state, because implementing
//! `DroneState` asks for the hidden marker.
use vstd::prelude::*;
use crate::drone_seal::Sealed;

verus! {

/// A state a drone can be in.
pub trait DroneState: Sealed {}

/// On the ground.
#[derive(Clone, Copy, Debug, PartialEq, Eq)]
pub struct Idle;

/// In the air, in place.
#[derive(Clone, Copy, Debug, PartialEq, Eq)]
pub struct Hovering;

/// In the air, on the way somewhere.
#[derive(Clone, Copy, Debug, PartialEq, Eq)]
pub struct Flying;

impl Sealed for Idle {}

impl DroneState for Idle {}

impl Sealed for Hovering {}

impl DroneState for Hovering {}

impl Sealed for Flying {}

impl DroneState for Flying {}

} // verus!
