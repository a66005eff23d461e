//! Storage for the gain network loaded from the card, and the factors it yields for the inner
//! motor gains.
//!
//! The network is parsed once, moved into a cell that lives as long as the program, and
//! registered. The outer loop evaluates it on every tick and publishes the factors; the inner loop
//! picks them up.

use vstd::prelude::*;

verus! {

/// The word of the single precision number one.
pub const ONE_F32_BITS: u32 = 0x3F80_0000;

/// A cell of the `static_cell` crate, filled at most once.
#[verifier::external_type_specification]
#[verifier::external_body]
#[verifier::reject_recursive_types(T)]
pub struct ExStaticCell<T>(static_cell::StaticCell<T>);

/// `static_cell::StaticCell::init`: fills the cell and lends out the value it was given. Every
/// function that fills a cell borrows it for good, so that a cell held by an exclusive reference
/// for good is empty, and is filled without a panic.
#[verifier::external_body]
fn fill_cell<T>(cell: &'static mut static_cell::StaticCell<T>, value: T) -> (stored: &'static T)
    ensures
        *stored == value,
{
    cell.init(value)
}

/// The place for the one network of the program: the cell as long as it is empty, and what was
/// stored in it.
#[verifier::reject_recursive_types(T)]
pub struct GainMlpCell<T: 'static> {
    pub cell: Option<&'static mut static_cell::StaticCell<T>>,
    pub stored: Option<&'static T>,
}

impl<T> GainMlpCell<T> {
    /// Nothing is stored yet.
    pub open spec fn free(&self) -> bool {
        self.cell is Some
    }

    /// A place that holds nothing yet.
    pub fn new(cell: &'static mut static_cell::StaticCell<T>) -> (place: Self)
        ensures
            place.free(),
            place.stored is None,
    {
        GainMlpCell { cell: Some(cell), stored: None }
    }

    /// Whether nothing is stored yet.
    pub fn is_free(&self) -> (free: bool)
        ensures
            free == self.free(),
    {
        self.cell.is_some()
    }
}

/// Storing `mlp` for good, in a place that holds nothing yet; `stored` is where it is found.
pub open spec fn stores<T>(
    before: GainMlpCell<T>,
    mlp: T,
    after: GainMlpCell<T>,
    stored: &'static T,
) -> bool {
    &&& before.free()
    &&& *stored == mlp
    &&& after.stored == Some(stored)
    &&& !after.free()
}

/// Moves the network into its cell and returns it for good.
pub fn store_gain_mlp<T>(place: &mut GainMlpCell<T>, mlp: T) -> (stored: &'static T)
    requires
        old(place).free(),
    ensures
        stores(*old(place), mlp, *final(place), stored),
{
    let cell = place.cell.take().unwrap();
    let stored = fill_cell(cell, mlp);
    place.stored = Some(stored);
    stored
}

/// A network is stored once: after that the place is not free, so that no other network can take
/// its place, and what is found there is the network that was given.
pub proof fn law_network_is_stored_once<T>(
    before: GainMlpCell<T>,
    mlp: T,
    after: GainMlpCell<T>,
    stored: &'static T,
    second: T,
    later: GainMlpCell<T>,
    other: &'static T,
)
    requires
        stores(before, mlp, after, stored),
    ensures
        *stored == mlp,
        after.stored == Some(stored),
        !stores(after, second, later, other),
{
}

/// Where the registered network is found.
pub struct GainMlpRef<T: 'static> {
    pub mlp: Option<&'static T>,
}

impl<T> GainMlpRef<T> {
    /// Nothing is registered yet.
    pub fn new() -> (slot: Self)
        ensures
            slot.mlp is None,
    {
        GainMlpRef { mlp: None }
    }
}

/// Registers a stored network, in place of an earlier one.
pub fn register_gain_mlp<T>(slot: &mut GainMlpRef<T>, mlp: &'static T)
    ensures
        final(slot).mlp == Some(mlp),
{
    slot.mlp = Some(mlp);
}

/// The registered network, if there is one.
pub fn gain_mlp<T>(slot: &GainMlpRef<T>) -> (mlp: Option<&'static T>)
    ensures
        mlp == slot.mlp,
{
    slot.mlp
}

/// The factors for the proportional and the integral gain of the inner loop, as single precision
/// words.
#[derive(Clone, Copy, Debug, PartialEq, Eq, Structural)]
pub struct InnerGainScales {
    pub kp_scale: u32,
    pub ki_scale: u32,
}

impl InnerGainScales {
    /// The factors before anything is published: both are one.
    pub fn new() -> (scales: Self)
        ensures
            scales.kp_scale == ONE_F32_BITS,
            scales.ki_scale == ONE_F32_BITS,
    {
        InnerGainScales { kp_scale: ONE_F32_BITS, ki_scale: ONE_F32_BITS }
    }
}

/// Publishes both factors.
pub fn set_inner_gain_scales(scales: &mut InnerGainScales, kp_scale: u32, ki_scale: u32)
    ensures
        *final(scales) == (InnerGainScales { kp_scale, ki_scale }),
{
    scales.kp_scale = kp_scale;
    scales.ki_scale = ki_scale;
}

/// Sets both factors back to one.
pub fn reset_inner_gain_scales(scales: &mut InnerGainScales)
    ensures
        *final(scales) == (InnerGainScales { kp_scale: ONE_F32_BITS, ki_scale: ONE_F32_BITS }),
{
    set_inner_gain_scales(scales, ONE_F32_BITS, ONE_F32_BITS);
}

/// The published factors.
pub fn inner_gain_scales(scales: &InnerGainScales) -> (published: (u32, u32))
    ensures
        published == (scales.kp_scale, scales.ki_scale),
{
    (scales.kp_scale, scales.ki_scale)
}

} // verus!
