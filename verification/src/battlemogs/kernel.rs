//! The breeding kernel: how the bytes of the DNA are mixed. It belongs to
//! whoever embeds the game. The moves call it and hold for whatever it hands back.

use vstd::prelude::*;
use crate::battlemogs::mogwai::{Mogwai, MogwaiGeneration, RarityType};

verus! {

/// The way in which the rows of the parents go into the child.
#[derive(Copy, Clone, Debug, PartialEq, Eq, Structural)]
pub enum BreedType {
    DomDom,
    DomRez,
    RezDom,
    RezRez,
}

/// The breed type at `height`: it changes every twenty blocks and comes
/// round after eighty.
pub open spec fn breed_type_at(height: int) -> BreedType {
    let phase = height % 80;
    if phase < 20 {
        BreedType::DomDom
    } else if phase < 40 {
        BreedType::DomRez
    } else if phase < 60 {
        BreedType::RezDom
    } else {
        BreedType::RezRez
    }
}

impl BreedType {
    pub fn calculate_breed_type(block_number: u64) -> (breed_type: BreedType)
        ensures
            breed_type == breed_type_at(block_number as int),
    {
        let mod_value: u64 = 80;
        let modulo_80: u64 = block_number % mod_value;
        if modulo_80 < 20 {
            BreedType::DomDom
        } else if modulo_80 < 40 {
            BreedType::DomRez
        } else if modulo_80 < 60 {
            BreedType::RezDom
        } else {
            BreedType::RezRez
        }
    }
}

/// What the kernel hands back for the next generation.
#[derive(Copy, Clone, Debug, PartialEq, Eq, Structural)]
pub struct NextGeneration {
    /// The rarity of the child.
    pub rarity: RarityType,
    /// The generation of the child.
    pub generation: MogwaiGeneration,
    /// The highest rarity that was in reach.
    pub max_rarity: RarityType,
}

pub trait BreedingKernel {
    /// The DNA of a child from one row of each parent.
    fn pairing(breed_type: BreedType, left: &[u8; 32], right: &[u8; 32]) -> [[u8; 32]; 2];

    /// The DNA of a mogwai after it has hatched.
    fn segmenting(dna: [[u8; 32]; 2], hash: [u8; 32]) -> [[u8; 32]; 2];

    /// The rarity of a mogwai after it has hatched.
    fn bake(rarity: RarityType, hash: [u8; 32]) -> RarityType;

    /// The generations that a mogwai gains when another is sacrificed into it.
    fn sacrifice(
        donor_generation: MogwaiGeneration,
        donor_rarity: RarityType,
        donor_dna: &[[u8; 32]; 2],
        target_generation: MogwaiGeneration,
        target_rarity: RarityType,
        target_dna: &[[u8; 32]; 2],
    ) -> u8;

    /// Rarity and generation of the child of two mogwais.
    fn next_gen(
        generation_1: MogwaiGeneration,
        rarity_1: RarityType,
        generation_2: MogwaiGeneration,
        rarity_2: RarityType,
        hash: &[u8; 32],
    ) -> NextGeneration;
}

/// Whether `dna` is what the kernel `K` has answered for a child of the rows `left` and `right`.
pub open spec fn paired<K: BreedingKernel>(
    breed_type: BreedType,
    left: [u8; 32],
    right: [u8; 32],
    dna: [[u8; 32]; 2],
) -> bool {
    call_ensures(K::pairing, (breed_type, &left, &right), dna)
}

/// Whether `after` is what the kernel `K` has answered for the DNA `dna` of a hatching mogwai.
pub open spec fn segmented<K: BreedingKernel>(dna: [[u8; 32]; 2], hash: [u8; 32], after: [[u8; 32]; 2]) -> bool {
    call_ensures(K::segmenting, (dna, hash), after)
}

/// Whether `after` is what the kernel `K` has answered for the rarity `rarity` of a hatching mogwai.
pub open spec fn baked<K: BreedingKernel>(rarity: RarityType, hash: [u8; 32], after: RarityType) -> bool {
    call_ensures(K::bake, (rarity, hash), after)
}

/// Whether `jump` is what the kernel `K` has answered for the sacrifice of `donor` into `target`.
pub open spec fn jumped<K: BreedingKernel>(donor: Mogwai, target: Mogwai, jump: u8) -> bool {
    call_ensures(
        K::sacrifice,
        (donor.generation, donor.rarity, &donor.dna, target.generation, target.rarity, &target.dna),
        jump,
    )
}

/// Whether `next` is what the kernel `K` has answered for the child of two
/// mogwais of these generations and rarities.
pub open spec fn generated<K: BreedingKernel>(
    generation_1: MogwaiGeneration,
    rarity_1: RarityType,
    generation_2: MogwaiGeneration,
    rarity_2: RarityType,
    hash: [u8; 32],
    next: NextGeneration,
) -> bool {
    call_ensures(K::next_gen, (generation_1, rarity_1, generation_2, rarity_2, &hash), next)
}

} // verus!
