use vstd::prelude::*;

verus! {

/// The filter topologies, in the order of their numeric codes.
#[derive(Clone, Copy, Debug, PartialEq, Eq, Structural)]
pub enum FilterType {
    LPF1,
    HPF1,
    LPF2,
    HPF2,
    BPF2,
    NOTCH2,
    PEAK2,
    LoShelf,
    HiShelf,
}

/// The topology that a numeric code selects; an unknown code selects `LPF1`.
pub open spec fn type_of_code(x: u32) -> FilterType {
    if x == 1 {
        FilterType::HPF1
    } else if x == 2 {
        FilterType::LPF2
    } else if x == 3 {
        FilterType::HPF2
    } else if x == 4 {
        FilterType::BPF2
    } else if x == 5 {
        FilterType::NOTCH2
    } else if x == 6 {
        FilterType::PEAK2
    } else if x == 7 {
        FilterType::LoShelf
    } else if x == 8 {
        FilterType::HiShelf
    } else {
        FilterType::LPF1
    }
}

/// The numeric code of a topology.
pub open spec fn code_of_type(t: FilterType) -> u32 {
    match t {
        FilterType::LPF1 => 0,
        FilterType::HPF1 => 1,
        FilterType::LPF2 => 2,
        FilterType::HPF2 => 3,
        FilterType::BPF2 => 4,
        FilterType::NOTCH2 => 5,
        FilterType::PEAK2 => 6,
        FilterType::LoShelf => 7,
        FilterType::HiShelf => 8,
    }
}

/// The order of the recurrence a topology runs: the one-pole forms are of
/// order 1, every other form is a biquad of order 2.
pub open spec fn order_of_type(t: FilterType) -> u32 {
    match t {
        FilterType::LPF1 | FilterType::HPF1 => 1,
        _ => 2,
    }
}

impl FilterType {
    pub fn from_u32(x: u32) -> (r: FilterType)
        ensures
            r == type_of_code(x),
    {
        match x {
            0 => FilterType::LPF1,
            1 => FilterType::HPF1,
            2 => FilterType::LPF2,
            3 => FilterType::HPF2,
            4 => FilterType::BPF2,
            5 => FilterType::NOTCH2,
            6 => FilterType::PEAK2,
            7 => FilterType::LoShelf,
            8 => FilterType::HiShelf,
            _ => FilterType::LPF1,
        }
    }

    pub fn to_u32(self) -> (r: u32)
        ensures
            r == code_of_type(self),
    {
        match self {
            FilterType::LPF1 => 0,
            FilterType::HPF1 => 1,
            FilterType::LPF2 => 2,
            FilterType::HPF2 => 3,
            FilterType::BPF2 => 4,
            FilterType::NOTCH2 => 5,
            FilterType::PEAK2 => 6,
            FilterType::LoShelf => 7,
            FilterType::HiShelf => 8,
        }
    }

    /// Order of the recurrence for this topology (1 or 2).
    pub fn order(self) -> (r: u32)
        ensures
            r == order_of_type(self),
            r == 1 || r == 2,
    {
        match self {
            FilterType::LPF1 | FilterType::HPF1 => 1,
            _ => 2,
        }
    }
}

/// Every topology is selected by its own code.
pub proof fn lemma_code_round_trip(t: FilterType)
    ensures
        type_of_code(code_of_type(t)) == t,
        code_of_type(t) <= 8,
{
}

/// Every code from 0 to 8 names a distinct topology, and codes above 8 fall
/// back to `LPF1`, whose code is 0.
pub proof fn lemma_type_round_trip(x: u32)
    ensures
        x <= 8 ==> code_of_type(type_of_code(x)) == x,
        x > 8 ==> type_of_code(x) == FilterType::LPF1,
{
}

} // verus!
