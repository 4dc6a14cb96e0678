//! The order in which keyboard hints improve.

use std::cmp::Ordering;
use vstd::prelude::*;
use crate::letters::{slot_rank, Position};

verus! {

/// A keyboard slot with its order: `None` (nothing known) is below
/// everything, then come `NotInWord`, `WrongPosition` and, on top, `Correct`.
/// Every value is equal to itself and to nothing else.
#[derive(Debug, PartialEq, Eq, Structural)]
pub struct OrderedPosition(pub Option<Position>);

impl PartialOrd for OrderedPosition {
    fn partial_cmp(&self, other: &Self) -> (r: Option<Ordering>) {
        let this = self.0;
        let other = other.0;
        Some(
            match this {
                None => match other {
                    None => Ordering::Equal,
                    _ => Ordering::Less,
                },
                Some(pos) => match pos {
                    Position::NotInWord => match other {
                        None => Ordering::Greater,
                        Some(Position::NotInWord) => Ordering::Equal,
                        Some(Position::WrongPosition) | Some(Position::Correct) => Ordering::Less,
                    },
                    Position::WrongPosition => match other {
                        None | Some(Position::NotInWord) => Ordering::Greater,
                        Some(Position::WrongPosition) => Ordering::Equal,
                        Some(Position::Correct) => Ordering::Less,
                    },
                    Position::Correct => match other {
                        Some(Position::Correct) => Ordering::Equal,
                        _ => Ordering::Greater,
                    },
                },
            },
        )
    }
}

impl vstd::std_specs::cmp::PartialOrdSpecImpl for OrderedPosition {
    open spec fn obeys_partial_cmp_spec() -> bool {
        true
    }

    /// Two slots compare as their ranks do.
    open spec fn partial_cmp_spec(&self, other: &Self) -> Option<Ordering> {
        let a: nat = slot_rank(self.0);
        let b: nat = slot_rank(other.0);
        if a < b {
            Some(Ordering::Less)
        } else if a == b {
            Some(Ordering::Equal)
        } else {
            Some(Ordering::Greater)
        }
    }
}

} // verus!
