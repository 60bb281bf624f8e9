//! The goods carried on a ride, and the limits on what a driver will take.

use vstd::prelude::*;

verus! {

/// Longest side accepted, in millimetres.
pub const MAX_SIDE_MM: u64 = 130;

/// Largest number of pieces of one item.
pub const MAX_PIECES: u32 = 10;

/// Heaviest load of one item, all pieces together, in grams.
pub const MAX_LOAD_GRAMS: u64 = 5000;

/// The size of one piece, in millimetres.
#[derive(Debug, Clone, Copy, PartialEq, Eq, Structural)]
pub struct Dimensions {
    pub length: u64,
    pub width: u64,
    pub height: u64,
}

/// One line of the list of items carried. The weight is that of a single piece, in
/// grams.
#[derive(Debug, Clone, PartialEq, Eq)]
pub struct ItemDetails {
    pub name: String,
    pub price: u64,
    pub dimensions: Dimensions,
    pub quantity: u32,
    pub weight: u64,
}

/// Why an item is refused.
#[derive(Debug, Clone, Copy, PartialEq, Eq, Structural)]
pub enum ItemError {
    Oversize,
    TooMany,
    Overweight,
}

impl ItemError {
    /// The sentence shown to the rider.
    pub open spec fn message_spec(self) -> Seq<char> {
        match self {
            ItemError::TooMany => "Too many Items"@,
            _ => "Sorry, we cant handle items of this size."@,
        }
    }

    pub fn message(&self) -> (text: String)
        ensures
            text@ == self.message_spec(),
    {
        match self {
            ItemError::TooMany => "Too many Items".to_owned(),
            _ => "Sorry, we cant handle items of this size.".to_owned(),
        }
    }
}

impl ItemDetails {
    /// Sizes are compared as a triple, the length deciding first, then the
    /// width, then the height.
    pub open spec fn oversize(self) -> bool {
        let length = self.dimensions.length;
        let width = self.dimensions.width;
        let height = self.dimensions.height;
        length > MAX_SIDE_MM || (length == MAX_SIDE_MM && (width > MAX_SIDE_MM || (width
            == MAX_SIDE_MM && height > MAX_SIDE_MM)))
    }

    /// Weight of all pieces together, in grams.
    pub open spec fn load_grams(self) -> int {
        self.weight * self.quantity
    }

    pub fn max_dimensions(&self) -> (res: Result<(), ItemError>)
        ensures
            self.oversize() ==> res == Err::<(), ItemError>(ItemError::Oversize),
            !self.oversize() ==> res is Ok,
    {
        let length: u64 = self.dimensions.length;
        let width: u64 = self.dimensions.width;
        let height: u64 = self.dimensions.height;
        if length > MAX_SIDE_MM || (length == MAX_SIDE_MM && (width > MAX_SIDE_MM || (width
            == MAX_SIDE_MM && height > MAX_SIDE_MM))) {
            return Err(ItemError::Oversize);
        }
        Ok(())
    }

    pub fn aggregate_quantity(&self) -> (res: Result<(), ItemError>)
        ensures
            self.quantity > MAX_PIECES ==> res == Err::<(), ItemError>(ItemError::TooMany),
            self.quantity <= MAX_PIECES ==> res is Ok,
    {
        if self.quantity > MAX_PIECES {
            return Err(ItemError::TooMany);
        }
        Ok(())
    }

    pub fn max_weight(&self) -> (res: Result<(), ItemError>)
        ensures
            self.load_grams() > MAX_LOAD_GRAMS ==> res == Err::<(), ItemError>(
                ItemError::Overweight,
            ),
            self.load_grams() <= MAX_LOAD_GRAMS ==> res is Ok,
    {
        assert(self.weight * self.quantity <= u128::MAX) by (nonlinear_arith)
            requires
                self.weight <= u64::MAX,
                self.quantity <= u32::MAX,
        ;
        let total: u128 = (self.weight as u128) * (self.quantity as u128);
        if total > MAX_LOAD_GRAMS as u128 {
            return Err(ItemError::Overweight);
        }
        Ok(())
    }
}

} // verus!
