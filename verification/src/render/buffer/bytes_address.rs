//! Addresses and sizes in a buffer, in bytes.

use vstd::prelude::*;
use vstd::std_specs::ops::{AddSpecImpl, SubSpecImpl};

verus! {

#[derive(Copy, Clone, Debug, PartialEq, Eq, Hash, Structural)]
pub struct BytesAddress(pub u64);

impl BytesAddress {
    pub const ZERO: u64 = 0;

    pub fn new(value: u64) -> (address: Self)
        ensures
            address.0 == value,
    {
        Self(value)
    }

    pub fn from_usize(value: usize) -> (address: Self)
        ensures
            address.0 == value,
    {
        Self(value as u64)
    }

    pub fn get(self) -> (value: u64)
        ensures
            value == self.0,
    {
        self.0
    }

    /// Whether the address is a multiple of `alignment`.
    pub open spec fn aligned_to(&self, alignment: BytesAddress) -> bool {
        self.0 % alignment.0 == 0
    }

    pub fn is_aligned_to(&self, alignment: BytesAddress) -> (aligned: bool)
        requires
            alignment.0 != 0,
        ensures
            aligned == self.aligned_to(alignment),
    {
        let remainder = self.0 % alignment.0;
        remainder == 0
    }

    /// States that the address is a multiple of `alignment`.
    pub fn assert_is_aligned_to(&self, alignment: BytesAddress)
        requires
            alignment.0 != 0,
            self.aligned_to(alignment),
    {
    }

    /// The least multiple of `alignment` that is not below the address.
    pub fn align_to(self, alignment: BytesAddress) -> (aligned: Self)
        requires
            alignment.0 != 0,
            self.aligned_to(alignment) || self.0 + alignment.0 <= u64::MAX,
        ensures
            aligned.aligned_to(alignment),
            self.0 <= aligned.0 < self.0 + alignment.0,
            self.aligned_to(alignment) ==> aligned == self,
    {
        let remainder = BytesAddress(self.0 % alignment.0);
        if remainder.0 == 0 {
            self
        } else {
            let ghost up = self.0 - remainder.0 + alignment.0;
            assert(up % (alignment.0 as int) == 0) by (nonlinear_arith)
                requires
                    alignment.0 > 0,
                    remainder.0 == self.0 % alignment.0,
                    up == self.0 - remainder.0 + alignment.0,
            ;
            self + alignment - remainder
        }
    }
}

impl core::ops::Add for BytesAddress {
    type Output = BytesAddress;

    fn add(self, rhs: Self) -> (sum: BytesAddress) {
        Self(self.0 + rhs.0)
    }
}

impl AddSpecImpl for BytesAddress {
    open spec fn obeys_add_spec() -> bool {
        true
    }

    open spec fn add_req(self, rhs: Self) -> bool {
        self.0 + rhs.0 <= u64::MAX
    }

    open spec fn add_spec(self, rhs: Self) -> BytesAddress {
        BytesAddress((self.0 + rhs.0) as u64)
    }
}

impl core::ops::Sub for BytesAddress {
    type Output = BytesAddress;

    fn sub(self, rhs: Self) -> (difference: BytesAddress) {
        Self(self.0 - rhs.0)
    }
}

impl SubSpecImpl for BytesAddress {
    open spec fn obeys_sub_spec() -> bool {
        true
    }

    open spec fn sub_req(self, rhs: Self) -> bool {
        self.0 >= rhs.0
    }

    open spec fn sub_spec(self, rhs: Self) -> BytesAddress {
        BytesAddress((self.0 - rhs.0) as u64)
    }
}

} // verus!
