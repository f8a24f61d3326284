//! Identifiers of layers, layer banks and planes.

use vstd::prelude::*;
use crate::format::instructions::FromNumber;

verus! {

pub const LAYERBANKS_COUNT: usize = 0x30;

pub const LAYERS_COUNT: usize = 0x100;

pub const PLANES_COUNT: usize = 4;

/// An unsigned number that can be counted with.
pub trait ThroughUsize: Sized {
    /// The number as a `usize`.
    spec fn as_usize(self) -> usize;

    /// Whether the type can hold `value`.
    spec fn holds(value: usize) -> bool;

    fn from_usize(value: usize) -> (number: Self)
        requires
            Self::holds(value),
        ensures
            number.as_usize() == value,
    ;

    fn into_usize(self) -> (value: usize)
        ensures
            value == self.as_usize(),
            Self::holds(value),
    ;
}

impl ThroughUsize for u8 {
    open spec fn as_usize(self) -> usize {
        self as usize
    }

    open spec fn holds(value: usize) -> bool {
        value <= u8::MAX
    }

    fn from_usize(value: usize) -> (number: u8) {
        value as u8
    }

    fn into_usize(self) -> (value: usize) {
        self as usize
    }
}

impl ThroughUsize for u16 {
    open spec fn as_usize(self) -> usize {
        self as usize
    }

    open spec fn holds(value: usize) -> bool {
        value <= u16::MAX
    }

    fn from_usize(value: usize) -> (number: u16) {
        value as u16
    }

    fn into_usize(self) -> (value: usize) {
        self as usize
    }
}

/// An identifier below `SENTINEL`.
#[derive(Debug, Clone, Copy, PartialEq, Eq, PartialOrd, Ord, Hash)]
pub struct Id<T: ThroughUsize + Copy, const SENTINEL: usize>(pub T);

/// An identifier below `SENTINEL`, or none: `SENTINEL` itself stands for none.
#[derive(Debug, Clone, Copy, PartialEq, Eq, PartialOrd, Ord, Hash)]
pub struct IdOpt<T: ThroughUsize + Copy, const SENTINEL: usize>(pub T);

impl<T: ThroughUsize + Copy, const SENTINEL: usize> Id<T, SENTINEL> {
    /// The identifier as a number.
    pub open spec fn index(self) -> usize {
        self.0.as_usize()
    }

    /// Whether the identifier is below `SENTINEL`, as it is meant to be.
    pub open spec fn in_range(self) -> bool {
        self.index() < SENTINEL
    }

    #[inline]
    pub fn try_new(id: T) -> (result: Option<Self>)
        ensures
            result is Some <==> id.as_usize() < SENTINEL,
            result matches Some(made) ==> made.0 == id,
    {
        if id.into_usize() < SENTINEL {
            Some(Self(id))
        } else {
            None
        }
    }

    #[inline]
    pub fn new(id: T) -> (made: Self)
        requires
            id.as_usize() < SENTINEL,
        ensures
            made.0 == id,
            made.in_range(),
    {
        Self(id)
    }

    /// Doesn't check that the `T` is in range: the caller has to know.
    #[inline]
    pub fn new_unchecked(id: T) -> (made: Self)
        ensures
            made.0 == id,
    {
        Self(id)
    }

    #[inline]
    pub fn raw(self) -> (raw: T)
        ensures
            raw == self.0,
    {
        self.0
    }

    /// The identifier after this one, or none where that would be `SENTINEL`.
    #[inline]
    pub fn try_next(self) -> (next: Option<Self>)
        requires
            self.index() < usize::MAX,
            T::holds((self.index() + 1) as usize),
        ensures
            next is Some <==> self.index() + 1 != SENTINEL,
            next matches Some(next) ==> next.index() == self.index() + 1,
    {
        let id = T::from_usize(self.0.into_usize() + 1);
        if id.into_usize() == SENTINEL {
            None
        } else {
            Some(Self(id))
        }
    }

    pub fn next(self) -> (next: Self)
        requires
            self.index() < usize::MAX,
            T::holds((self.index() + 1) as usize),
            self.index() + 1 != SENTINEL,
        ensures
            next.index() == self.index() + 1,
    {
        match self.try_next() {
            Some(next) => next,
            None => vstd::pervasive::unreached(),
        }
    }
}

impl<T: ThroughUsize + Copy, const SENTINEL: usize> IdOpt<T, SENTINEL> {
    /// The number that stands for the identifier, or `SENTINEL` for none.
    pub open spec fn index(self) -> usize {
        self.0.as_usize()
    }

    pub open spec fn is_none(self) -> bool {
        self.index() == SENTINEL
    }

    pub fn none() -> (made: Self)
        requires
            T::holds(SENTINEL),
        ensures
            made.is_none(),
    {
        Self(T::from_usize(SENTINEL))
    }

    pub fn some(id: Id<T, SENTINEL>) -> (made: Self)
        ensures
            made.0 == id.0,
    {
        Self(id.0)
    }

    pub fn from_option(option: Option<Id<T, SENTINEL>>) -> (made: Self)
        requires
            option is None ==> T::holds(SENTINEL),
        ensures
            option matches Some(id) ==> made.0 == id.0,
            option is None ==> made.is_none(),
    {
        match option {
            Some(id) => Self::some(id),
            None => Self::none(),
        }
    }

    pub fn into_option(self) -> (option: Option<Id<T, SENTINEL>>)
        ensures
            option is None <==> self.is_none(),
            option matches Some(id) ==> id.0 == self.0,
    {
        if self.0.into_usize() == SENTINEL {
            None
        } else {
            Some(Id(self.0))
        }
    }

    pub fn unwrap(self) -> (id: Id<T, SENTINEL>)
        requires
            !self.is_none(),
        ensures
            id.0 == self.0,
    {
        match self.into_option() {
            Some(id) => id,
            None => vstd::pervasive::unreached(),
        }
    }

    pub fn raw(self) -> (raw: T)
        ensures
            raw == self.0,
    {
        self.0
    }
}

/// Layer id, but allowing only "real" layers
pub type LayerId = Id<u16, 0x100>;

/// Layer id, but allowing only "real" layers and a "none" value
pub type LayerIdOpt = IdOpt<u16, 0x100>;

pub type LayerbankId = Id<u8, 0x30>;

pub type LayerbankIdOpt = IdOpt<u8, 0x30>;

pub type PlaneId = Id<u8, 4>;

pub type PlaneIdOpt = IdOpt<u8, 4>;

/// Layer id, allowing for the special values -1, -2, -3, -4, -5
#[derive(Debug, Clone, Copy, PartialEq, Eq, PartialOrd, Ord, Hash)]
pub struct VLayerId(i32);

#[derive(Debug, PartialEq, Eq)]
pub enum VLayerIdRepr {
    /// -1 - root layer group
    RootLayerGroup,
    /// -2 - screen layer
    ScreenLayer,
    /// -3 - page layer
    PageLayer,
    /// -4 - plane layer group
    PlaneLayerGroup,
    /// -5 - all selected layers
    Selected,
    Layer(LayerId),
}

/// Whether a number is a layer id: one of the special values or the number of
/// a real layer.
pub open spec fn is_vlayer_number(id: i32) -> bool {
    -5 <= id < 0x100
}

impl VLayerId {
    pub const MIN: i32 = -5;

    #[verifier::type_invariant]
    spec fn within_range(self) -> bool {
        is_vlayer_number(self.0)
    }

    /// The number of the id.
    pub closed spec fn number(self) -> i32 {
        self.0
    }

    pub fn new(id: i32) -> (made: Self)
        requires
            is_vlayer_number(id),
        ensures
            made.number() == id,
    {
        Self(id)
    }

    /// The number of the id.
    pub fn raw(self) -> (raw: i32)
        ensures
            raw == self.number(),
            is_vlayer_number(raw),
    {
        proof {
            use_type_invariant(self);
        }
        self.0
    }

    /// What the id names.
    pub fn repr(self) -> (repr: VLayerIdRepr)
        ensures
            self.number() == -1 <==> repr is RootLayerGroup,
            self.number() == -2 <==> repr is ScreenLayer,
            self.number() == -3 <==> repr is PageLayer,
            self.number() == -4 <==> repr is PlaneLayerGroup,
            self.number() == -5 <==> repr is Selected,
            self.number() >= 0 <==> repr is Layer,
            repr matches VLayerIdRepr::Layer(layer) ==> layer.0 == self.number() && layer.in_range(),
    {
        proof {
            use_type_invariant(self);
        }
        if self.0 < 0 {
            if self.0 == -1 {
                VLayerIdRepr::RootLayerGroup
            } else if self.0 == -2 {
                VLayerIdRepr::ScreenLayer
            } else if self.0 == -3 {
                VLayerIdRepr::PageLayer
            } else if self.0 == -4 {
                VLayerIdRepr::PlaneLayerGroup
            } else {
                VLayerIdRepr::Selected
            }
        } else {
            VLayerIdRepr::Layer(LayerId::new(self.0 as u16))
        }
    }
}

impl FromNumber for VLayerId {
    open spec fn is_number(number: i32) -> bool {
        is_vlayer_number(number)
    }

    closed spec fn of_number(number: i32) -> VLayerId {
        VLayerId(number)
    }

    fn from_number(number: i32) -> (value: VLayerId) {
        VLayerId::new(number)
    }
}

impl FromNumber for LayerId {
    open spec fn is_number(number: i32) -> bool {
        0 <= number < 0x100
    }

    open spec fn of_number(number: i32) -> LayerId {
        Id(number as u16)
    }

    fn from_number(number: i32) -> (value: LayerId) {
        LayerId::new(number as u16)
    }
}

impl FromNumber for PlaneId {
    open spec fn is_number(number: i32) -> bool {
        0 <= number < 4
    }

    open spec fn of_number(number: i32) -> PlaneId {
        Id(number as u8)
    }

    fn from_number(number: i32) -> (value: PlaneId) {
        PlaneId::new(number as u8)
    }
}

} // verus!
