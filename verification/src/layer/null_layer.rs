//! The layer that draws nothing.

use vstd::prelude::*;

verus! {

/// A layer that has properties like any other and is never seen.
#[derive(Clone, Debug)]
pub struct NullLayer<Properties> {
    props: Properties,
}

impl<Properties> NullLayer<Properties> {
    pub closed spec fn props(&self) -> &Properties {
        &self.props
    }

    pub fn new(props: Properties) -> (layer: Self)
        ensures
            *layer.props() == props,
    {
        Self { props }
    }

    pub fn properties(&self) -> (props: &Properties)
        ensures
            props == self.props(),
    {
        &self.props
    }

    /// Nothing in the layer changes with time.
    pub fn update<Context>(&mut self, _ctx: &Context)
        ensures
            *final(self) == *old(self),
    {
    }

    /// There is nothing to run to the end.
    pub fn fast_forward(&mut self)
        ensures
            *final(self) == *old(self),
    {
    }
}

} // verus!
