//! What a drawable layer decides before and while it is drawn.
//!
//! A layer is drawn directly, or it is first drawn into a texture of its own
//! and the texture is drawn in its place. The state of a layer holds those
//! textures and remembers in which pass the texture is to be drawn. The
//! drawing itself is the renderer's work: the functions here say what is to be
//! done, and are told what came of it.

use vstd::prelude::*;

verus! {

/// The two passes in which a frame is drawn.
#[derive(Debug, Clone, Copy, PartialEq, Eq, Hash, Structural)]
pub enum PassKind {
    Opaque,
    Transparent,
}

/// How colours are blended when a prerendered layer is drawn.
#[derive(Debug, Clone, Copy, PartialEq, Eq, Hash, Structural)]
pub enum LayerBlend {
    /// The layer covers what is under it.
    Opaque,
    /// The layer is blended as its properties say, with premultiplied alpha.
    PremultipliedLayer,
}

/// What the layer shader does with a fragment that is transparent.
#[derive(Debug, Clone, Copy, PartialEq, Eq, Hash, Structural)]
pub enum LayerShaderOutputKind {
    Layer,
    LayerDiscard,
}

/// Which of the effects that need a texture of their own a layer asks for.
#[derive(Debug, Clone, Copy, PartialEq, Eq, Hash, Structural)]
pub struct LayerEffects {
    pub blur: bool,
    pub prop70: bool,
    pub mosaic: bool,
    pub raster: bool,
    pub ripple: bool,
    pub dissolve: bool,
    pub ghosting: bool,
}

impl LayerEffects {
    /// Whether any effect is asked for.
    pub open spec fn spec_any(self) -> bool {
        self.blur || self.prop70 || self.mosaic || self.raster || self.ripple || self.dissolve
            || self.ghosting
    }

    #[verifier::when_used_as_spec(spec_any)]
    pub fn any(self) -> (any: bool)
        ensures
            any == self.spec_any(),
    {
        self.blur || self.prop70 || self.mosaic || self.raster || self.ripple || self.dissolve
            || self.ghosting
    }

    /// No effect.
    pub fn none() -> (effects: LayerEffects)
        ensures
            !effects.spec_any(),
    {
        LayerEffects {
            blur: false,
            prop70: false,
            mosaic: false,
            raster: false,
            ripple: false,
            dissolve: false,
            ghosting: false,
        }
    }
}

pub trait NewDrawableLayerNeedsSeparatePass {
    /// The properties of a layer, as the renderer keeps them.
    type Properties;

    /// Whether the layer has to be drawn into a texture of its own.
    spec fn separate_pass(&self, props: &Self::Properties) -> bool;

    fn needs_separate_pass(&self, props: &Self::Properties) -> (needed: bool)
        ensures
            needed == self.separate_pass(props),
    ;
}

pub trait NewDrawableLayer: NewDrawableLayerNeedsSeparatePass {
    type RenderPass;

    type Transform;

    type Drawable;

    type Clip;

    /// What drawing the layer makes of a pass: `after` is `before` with the
    /// layer drawn into it.
    spec fn drawn(
        &self,
        before: Self::RenderPass,
        after: Self::RenderPass,
        transform: &Self::Transform,
        drawable: &Self::Drawable,
        clip: &Self::Clip,
        stencil_ref: u8,
        pass_kind: PassKind,
    ) -> bool;

    /// Draws the layer into `pass`.
    fn render_drawable_direct(
        &self,
        pass: &mut Self::RenderPass,
        transform: &Self::Transform,
        drawable: &Self::Drawable,
        clip: &Self::Clip,
        stencil_ref: u8,
        pass_kind: PassKind,
    )
        ensures
            self.drawn(*old(pass), *final(pass), transform, drawable, clip, stencil_ref, pass_kind),
    ;
}

pub trait NewDrawableLayerFastForward {
    fn fast_forward(&mut self);
}

/// The texture that a layer was drawn into, and the pass in which the texture
/// is to be drawn.
pub struct PrerenderedDrawable<'a, Texture> {
    pub render_texture: &'a Texture,
    pub target_pass: PassKind,
}

/// What is to be done before a frame is drawn.
#[derive(Debug, Clone, Copy, PartialEq, Eq, Hash, Structural)]
pub enum PreRenderStep {
    /// Nothing: the layer is not visible.
    Skip,
    /// Nothing: the layer will be drawn directly.
    Direct,
    /// The layer is to be drawn into `render_texture_src`, which is to be made
    /// first where it is not there; `finish_pre_render` is told the pass.
    Indirect,
}

/// What is to be done with a prerendered layer in one pass.
pub enum IndirectRenderStep<'a, Texture> {
    /// The layer is not prerendered: it has to be drawn directly.
    NotPrerendered,
    /// The layer is prerendered, and is drawn in the other pass.
    OtherPass,
    /// The texture is to be drawn now.
    Draw { texture: &'a Texture, blend: LayerBlend, output_kind: LayerShaderOutputKind },
}

#[derive(Debug)]
pub struct NewDrawableLayerState<Texture> {
    pub render_texture_src: Option<Texture>,
    // it's needed for any kind of effect. we just don't have them implemented yet
    pub render_texture_target: Option<Texture>,
    pub render_texture_prev_frame: Option<Texture>,
    pub target_pass: PassKind,
}

impl<Texture> NewDrawableLayerState<Texture> {
    pub fn new() -> (state: Self)
        ensures
            state.render_texture_src is None,
            state.render_texture_target is None,
            state.render_texture_prev_frame is None,
            state.target_pass == PassKind::Transparent,
    {
        Self {
            render_texture_src: None,
            render_texture_target: None,
            render_texture_prev_frame: None,
            target_pass: PassKind::Transparent,
        }
    }

    pub fn get_prerendered_tex(&self) -> (drawable: Option<PrerenderedDrawable<'_, Texture>>)
        ensures
            drawable is Some <==> self.render_texture_src is Some,
            drawable matches Some(drawable) ==> *drawable.render_texture
                == self.render_texture_src->0 && drawable.target_pass == self.target_pass,
    {
        match &self.render_texture_src {
            Some(tex) => Some(
                PrerenderedDrawable { render_texture: tex, target_pass: self.target_pass },
            ),
            None => None,
        }
    }

    /// Nothing in the state changes with time.
    pub fn update<Context>(&mut self, _context: &Context)
        ensures
            *final(self) == *old(self),
    {
    }

    /// Whether the layer is drawn in the opaque pass as a whole: a layer that
    /// is not prerendered is, and a prerendered layer is where its texture
    /// goes to the opaque pass and the layer does not ask for a pass of its
    /// own.
    pub open spec fn rendered_opaquely(self, separate_pass: bool) -> bool {
        self.render_texture_src is None || (!separate_pass && self.target_pass == PassKind::Opaque)
    }

    pub fn is_rendered_opaquely<T: NewDrawableLayerNeedsSeparatePass>(
        &self,
        props: &T::Properties,
        delegate: &T,
    ) -> (opaque: bool)
        ensures
            opaque == self.rendered_opaquely(delegate.separate_pass(props)),
    {
        let tex = match self.get_prerendered_tex() {
            Some(tex) => tex,
            None => {
                return true;
            },
        };
        if delegate.needs_separate_pass(props) {
            // more than is needed: the texture could still go to the opaque pass
            return false;
        }
        tex.target_pass == PassKind::Opaque
    }

    /// What is to be done before the frame is drawn, for a layer that is
    /// `visible` or not, asks for `effects`, and needs a pass of its own or
    /// not. A layer that is not visible keeps its textures. A layer that can
    /// be drawn directly gives up all of them. Any other layer gives up the
    /// texture of the frame before and is to be drawn into its own texture.
    ///
    /// None of the effects can be drawn yet, so none may be asked for.
    pub fn pre_render(&mut self, visible: bool, effects: LayerEffects, needs_separate_pass: bool) -> (step:
        PreRenderStep)
        requires
            visible ==> !effects.spec_any(),
        ensures
            step == (if !visible {
                PreRenderStep::Skip
            } else if needs_separate_pass {
                PreRenderStep::Indirect
            } else {
                PreRenderStep::Direct
            }),
            step == PreRenderStep::Skip ==> *final(self) == *old(self),
            step == PreRenderStep::Direct ==> final(self).render_texture_src is None && final(self).render_texture_target is None && final(self).render_texture_prev_frame is None
                && final(self).target_pass == old(self).target_pass,
            step == PreRenderStep::Indirect ==> final(self).render_texture_src == old(self).render_texture_src && final(self).render_texture_target == old(self).render_texture_target && final(self).render_texture_prev_frame is None && final(self).target_pass == old(self).target_pass,
    {
        if !visible {
            return PreRenderStep::Skip;
        }
        if !effects.any() && !needs_separate_pass {
            self.render_texture_target = None;
            self.render_texture_src = None;
            self.render_texture_prev_frame = None;
            return PreRenderStep::Direct;
        }
        self.render_texture_prev_frame = None;
        PreRenderStep::Indirect
    }

    /// Records that the layer was drawn into `texture`, and that the texture
    /// is to be drawn in `target_pass`.
    pub fn finish_pre_render(&mut self, texture: Texture, target_pass: PassKind)
        ensures
            final(self).render_texture_src == Some(texture),
            final(self).target_pass == target_pass,
            final(self).render_texture_target == old(self).render_texture_target,
            final(self).render_texture_prev_frame is None,
    {
        self.render_texture_src = Some(texture);
        self.target_pass = target_pass;
        self.render_texture_prev_frame = None;
    }

    /// What is to be done with the prerendered layer in the pass `pass_kind`.
    /// The texture is drawn in the pass that it was made for and in no other.
    /// In the opaque pass it covers what is under it and every fragment is
    /// kept; in the transparent pass it is blended as the layer says, and
    /// fragments that are transparent are dropped.
    pub fn try_finish_indirect_render(&self, pass_kind: PassKind) -> (step: IndirectRenderStep<
        '_,
        Texture,
    >)
        ensures
            step is NotPrerendered <==> self.render_texture_src is None,
            step is OtherPass <==> self.render_texture_src is Some && pass_kind
                != self.target_pass,
            step matches IndirectRenderStep::Draw { texture, blend, output_kind } ==> {
                &&& *texture == self.render_texture_src->0
                &&& blend == (if pass_kind == PassKind::Opaque {
                    LayerBlend::Opaque
                } else {
                    LayerBlend::PremultipliedLayer
                })
                &&& output_kind == (if pass_kind == PassKind::Opaque {
                    LayerShaderOutputKind::Layer
                } else {
                    LayerShaderOutputKind::LayerDiscard
                })
            },
    {
        let tex = match &self.render_texture_src {
            Some(tex) => tex,
            None => {
                return IndirectRenderStep::NotPrerendered;
            },
        };
        if pass_kind != self.target_pass {
            return IndirectRenderStep::OtherPass;
        }
        IndirectRenderStep::Draw {
            texture: tex,
            blend: match pass_kind {
                PassKind::Opaque => LayerBlend::Opaque,
                PassKind::Transparent => LayerBlend::PremultipliedLayer,
            },
            output_kind: match pass_kind {
                PassKind::Opaque => LayerShaderOutputKind::Layer,
                PassKind::Transparent => LayerShaderOutputKind::LayerDiscard,
            },
        }
    }

    /// Whether the prerendered layer is done with in the pass `pass_kind`:
    /// it is unless the layer is not prerendered.
    pub fn finishes_indirect_render(&self, pass_kind: PassKind) -> (finished: bool)
        ensures
            finished == self.render_texture_src is Some,
    {
        match self.try_finish_indirect_render(pass_kind) {
            IndirectRenderStep::NotPrerendered => false,
            _ => true,
        }
    }

    /// Draws the layer directly, where it is visible.
    pub fn render<T: NewDrawableLayer>(
        &self,
        visible: bool,
        delegate: &T,
        pass: &mut T::RenderPass,
        transform: &T::Transform,
        drawable: &T::Drawable,
        clip: &T::Clip,
        stencil_ref: u8,
        pass_kind: PassKind,
    )
        ensures
            !visible ==> *final(pass) == *old(pass),
            visible ==> delegate.drawn(
                *old(pass),
                *final(pass),
                transform,
                drawable,
                clip,
                stencil_ref,
                pass_kind,
            ),
    {
        if !visible {
            return ;
        }
        delegate.render_drawable_direct(pass, transform, drawable, clip, stencil_ref, pass_kind);
    }
}

/// Packages the state and the properties of a layer with the layer itself.
#[derive(Debug)]
pub struct NewDrawableLayerWrapper<T: NewDrawableLayer, Texture> {
    inner_layer: T,
    state: NewDrawableLayerState<Texture>,
    props: T::Properties,
}

impl<T: NewDrawableLayer, Texture> NewDrawableLayerWrapper<T, Texture> {
    pub closed spec fn inner(&self) -> &T {
        &self.inner_layer
    }

    pub closed spec fn state(&self) -> &NewDrawableLayerState<Texture> {
        &self.state
    }

    pub closed spec fn props(&self) -> &T::Properties {
        &self.props
    }

    /// Wraps a layer that has not been drawn yet.
    pub fn from_inner(inner_layer: T, props: T::Properties) -> (wrapper: Self)
        ensures
            *wrapper.inner() == inner_layer,
            *wrapper.props() == props,
            wrapper.state().render_texture_src is None,
            wrapper.state().render_texture_target is None,
            wrapper.state().render_texture_prev_frame is None,
            wrapper.state().target_pass == PassKind::Transparent,
    {
        Self { inner_layer, state: NewDrawableLayerState::new(), props }
    }

    pub fn inner_ref(&self) -> (inner: &T)
        ensures
            inner == self.inner(),
    {
        &self.inner_layer
    }

    pub fn properties(&self) -> (props: &T::Properties)
        ensures
            props == self.props(),
    {
        &self.props
    }

    /// Whether the layer is drawn in the opaque pass as a whole.
    pub fn is_rendered_opaquely(&self) -> (opaque: bool)
        ensures
            opaque == self.state().rendered_opaquely(self.inner().separate_pass(self.props())),
    {
        self.state.is_rendered_opaquely(&self.props, &self.inner_layer)
    }
}

} // verus!
