use shin_asm::audio::sound::{
    apply_command, position_millis, Command, PlaybackState, COMMAND_BUFFER_CAPACITY,
};
use shin_asm::derive::sanitization::IdentStr;
use shin_asm::layer::new_drawable_layer::{
    IndirectRenderStep, LayerBlend, LayerEffects, LayerShaderOutputKind, NewDrawableLayer,
    NewDrawableLayerNeedsSeparatePass, NewDrawableLayerState, NewDrawableLayerWrapper, PassKind,
    PreRenderStep,
};
use shin_asm::layer::null_layer::NullLayer;
use shin_asm::render::buffer::bytes_address::BytesAddress;
use shin_asm::render::buffer::{BufferRange, BufferUsage, VertexSourceInfo};
use shin_asm::vm::command::types::{Pan, Ticks, Volume};

struct Painted {
    separate: bool,
}

impl NewDrawableLayerNeedsSeparatePass for Painted {
    type Properties = u32;

    fn separate_pass(&self, _props: &u32) -> bool {
        self.separate
    }

    fn needs_separate_pass(&self, _props: &u32) -> bool {
        self.separate
    }
}

impl NewDrawableLayer for Painted {
    type RenderPass = Vec<(u8, PassKind)>;
    type Transform = ();
    type Drawable = ();
    type Clip = ();

    fn drawn(
        &self,
        before: Vec<(u8, PassKind)>,
        after: Vec<(u8, PassKind)>,
        _transform: &(),
        _drawable: &(),
        _clip: &(),
        stencil_ref: u8,
        pass_kind: PassKind,
    ) -> bool {
        let mut expected = before;
        expected.push((stencil_ref, pass_kind));
        expected == after
    }

    fn render_drawable_direct(
        &self,
        pass: &mut Vec<(u8, PassKind)>,
        _transform: &(),
        _drawable: &(),
        _clip: &(),
        stencil_ref: u8,
        pass_kind: PassKind,
    ) {
        pass.push((stencil_ref, pass_kind));
    }
}

#[test]
fn new_state_has_no_textures() {
    let state: NewDrawableLayerState<u32> = NewDrawableLayerState::new();
    assert_eq!(state.render_texture_src, None);
    assert_eq!(state.render_texture_target, None);
    assert_eq!(state.render_texture_prev_frame, None);
    assert_eq!(state.target_pass, PassKind::Transparent);
    assert!(state.get_prerendered_tex().is_none());
}

#[test]
fn update_changes_nothing() {
    let mut state: NewDrawableLayerState<u32> = NewDrawableLayerState::new();
    state.finish_pre_render(7, PassKind::Opaque);
    state.update(&());
    assert_eq!(state.render_texture_src, Some(7));
    assert_eq!(state.target_pass, PassKind::Opaque);
}

#[test]
fn layer_without_texture_is_rendered_opaquely() {
    let state: NewDrawableLayerState<u32> = NewDrawableLayerState::new();
    assert!(state.is_rendered_opaquely(&0, &Painted { separate: false }));
    assert!(state.is_rendered_opaquely(&0, &Painted { separate: true }));
}

#[test]
fn prerendered_layer_is_opaque_only_in_the_opaque_pass() {
    let mut state: NewDrawableLayerState<u32> = NewDrawableLayerState::new();
    state.finish_pre_render(1, PassKind::Opaque);
    assert!(state.is_rendered_opaquely(&0, &Painted { separate: false }));
    assert!(!state.is_rendered_opaquely(&0, &Painted { separate: true }));
    state.finish_pre_render(1, PassKind::Transparent);
    assert!(!state.is_rendered_opaquely(&0, &Painted { separate: false }));
    let drawable = state.get_prerendered_tex().unwrap();
    assert_eq!(*drawable.render_texture, 1);
    assert_eq!(drawable.target_pass, PassKind::Transparent);
}

#[test]
fn pre_render_decides_how_the_layer_is_drawn() {
    let mut state: NewDrawableLayerState<u32> = NewDrawableLayerState::new();
    state.render_texture_src = Some(1);
    state.render_texture_target = Some(2);
    state.render_texture_prev_frame = Some(3);
    assert_eq!(state.pre_render(false, LayerEffects::none(), true), PreRenderStep::Skip);
    assert_eq!(
        (state.render_texture_src, state.render_texture_target, state.render_texture_prev_frame),
        (Some(1), Some(2), Some(3))
    );
    assert_eq!(state.pre_render(true, LayerEffects::none(), true), PreRenderStep::Indirect);
    assert_eq!(
        (state.render_texture_src, state.render_texture_target, state.render_texture_prev_frame),
        (Some(1), Some(2), None)
    );
    assert_eq!(state.pre_render(true, LayerEffects::none(), false), PreRenderStep::Direct);
    assert_eq!(
        (state.render_texture_src, state.render_texture_target, state.render_texture_prev_frame),
        (None, None, None)
    );
}

#[test]
fn effects_are_told_apart() {
    assert!(!LayerEffects::none().any());
    let mut effects = LayerEffects::none();
    effects.ripple = true;
    assert!(effects.any());
    let mut effects = LayerEffects::none();
    effects.ghosting = true;
    assert!(effects.any());
}

#[test]
fn prerendered_texture_is_drawn_in_its_pass() {
    let mut state: NewDrawableLayerState<u32> = NewDrawableLayerState::new();
    assert!(matches!(
        state.try_finish_indirect_render(PassKind::Opaque),
        IndirectRenderStep::NotPrerendered
    ));
    assert!(!state.finishes_indirect_render(PassKind::Opaque));
    state.finish_pre_render(11, PassKind::Transparent);
    assert!(matches!(
        state.try_finish_indirect_render(PassKind::Opaque),
        IndirectRenderStep::OtherPass
    ));
    assert!(state.finishes_indirect_render(PassKind::Opaque));
    match state.try_finish_indirect_render(PassKind::Transparent) {
        IndirectRenderStep::Draw { texture, blend, output_kind } => {
            assert_eq!(*texture, 11);
            assert_eq!(blend, LayerBlend::PremultipliedLayer);
            assert_eq!(output_kind, LayerShaderOutputKind::LayerDiscard);
        }
        _ => panic!("the texture was to be drawn"),
    }
    state.finish_pre_render(12, PassKind::Opaque);
    match state.try_finish_indirect_render(PassKind::Opaque) {
        IndirectRenderStep::Draw { texture, blend, output_kind } => {
            assert_eq!(*texture, 12);
            assert_eq!(blend, LayerBlend::Opaque);
            assert_eq!(output_kind, LayerShaderOutputKind::Layer);
        }
        _ => panic!("the texture was to be drawn"),
    }
}

#[test]
fn render_draws_visible_layers_only() {
    let state: NewDrawableLayerState<u32> = NewDrawableLayerState::new();
    let layer = Painted { separate: false };
    let mut pass = Vec::new();
    state.render(false, &layer, &mut pass, &(), &(), &(), 3, PassKind::Opaque);
    assert!(pass.is_empty());
    state.render(true, &layer, &mut pass, &(), &(), &(), 3, PassKind::Opaque);
    assert_eq!(pass, vec![(3, PassKind::Opaque)]);
}

#[test]
fn wrapper_holds_layer_and_properties() {
    let wrapper: NewDrawableLayerWrapper<Painted, u32> =
        NewDrawableLayerWrapper::from_inner(Painted { separate: true }, 99);
    assert!(wrapper.inner_ref().separate);
    assert_eq!(*wrapper.properties(), 99);
    assert!(wrapper.is_rendered_opaquely());
}

#[test]
fn null_layer_keeps_its_properties() {
    let mut layer = NullLayer::new(5u8);
    assert_eq!(*layer.properties(), 5);
    layer.update(&());
    layer.fast_forward();
    assert_eq!(*layer.properties(), 5);
}

#[test]
fn addresses_are_aligned_upwards() {
    let four = BytesAddress::new(4);
    assert_eq!(BytesAddress::new(0).align_to(four), BytesAddress::new(0));
    assert_eq!(BytesAddress::new(1).align_to(four), BytesAddress::new(4));
    assert_eq!(BytesAddress::new(4).align_to(four), BytesAddress::new(4));
    assert_eq!(BytesAddress::new(5).align_to(four), BytesAddress::new(8));
    assert_eq!(BytesAddress::new(255).align_to(BytesAddress::new(256)), BytesAddress::new(256));
    assert_eq!(BytesAddress::new(u64::MAX).align_to(BytesAddress::new(1)), BytesAddress::new(u64::MAX));
    assert!(BytesAddress::new(8).is_aligned_to(four));
    assert!(!BytesAddress::new(6).is_aligned_to(four));
    BytesAddress::new(12).assert_is_aligned_to(four);
    assert_eq!(BytesAddress::from_usize(77).get(), 77);
    assert_eq!(BytesAddress::ZERO, 0);
    assert_eq!(BytesAddress::new(3) + BytesAddress::new(4), BytesAddress::new(7));
    assert_eq!(BytesAddress::new(9) - BytesAddress::new(4), BytesAddress::new(5));
}

#[test]
fn buffer_usages_name_their_bits() {
    assert_eq!(BufferUsage::StagingWrite.bits(), 2 | 4);
    assert_eq!(BufferUsage::StagingRead.bits(), 1 | 8);
    assert_eq!(BufferUsage::Dynamic.bits(), 8 | 16 | 32 | 64);
    assert_eq!(BufferUsage::DynamicMappable.bits(), 2 | 16 | 32 | 64);
    assert_eq!(BufferUsage::Vertex.bits(), 32);
    assert_eq!(BufferUsage::Index.bits(), 16);
}

#[test]
fn parts_of_buffers() {
    assert_eq!(BufferRange::physical_size(BytesAddress::new(10)), BytesAddress::new(12));
    assert_eq!(BufferRange::physical_size(BytesAddress::new(12)), BytesAddress::new(12));
    assert_eq!(BufferRange::padded_write_size(0), None);
    assert_eq!(BufferRange::padded_write_size(1), Some(4));
    assert_eq!(BufferRange::padded_write_size(4), Some(4));
    assert_eq!(BufferRange::padded_write_size(13), Some(16));
    let whole = BufferRange::whole(BytesAddress::new(64));
    assert_eq!(whole.offset, BytesAddress::new(0));
    assert_eq!(whole.size, BytesAddress::new(64));
    let part = whole.slice_bytes(BytesAddress::new(16), BytesAddress::new(32));
    assert_eq!(part, BufferRange { offset: BytesAddress::new(16), size: BytesAddress::new(32) });
    let inner = part.slice_bytes(BytesAddress::new(8), BytesAddress::new(24));
    assert_eq!(inner, BufferRange { offset: BytesAddress::new(24), size: BytesAddress::new(24) });
    let elements = whole.slice_elements(2, 3, 12);
    assert_eq!(elements, BufferRange { offset: BytesAddress::new(24), size: BytesAddress::new(36) });
    assert_eq!(elements.count(12), 3);
    assert_eq!(whole.count(12), 5);
    assert_eq!(elements.vertex_info(12), VertexSourceInfo::VertexBuffer { vertex_count: 3 });
    assert_eq!(whole.index_info(), VertexSourceInfo::VertexAndIndexBuffer { index_count: 32 });
}

#[test]
fn playback_states_follow_each_other() {
    assert_eq!(PlaybackState::Playing.stop(), PlaybackState::Stopping);
    assert_eq!(PlaybackState::Playing.after_block(true, false), PlaybackState::Playing);
    assert_eq!(PlaybackState::Stopping.after_block(false, false), PlaybackState::Stopping);
    assert_eq!(PlaybackState::Stopping.after_block(true, false), PlaybackState::Stopped);
    assert_eq!(PlaybackState::Playing.after_block(false, true), PlaybackState::Stopped);
    assert_eq!(PlaybackState::Stopped.after_block(false, false), PlaybackState::Stopped);
    assert!(PlaybackState::Stopped.finished());
    assert!(!PlaybackState::Stopping.finished());
    assert!(!PlaybackState::Playing.finished());
}

#[test]
fn wait_status_is_read_off_the_state() {
    assert_eq!(PlaybackState::Playing.wait_status(true, true).bits(), 1 | 4 | 8 | 16);
    assert_eq!(PlaybackState::Playing.wait_status(false, false).bits(), 1 | 16);
    assert_eq!(PlaybackState::Stopping.wait_status(true, false).bits(), 4 | 16);
    assert_eq!(PlaybackState::Stopped.wait_status(false, true).bits(), 2 | 8 | 16);
}

#[test]
fn position_is_counted_in_milliseconds() {
    assert_eq!(position_millis(0, 44100), 0);
    assert_eq!(position_millis(44100, 44100), 1000);
    assert_eq!(position_millis(22051, 44100), 500);
    assert_eq!(position_millis(48000 * 60, 48000), 60000);
    assert_eq!(COMMAND_BUFFER_CAPACITY, 8);
}

#[test]
fn commands_change_what_they_name() {
    let start = (PlaybackState::Playing, Volume(1000), Pan(0));
    assert_eq!(
        apply_command(start.0, start.1, start.2, Command::SetVolume(Volume(300), Ticks(10))),
        (PlaybackState::Playing, Volume(300), Pan(0))
    );
    assert_eq!(
        apply_command(start.0, start.1, start.2, Command::SetPanning(Pan(-700), Ticks(0))),
        (PlaybackState::Playing, Volume(1000), Pan(-700))
    );
    assert_eq!(
        apply_command(start.0, start.1, start.2, Command::Stop(Ticks(60))),
        (PlaybackState::Stopping, Volume(1000), Pan(0))
    );
}

#[test]
fn ident_str_keeps_its_path() {
    let ident = IdentStr::new("shin_core::vm::VmCtx");
    assert_eq!(ident.as_str(), "shin_core::vm::VmCtx");
}
