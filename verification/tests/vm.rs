use shin_asm::format::instructions::{FromNumber, NumberSpec, Register};
use shin_asm::vm::command::types::flags::{AudioWaitStatus, LayerCtrlFlags, MaskFlags};
use shin_asm::vm::command::types::id::{
    Id, IdOpt, LayerId, LayerIdOpt, LayerbankId, LayerbankIdOpt, PlaneId, ThroughUsize, VLayerId,
    VLayerIdRepr, LAYERBANKS_COUNT, LAYERS_COUNT, PLANES_COUNT,
};
use shin_asm::vm::command::types::{
    LayerProperty, LayerType, MaskParam, MessageTextLayout, MessageboxStyle, MessageboxType, Pan,
    Ticks, Volume, WiperType,
};
use shin_asm::vm::command::{CommandResult, CommandToken, MessageId, RuntimeCommand, ValueToken};
use shin_asm::vm::ctx::from_vm_ctx::{FromVmCtx, FromVmCtxDefault};
use shin_asm::vm::ctx::VmCtx;

#[test]
fn counts() {
    assert_eq!(LAYERBANKS_COUNT, 0x30);
    assert_eq!(LAYERS_COUNT, 0x100);
    assert_eq!(PLANES_COUNT, 4);
    assert_eq!(VLayerId::MIN, -5);
}

#[test]
fn numbers_go_through_usize() {
    assert_eq!(<u8 as ThroughUsize>::from_usize(200), 200u8);
    assert_eq!(<u16 as ThroughUsize>::from_usize(40000), 40000u16);
    assert_eq!(ThroughUsize::into_usize(7u8), 7usize);
    assert_eq!(ThroughUsize::into_usize(u16::MAX), 65535usize);
}

#[test]
fn ids_stay_below_their_sentinel() {
    assert_eq!(LayerId::try_new(0).map(|id| id.raw()), Some(0));
    assert_eq!(LayerId::try_new(255).map(|id| id.raw()), Some(255));
    assert_eq!(LayerId::try_new(256), None);
    assert_eq!(PlaneId::try_new(3).map(|id| id.raw()), Some(3));
    assert_eq!(PlaneId::try_new(4), None);
    assert_eq!(LayerbankId::try_new(0x2f).map(|id| id.raw()), Some(0x2f));
    assert_eq!(LayerbankId::try_new(0x30), None);
    assert_eq!(LayerId::new(17).raw(), 17);
    assert_eq!(LayerId::new_unchecked(60000).raw(), 60000);
}

#[test]
fn next_id_stops_at_the_sentinel() {
    assert_eq!(PlaneId::new(0).try_next(), Some(PlaneId::new(1)));
    assert_eq!(PlaneId::new(2).try_next(), Some(PlaneId::new(3)));
    assert_eq!(PlaneId::new(3).try_next(), None);
    assert_eq!(LayerId::new(254).next(), LayerId::new(255));
    assert_eq!(LayerId::new(255).try_next(), None);
}

#[test]
fn optional_ids_use_the_sentinel_for_none() {
    assert_eq!(LayerIdOpt::none().raw(), 256);
    assert_eq!(LayerbankIdOpt::none().raw(), 0x30);
    assert_eq!(LayerIdOpt::none().into_option(), None);
    assert_eq!(LayerIdOpt::some(LayerId::new(5)).into_option(), Some(LayerId::new(5)));
    assert_eq!(LayerIdOpt::some(LayerId::new(5)).unwrap(), LayerId::new(5));
    assert_eq!(LayerIdOpt::from_option(None), LayerIdOpt::none());
    assert_eq!(LayerIdOpt::from_option(Some(LayerId::new(9))).raw(), 9);
    let odd: IdOpt<u8, 4> = IdOpt::some(Id::new_unchecked(4));
    assert_eq!(odd.into_option(), None);
}

#[test]
fn vlayer_ids_name_layers_and_groups() {
    assert_eq!(VLayerId::new(-1).repr(), VLayerIdRepr::RootLayerGroup);
    assert_eq!(VLayerId::new(-2).repr(), VLayerIdRepr::ScreenLayer);
    assert_eq!(VLayerId::new(-3).repr(), VLayerIdRepr::PageLayer);
    assert_eq!(VLayerId::new(-4).repr(), VLayerIdRepr::PlaneLayerGroup);
    assert_eq!(VLayerId::new(-5).repr(), VLayerIdRepr::Selected);
    assert_eq!(VLayerId::new(0).repr(), VLayerIdRepr::Layer(LayerId::new(0)));
    assert_eq!(VLayerId::new(255).repr(), VLayerIdRepr::Layer(LayerId::new(255)));
    assert_eq!(VLayerId::new(42).raw(), 42);
    assert_eq!(VLayerId::from_number(-5), VLayerId::new(-5));
    assert_eq!(LayerId::from_number(12), LayerId::new(12));
    assert_eq!(PlaneId::from_number(3), PlaneId::new(3));
}

#[test]
fn layer_and_wiper_types_by_number() {
    assert_eq!(LayerType::from_number(0), LayerType::Null);
    assert_eq!(LayerType::from_number(2), LayerType::Picture);
    assert_eq!(LayerType::from_number(6), LayerType::Movie);
    assert_eq!(LayerType::from_number(9), LayerType::Quiz);
    assert_eq!(LayerType::from_i32(10), None);
    assert_eq!(LayerType::from_i32(-1), None);
    assert_eq!(WiperType::from_number(0), WiperType::Default);
    assert_eq!(WiperType::from_number(1), WiperType::Mask);
    assert_eq!(WiperType::from_number(9), WiperType::Glass);
    assert_eq!(WiperType::from_i32(10), None);
    assert_eq!(MessageboxType::from_i32(5), Some(MessageboxType::NoText));
    assert_eq!(MessageboxType::from_i32(6), None);
    assert_eq!(MessageTextLayout::from_i32(3), Some(MessageTextLayout::Right));
    assert_eq!(MessageTextLayout::from_i32(4), None);
}

#[test]
fn messagebox_style_is_packed_in_two_nibbles() {
    assert_eq!(MessageboxStyle::from_number(0), MessageboxStyle::default());
    assert_eq!(
        MessageboxStyle::from_number(0x21),
        MessageboxStyle {
            messagebox_type: MessageboxType::WitchSpace,
            text_layout: MessageTextLayout::Center
        }
    );
    assert_eq!(
        MessageboxStyle::from_number(0x35),
        MessageboxStyle {
            messagebox_type: MessageboxType::NoText,
            text_layout: MessageTextLayout::Right
        }
    );
    assert_eq!(
        MessageboxStyle::from_number(0x104),
        MessageboxStyle {
            messagebox_type: MessageboxType::Novel,
            text_layout: MessageTextLayout::Justify
        }
    );
    assert_eq!(MessageboxStyle::default().messagebox_type, MessageboxType::Neutral);
    assert_eq!(MessageboxStyle::default().text_layout, MessageTextLayout::Justify);
}

#[test]
fn volume_pan_and_mask_param_are_clamped() {
    assert_eq!(Volume::from_number(500), Volume(500));
    assert_eq!(Volume::from_number(-1), Volume(0));
    assert_eq!(Volume::from_number(1001), Volume(1000));
    assert_eq!(Volume::default(), Volume(1000));
    assert_eq!(Pan::from_number(-250), Pan(-250));
    assert_eq!(Pan::from_number(-5000), Pan(-1000));
    assert_eq!(Pan::from_number(5000), Pan(1000));
    assert_eq!(Pan::default(), Pan(0));
    assert_eq!(MaskParam::from_number(0), MaskParam(1000));
    assert_eq!(MaskParam::from_number(-3), MaskParam(1));
    assert_eq!(MaskParam::from_number(1), MaskParam(1));
    assert_eq!(MaskParam::from_number(999), MaskParam(999));
    assert_eq!(MaskParam::from_number(2000), MaskParam(1000));
    assert_eq!(MaskParam::default(), MaskParam(0));
    assert_eq!(Ticks::from_number(60), Ticks(60));
    assert_eq!(LayerProperty::from_number(7), LayerProperty(7));
}

#[test]
fn layer_ctrl_flags_are_read_bit_by_bit() {
    let flags = LayerCtrlFlags::from_number(0b1_0001_0010_1100_0101);
    assert_eq!(flags.easing(), 0b000101);
    assert!(flags.scale_time());
    assert!(flags.delta());
    assert!(!flags.ff_to_current());
    assert!(flags.ff_to_target());
    assert!(flags.prohibit_fast_forward());
    assert!(flags.ignore_wait());
    let none = LayerCtrlFlags::from_number(0);
    assert_eq!(none.easing(), 0);
    assert!(!none.scale_time() && !none.delta() && !none.ff_to_current());
    assert!(!none.ff_to_target() && !none.prohibit_fast_forward() && !none.ignore_wait());
    assert_eq!(LayerCtrlFlags::from_number(0x3f).easing(), 63);
    assert_eq!(LayerCtrlFlags::from_number(0x40).easing(), 0);
    assert!(LayerCtrlFlags::from_number(0x100).ff_to_current());
    assert_eq!(LayerCtrlFlags::from_number(-1).easing(), 63);
}

#[test]
fn mask_flags_know_their_bits() {
    assert_eq!(MaskFlags::from_bits(0).map(|f| f.bits()), Some(0));
    assert_eq!(MaskFlags::from_bits(0x17).map(|f| f.bits()), Some(0x17));
    assert_eq!(MaskFlags::from_bits(0x08), None);
    assert_eq!(MaskFlags::from_bits(0x20), None);
    assert_eq!(MaskFlags::from_bits(-1), None);
    let flags = MaskFlags::from_number(MaskFlags::FLIP_X | MaskFlags::SCALE);
    assert_eq!(flags.bits(), 0x11);
    assert!(flags.contains(MaskFlags::FLIP_X));
    assert!(flags.contains(MaskFlags::SCALE));
    assert!(!flags.contains(MaskFlags::FLIP_Y));
    assert!(!flags.contains(MaskFlags::UNK_4));
}

#[test]
fn audio_wait_status_knows_its_bits() {
    assert_eq!(AudioWaitStatus::empty().bits(), 0);
    assert_eq!(AudioWaitStatus::from_bits(31).map(|f| f.bits()), Some(31));
    assert_eq!(AudioWaitStatus::from_bits(32), None);
    assert_eq!(AudioWaitStatus::from_bits(-1), None);
    assert_eq!(AudioWaitStatus::from_bits_truncate(0x25).bits(), 5);
    let status = AudioWaitStatus::from_number(3);
    assert!(status.contains(AudioWaitStatus::PLAYING));
    assert!(status.contains(AudioWaitStatus::STOPPED));
    assert!(!status.contains(AudioWaitStatus::VOLUME_TWEENER_IDLE));
}

#[test]
fn numbers_are_read_from_memory() {
    let ctx = VmCtx::new(vec![10, 20, 30], vec![7]);
    assert_eq!(ctx.get_number(NumberSpec::Constant(-4)), -4);
    assert_eq!(ctx.get_number(NumberSpec::Register(Register::Regular(2))), 30);
    assert_eq!(ctx.get_number(NumberSpec::Register(Register::Argument(0))), 7);
    assert_eq!(ctx.get_register(Register::Regular(0)), 10);
    assert!(ctx.contains_register(Register::Regular(2)));
    assert!(!ctx.contains_register(Register::Regular(3)));
    assert!(!ctx.contains_register(Register::Argument(1)));
}

#[test]
fn operands_become_runtime_values() {
    let ctx = VmCtx::new(vec![0x140], vec![]);
    let from_register: i32 = FromVmCtx::from_vm_ctx(&ctx, NumberSpec::Register(Register::Regular(0)));
    assert_eq!(from_register, 0x140);
    assert_eq!(<NumberSpec as FromVmCtxDefault>::from_vm_ctx(&ctx, NumberSpec::Constant(5)), 5);
    assert_eq!(<u8 as FromVmCtxDefault>::from_vm_ctx(&ctx, 200u8), 200u8);
    assert_eq!(<u16 as FromVmCtxDefault>::from_vm_ctx(&ctx, 513u16), 513u16);
    assert_eq!(<u32 as FromVmCtxDefault>::from_vm_ctx(&ctx, 7u32), 7u32);
    assert_eq!(<u64 as FromVmCtxDefault>::from_vm_ctx(&ctx, 7u64), 7u64);
    assert_eq!(<i8 as FromVmCtxDefault>::from_vm_ctx(&ctx, -7i8), -7i8);
    assert_eq!(<i16 as FromVmCtxDefault>::from_vm_ctx(&ctx, -7i16), -7i16);
    assert_eq!(<i32 as FromVmCtxDefault>::from_vm_ctx(&ctx, -7i32), -7i32);
    assert_eq!(<i64 as FromVmCtxDefault>::from_vm_ctx(&ctx, -7i64), -7i64);
    assert_eq!(
        <String as FromVmCtxDefault>::from_vm_ctx(&ctx, "text".to_string()),
        "text".to_string()
    );
    assert_eq!(
        <Vec<String> as FromVmCtxDefault>::from_vm_ctx(&ctx, vec!["a".to_string()]),
        vec!["a".to_string()]
    );
    let flags: LayerCtrlFlags = FromVmCtx::from_vm_ctx(&ctx, NumberSpec::Register(Register::Regular(0)));
    assert_eq!(flags, LayerCtrlFlags(0x140));
    assert!(flags.scale_time());
    assert!(flags.ff_to_current());
}

#[test]
fn tokens_finish_commands() {
    assert_eq!(CommandToken::new().finish(), CommandResult::Nothing);
    assert_eq!(
        ValueToken::new(Register::Regular(3)).finish(-8),
        CommandResult::WriteMemory(Register::Regular(3), -8)
    );
}

#[test]
fn dummy_execution_finishes_every_command_but_exit() {
    let exit = RuntimeCommand::EXIT { token: CommandToken::new(), arg1: 0, arg2: 0 };
    assert_eq!(exit.opcode(), 0x00);
    assert_eq!(exit.execute_dummy(), None);

    let sget = RuntimeCommand::SGET { token: ValueToken::new(Register::Regular(5)), slot_number: 1 };
    assert_eq!(sget.opcode(), 0x81);
    assert_eq!(
        sget.execute_dummy(),
        Some(CommandResult::WriteMemory(Register::Regular(5), 0))
    );

    let quiz = RuntimeCommand::QUIZ { token: ValueToken::new(Register::Argument(2)), arg: 9 };
    assert_eq!(quiz.opcode(), 0xe2);
    assert_eq!(
        quiz.execute_dummy(),
        Some(CommandResult::WriteMemory(Register::Argument(2), 0))
    );

    let select = RuntimeCommand::SELECT {
        token: ValueToken::new(Register::Regular(0)),
        choice_set_base: 1,
        choice_index: 2,
        choice_visibility_mask: 3,
        choice_title: "title".to_string(),
        variants: vec!["a".to_string(), "b".to_string()],
    };
    assert_eq!(select.opcode(), 0x8d);
    assert_eq!(
        select.execute_dummy(),
        Some(CommandResult::WriteMemory(Register::Regular(0), 0))
    );

    let wait = RuntimeCommand::WAIT {
        token: CommandToken::new(),
        allow_interrupt: true,
        wait_amount: Ticks(60),
    };
    assert_eq!(wait.opcode(), 0x83);
    assert_eq!(wait.execute_dummy(), Some(CommandResult::Nothing));

    let msgset = RuntimeCommand::MSGSET {
        token: CommandToken::new(),
        msg_id: MessageId(12),
        auto_wait: true,
        text: "hello".to_string(),
    };
    assert_eq!(msgset.opcode(), 0x86);
    assert_eq!(msgset.execute_dummy(), Some(CommandResult::Nothing));

    let layerctrl = RuntimeCommand::LAYERCTRL {
        token: CommandToken::new(),
        layer_id: VLayerId::new(-1),
        property_id: LayerProperty(3),
        params: (100, Ticks(30), LayerCtrlFlags(0), 0),
    };
    assert_eq!(layerctrl.opcode(), 0xc3);
    assert_eq!(layerctrl.execute_dummy(), Some(CommandResult::Nothing));

    let debugout = RuntimeCommand::DEBUGOUT {
        token: CommandToken::new(),
        format: "%d".to_string(),
        args: vec![1],
    };
    assert_eq!(debugout.opcode(), 0xff);
    assert_eq!(debugout.execute_dummy(), Some(CommandResult::Nothing));

    let sepan = RuntimeCommand::SEPAN {
        token: CommandToken::new(),
        se_slot: 1,
        pan: Pan(-500),
        fade_in_time: Ticks(10),
    };
    assert_eq!(sepan.execute_dummy(), Some(CommandResult::Nothing));
    let bgmplay = RuntimeCommand::BGMPLAY {
        token: CommandToken::new(),
        bgm_data_id: 4,
        fade_in_time: Ticks(0),
        no_repeat: false,
        volume: Volume(1000),
    };
    assert_eq!(bgmplay.opcode(), 0x90);
    assert_eq!(bgmplay.execute_dummy(), Some(CommandResult::Nothing));
}
