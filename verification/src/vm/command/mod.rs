//! Defines the commands that can be produced by the VM and executed by the
//! engine.

pub mod types;

use vstd::prelude::*;
use crate::format::instructions::Register;
use crate::vm::command::types::flags::{AudioWaitStatus, LayerCtrlFlags, MaskFlags};
use crate::vm::command::types::id::{LayerId, VLayerId};
use crate::vm::command::types::{
    LayerProperty,
    LayerType,
    MessageboxStyle,
    Pan,
    Ticks,
    Volume,
};

verus! {

/// The number of a message, which marks whether the reader has seen it.
#[derive(Debug, Clone, Copy, PartialEq, Eq, Hash, Structural)]
pub struct MessageId(pub u32);

/// An untyped result of a command execution. This is usually obtained by using
/// a command token.
#[derive(Debug, Clone, Copy, PartialEq, Eq, Structural)]
pub enum CommandResult {
    /// No result
    Nothing,
    /// The result is a single integer that should be written to the given memory address
    WriteMemory(Register, i32),
}

/// Stands for a command that has been handed out and has to be finished. The
/// command has no result.
#[derive(Debug)]
pub struct CommandToken;

impl CommandToken {
    pub fn new() -> (token: CommandToken) {
        CommandToken
    }

    /// Finishes the command.
    pub fn finish(self) -> (result: CommandResult)
        ensures
            result == CommandResult::Nothing,
    {
        CommandResult::Nothing
    }
}

/// Stands for a command that has been handed out and has to be finished with
/// a value, which goes to the register `dest`.
#[derive(Debug)]
pub struct ValueToken {
    pub dest: Register,
}

impl ValueToken {
    pub fn new(dest: Register) -> (token: ValueToken)
        ensures
            token.dest == dest,
    {
        ValueToken { dest }
    }

    /// Finishes the command with `value`.
    pub fn finish(self, value: i32) -> (result: CommandResult)
        ensures
            result == CommandResult::WriteMemory(self.dest, value),
    {
        CommandResult::WriteMemory(self.dest, value)
    }
}

/// A command as the engine gets it: the operands have the values that they
/// have at run time.
#[allow(non_camel_case_types)]
#[allow(inconsistent_fields)]
#[derive(Debug)]
pub enum RuntimeCommand {
    EXIT {
        token: CommandToken,
        /// This is encoded in the instruction
        /// If it's zero then the VM shuts down
        /// If it's nonzero then the VM treats it as a NOP
        arg1: u8,
        /// Possibly the value that the run ends with
        arg2: i32,
    },
    /// Get persistent value
    SGET {
        token: ValueToken,
        slot_number: i32,
    },
    /// Set persistent value
    SSET {
        token: CommandToken,
        slot_number: i32,
        value: i32,
    },
    /// Delay the execution for `wait_amount` ticks
    WAIT {
        token: CommandToken,
        /// If true - allow skipping the wait by pressing "advance" button
        allow_interrupt: bool,
        wait_amount: Ticks,
    },
    /// Set messagebox style & text layout
    MSGINIT {
        token: CommandToken,
        messagebox_style: MessageboxStyle,
    },
    /// Show the message
    ///
    /// The text may contain various commands that are executed in parallel with the VM
    MSGSET {
        token: CommandToken,
        /// Message ID, used to mark whether the user has seen this message
        msg_id: MessageId,
        /// If true - do not continue execution until the message is finished
        ///
        /// If the message is not waited, [MSGWAIT](RuntimeCommand::MSGWAIT) can be called to synchronize with parts the message
        auto_wait: bool,
        text: String,
    },
    /// Waits for message to reach the specified section
    ///
    /// -1 means wait for the message to finish fully
    MSGWAIT {
        token: CommandToken,
        section_num: i32,
    },
    /// Signal to the message @y command
    MSGSIGNAL {
        token: CommandToken,
    },
    /// Not used in the scenario, semantics unclear
    MSGSYNC {
        token: CommandToken,
        arg1: i32,
        arg2: i32,
    },
    /// Close the messagebox
    MSGCLOSE {
        token: CommandToken,
        /// If true - wait for the messagebox close animation to finish
        wait_for_close: bool,
    },
    /// Show a choice menu, store the selected variant in `dest`
    SELECT {
        token: ValueToken,
        choice_set_base: u16,
        choice_index: u16,
        choice_visibility_mask: i32,
        choice_title: String,
        variants: Vec<String>,
    },
    WIPE {
        token: CommandToken,
        arg1: i32,
        arg2: i32,
        wipe_time: i32,
        params: [i32; 8],
    },
    WIPEWAIT {
        token: CommandToken,
    },
    /// Start a BGM track
    BGMPLAY {
        token: CommandToken,
        /// BGM ID (stored in scenario header)
        bgm_data_id: i32,
        fade_in_time: Ticks,
        /// If true - do not restart the track when it's finished
        no_repeat: bool,
        volume: Volume,
    },
    /// Stop the current BGM track
    BGMSTOP {
        token: CommandToken,
        fade_out_time: Ticks,
    },
    /// Change the volume of the current BGM track
    BGMVOL {
        token: CommandToken,
        volume: Volume,
        fade_in_time: Ticks,
    },
    /// Wait for the BGM track to reach the specified status
    BGMWAIT {
        token: CommandToken,
        target_status: AudioWaitStatus,
    },
    /// Wait for BGM to reach the specified time
    BGMSYNC {
        token: CommandToken,
        sync_time: i32,
    },
    /// Start a SE track in the specified slot
    SEPLAY {
        token: CommandToken,
        se_slot: i32,
        se_data_id: i32,
        fade_in_time: Ticks,
        no_repeat: bool,
        volume: Volume,
        pan: Pan,
        play_speed: i32,
    },
    /// Stop a SE track in the specified slot
    SESTOP {
        token: CommandToken,
        se_slot: i32,
        fade_out_time: Ticks,
    },
    /// Stop all SE tracks
    SESTOPALL {
        token: CommandToken,
        fade_out_time: Ticks,
    },
    /// Change the volume of a SE track in the specified slot
    SEVOL {
        token: CommandToken,
        se_slot: i32,
        volume: Volume,
        fade_in_time: Ticks,
    },
    /// Change the pan of a SE track in the specified slot
    SEPAN {
        token: CommandToken,
        se_slot: i32,
        pan: Pan,
        fade_in_time: Ticks,
    },
    /// Wait for a SE track in the specified slot to reach the specified status
    SEWAIT {
        token: CommandToken,
        se_slot: i32,
        target_status: AudioWaitStatus,
    },
    /// Play an SE without a slot
    SEONCE {
        token: CommandToken,
        arg1: i32,
        arg2: i32,
        arg3: i32,
        arg4: i32,
        arg5: i32,
    },
    VOICEPLAY {
        token: CommandToken,
        name: String,
        volume: Volume,
        flags: i32,
    },
    VOICESTOP {
        token: CommandToken,
    },
    VOICEWAIT {
        token: CommandToken,
        target_status: AudioWaitStatus,
    },
    /// Play a system sound effect (from `/sysse.bin`)
    SYSSE {
        token: CommandToken,
        arg1: i32,
        arg2: i32,
    },
    /// Set current save info at specified level
    /// (0 - scenario name, 1 - chapter name)
    ///
    /// It can be seen in the pause menu, in the save/load screen
    ///
    /// It is also shown temporarily in bottom left corner of the screen when changed
    SAVEINFO {
        token: CommandToken,
        level: i32,
        info: String,
    },
    /// Save the game to autosave slot
    AUTOSAVE {
        token: CommandToken,
    },
    EVBEGIN {
        token: CommandToken,
        arg: i32,
    },
    EVEND {
        token: CommandToken,
    },
    RESUMESET {
        token: CommandToken,
    },
    RESUME {
        token: CommandToken,
    },
    SYSCALL {
        token: CommandToken,
        arg1: i32,
        arg2: i32,
    },
    /// Give the player a trophy (only implemented on PS4?)
    TROPHY {
        token: CommandToken,
        trophy_id: i32,
    },
    /// Unlock a CG, BGM or MOVIE
    UNLOCK {
        token: CommandToken,
        unlock_type: u8,
        unlock_indices: Vec<i32>,
    },
    /// Reset property values to their initial state
    LAYERINIT {
        token: CommandToken,
        layer_id: VLayerId,
    },
    /// Load a user layer
    /// There are multiple layer types and they have different arguments
    LAYERLOAD {
        token: CommandToken,
        layer_id: VLayerId,
        layer_type: LayerType,
        leave_uninitialized: i32,
        params: [i32; 8],
    },
    LAYERUNLOAD {
        token: CommandToken,
        layer_id: VLayerId,
        delay_time: i32,
    },
    /// Change layer property, possibly through a transition.
    LAYERCTRL {
        token: CommandToken,
        layer_id: VLayerId,
        property_id: LayerProperty,
        /// (target_value, time, flags, easing_param)
        params: (i32, Ticks, LayerCtrlFlags, i32),
    },
    /// Wait for property transitions to finish.
    LAYERWAIT {
        token: CommandToken,
        layer_id: VLayerId,
        wait_properties: Vec<LayerProperty>,
    },
    LAYERSWAP {
        token: CommandToken,
        arg1: i32,
        arg2: i32,
    },
    /// Select a subset of layers to perform batch operations
    /// The selection can then be named by a layer id of its own
    LAYERSELECT {
        token: CommandToken,
        selection_start_id: LayerId,
        selection_end_id: LayerId,
    },
    MOVIEWAIT {
        token: CommandToken,
        layer_id: LayerId,
        target_status: i32,
    },
    TRANSSET {
        token: CommandToken,
        arg1: i32,
        arg2: i32,
        arg3: i32,
        params: [i32; 8],
    },
    TRANSWAIT {
        token: CommandToken,
        arg: i32,
    },
    PAGEBACK {
        token: CommandToken,
    },
    PLANESELECT {
        token: CommandToken,
        plane_id: i32,
    },
    PLANECLEAR {
        token: CommandToken,
    },
    MASKLOAD {
        token: CommandToken,
        mask_data_id: i32,
        mask_flags: MaskFlags,
        smth_smth_transition: bool,
    },
    MASKUNLOAD {
        token: CommandToken,
    },
    /// Unlock a character in the character screen
    CHARS {
        token: CommandToken,
        arg1: i32,
        arg2: i32,
    },
    /// Unlock a TIP in the TIPS menu
    TIPSGET {
        token: CommandToken,
        tip_ids: Vec<i32>,
    },
    /// Show a quiz
    QUIZ {
        token: ValueToken,
        arg: i32,
    },
    /// Show "Characters" menu
    SHOWCHARS {
        token: CommandToken,
    },
    /// Show notification, like "Characters menu updated"
    /// the argument seems to be the notification type
    NOTIFYSET {
        token: CommandToken,
        arg: i32,
    },
    /// Print a debug message to the console
    ///
    /// It is formatted with a printf-like syntax. Only %d seen so far.
    DEBUGOUT {
        token: CommandToken,
        format: String,
        args: Vec<i32>,
    },
}

impl RuntimeCommand {
    /// The register that the result of the command goes to, for a command
    /// that has a result.
    pub open spec fn dest(self) -> Option<Register> {
        match self {
            RuntimeCommand::SGET { token, .. } => Some(token.dest),
            RuntimeCommand::SELECT { token, .. } => Some(token.dest),
            RuntimeCommand::QUIZ { token, .. } => Some(token.dest),
            _ => None,
        }
    }

    /// The opcode of the command.
    pub open spec fn spec_opcode(&self) -> u8 {
        match self {
            RuntimeCommand::EXIT { .. } => 0x00,
            RuntimeCommand::SGET { .. } => 0x81,
            RuntimeCommand::SSET { .. } => 0x82,
            RuntimeCommand::WAIT { .. } => 0x83,
            RuntimeCommand::MSGINIT { .. } => 0x85,
            RuntimeCommand::MSGSET { .. } => 0x86,
            RuntimeCommand::MSGWAIT { .. } => 0x87,
            RuntimeCommand::MSGSIGNAL { .. } => 0x88,
            RuntimeCommand::MSGSYNC { .. } => 0x89,
            RuntimeCommand::MSGCLOSE { .. } => 0x8a,
            RuntimeCommand::SELECT { .. } => 0x8d,
            RuntimeCommand::WIPE { .. } => 0x8e,
            RuntimeCommand::WIPEWAIT { .. } => 0x8f,
            RuntimeCommand::BGMPLAY { .. } => 0x90,
            RuntimeCommand::BGMSTOP { .. } => 0x91,
            RuntimeCommand::BGMVOL { .. } => 0x92,
            RuntimeCommand::BGMWAIT { .. } => 0x93,
            RuntimeCommand::BGMSYNC { .. } => 0x94,
            RuntimeCommand::SEPLAY { .. } => 0x95,
            RuntimeCommand::SESTOP { .. } => 0x96,
            RuntimeCommand::SESTOPALL { .. } => 0x97,
            RuntimeCommand::SEVOL { .. } => 0x98,
            RuntimeCommand::SEPAN { .. } => 0x99,
            RuntimeCommand::SEWAIT { .. } => 0x9a,
            RuntimeCommand::SEONCE { .. } => 0x9b,
            RuntimeCommand::VOICEPLAY { .. } => 0x9c,
            RuntimeCommand::VOICESTOP { .. } => 0x9d,
            RuntimeCommand::VOICEWAIT { .. } => 0x9e,
            RuntimeCommand::SYSSE { .. } => 0x9f,
            RuntimeCommand::SAVEINFO { .. } => 0xa0,
            RuntimeCommand::AUTOSAVE { .. } => 0xa1,
            RuntimeCommand::EVBEGIN { .. } => 0xa2,
            RuntimeCommand::EVEND { .. } => 0xa3,
            RuntimeCommand::RESUMESET { .. } => 0xa4,
            RuntimeCommand::RESUME { .. } => 0xa5,
            RuntimeCommand::SYSCALL { .. } => 0xa6,
            RuntimeCommand::TROPHY { .. } => 0xb0,
            RuntimeCommand::UNLOCK { .. } => 0xb1,
            RuntimeCommand::LAYERINIT { .. } => 0xc0,
            RuntimeCommand::LAYERLOAD { .. } => 0xc1,
            RuntimeCommand::LAYERUNLOAD { .. } => 0xc2,
            RuntimeCommand::LAYERCTRL { .. } => 0xc3,
            RuntimeCommand::LAYERWAIT { .. } => 0xc4,
            RuntimeCommand::LAYERSWAP { .. } => 0xc5,
            RuntimeCommand::LAYERSELECT { .. } => 0xc6,
            RuntimeCommand::MOVIEWAIT { .. } => 0xc7,
            RuntimeCommand::TRANSSET { .. } => 0xc9,
            RuntimeCommand::TRANSWAIT { .. } => 0xca,
            RuntimeCommand::PAGEBACK { .. } => 0xcb,
            RuntimeCommand::PLANESELECT { .. } => 0xcc,
            RuntimeCommand::PLANECLEAR { .. } => 0xcd,
            RuntimeCommand::MASKLOAD { .. } => 0xce,
            RuntimeCommand::MASKUNLOAD { .. } => 0xcf,
            RuntimeCommand::CHARS { .. } => 0xe0,
            RuntimeCommand::TIPSGET { .. } => 0xe1,
            RuntimeCommand::QUIZ { .. } => 0xe2,
            RuntimeCommand::SHOWCHARS { .. } => 0xe3,
            RuntimeCommand::NOTIFYSET { .. } => 0xe4,
            RuntimeCommand::DEBUGOUT { .. } => 0xff,
        }
    }

    #[verifier::when_used_as_spec(spec_opcode)]
    pub fn opcode(&self) -> (opcode: u8)
        ensures
            opcode == self.spec_opcode(),
    {
        match self {
            RuntimeCommand::EXIT { .. } => 0x00,
            RuntimeCommand::SGET { .. } => 0x81,
            RuntimeCommand::SSET { .. } => 0x82,
            RuntimeCommand::WAIT { .. } => 0x83,
            RuntimeCommand::MSGINIT { .. } => 0x85,
            RuntimeCommand::MSGSET { .. } => 0x86,
            RuntimeCommand::MSGWAIT { .. } => 0x87,
            RuntimeCommand::MSGSIGNAL { .. } => 0x88,
            RuntimeCommand::MSGSYNC { .. } => 0x89,
            RuntimeCommand::MSGCLOSE { .. } => 0x8a,
            RuntimeCommand::SELECT { .. } => 0x8d,
            RuntimeCommand::WIPE { .. } => 0x8e,
            RuntimeCommand::WIPEWAIT { .. } => 0x8f,
            RuntimeCommand::BGMPLAY { .. } => 0x90,
            RuntimeCommand::BGMSTOP { .. } => 0x91,
            RuntimeCommand::BGMVOL { .. } => 0x92,
            RuntimeCommand::BGMWAIT { .. } => 0x93,
            RuntimeCommand::BGMSYNC { .. } => 0x94,
            RuntimeCommand::SEPLAY { .. } => 0x95,
            RuntimeCommand::SESTOP { .. } => 0x96,
            RuntimeCommand::SESTOPALL { .. } => 0x97,
            RuntimeCommand::SEVOL { .. } => 0x98,
            RuntimeCommand::SEPAN { .. } => 0x99,
            RuntimeCommand::SEWAIT { .. } => 0x9a,
            RuntimeCommand::SEONCE { .. } => 0x9b,
            RuntimeCommand::VOICEPLAY { .. } => 0x9c,
            RuntimeCommand::VOICESTOP { .. } => 0x9d,
            RuntimeCommand::VOICEWAIT { .. } => 0x9e,
            RuntimeCommand::SYSSE { .. } => 0x9f,
            RuntimeCommand::SAVEINFO { .. } => 0xa0,
            RuntimeCommand::AUTOSAVE { .. } => 0xa1,
            RuntimeCommand::EVBEGIN { .. } => 0xa2,
            RuntimeCommand::EVEND { .. } => 0xa3,
            RuntimeCommand::RESUMESET { .. } => 0xa4,
            RuntimeCommand::RESUME { .. } => 0xa5,
            RuntimeCommand::SYSCALL { .. } => 0xa6,
            RuntimeCommand::TROPHY { .. } => 0xb0,
            RuntimeCommand::UNLOCK { .. } => 0xb1,
            RuntimeCommand::LAYERINIT { .. } => 0xc0,
            RuntimeCommand::LAYERLOAD { .. } => 0xc1,
            RuntimeCommand::LAYERUNLOAD { .. } => 0xc2,
            RuntimeCommand::LAYERCTRL { .. } => 0xc3,
            RuntimeCommand::LAYERWAIT { .. } => 0xc4,
            RuntimeCommand::LAYERSWAP { .. } => 0xc5,
            RuntimeCommand::LAYERSELECT { .. } => 0xc6,
            RuntimeCommand::MOVIEWAIT { .. } => 0xc7,
            RuntimeCommand::TRANSSET { .. } => 0xc9,
            RuntimeCommand::TRANSWAIT { .. } => 0xca,
            RuntimeCommand::PAGEBACK { .. } => 0xcb,
            RuntimeCommand::PLANESELECT { .. } => 0xcc,
            RuntimeCommand::PLANECLEAR { .. } => 0xcd,
            RuntimeCommand::MASKLOAD { .. } => 0xce,
            RuntimeCommand::MASKUNLOAD { .. } => 0xcf,
            RuntimeCommand::CHARS { .. } => 0xe0,
            RuntimeCommand::TIPSGET { .. } => 0xe1,
            RuntimeCommand::QUIZ { .. } => 0xe2,
            RuntimeCommand::SHOWCHARS { .. } => 0xe3,
            RuntimeCommand::NOTIFYSET { .. } => 0xe4,
            RuntimeCommand::DEBUGOUT { .. } => 0xff,
        }
    }

    /// Finishes the command without doing anything. A command that has a
    /// result has the result zero. `EXIT` is not finished: it ends the run.
    #[inline]
    pub fn execute_dummy(self) -> (result: Option<CommandResult>)
        ensures
            result == (if self is EXIT {
                None
            } else {
                match self.dest() {
                    Some(dest) => Some(CommandResult::WriteMemory(dest, 0)),
                    None => Some(CommandResult::Nothing),
                }
            }),
    {
        Some(
            match self {
                RuntimeCommand::EXIT { .. } => {
                    return None;
                },
                RuntimeCommand::SGET { token, .. } => token.finish(0),
                RuntimeCommand::SSET { token, .. } => token.finish(),
                RuntimeCommand::WAIT { token, .. } => token.finish(),
                RuntimeCommand::MSGINIT { token, .. } => token.finish(),
                RuntimeCommand::MSGSET { token, .. } => token.finish(),
                RuntimeCommand::MSGWAIT { token, .. } => token.finish(),
                RuntimeCommand::MSGSIGNAL { token, .. } => token.finish(),
                RuntimeCommand::MSGSYNC { token, .. } => token.finish(),
                RuntimeCommand::MSGCLOSE { token, .. } => token.finish(),
                RuntimeCommand::SELECT { token, .. } => token.finish(0),
                RuntimeCommand::WIPE { token, .. } => token.finish(),
                RuntimeCommand::WIPEWAIT { token, .. } => token.finish(),
                RuntimeCommand::BGMPLAY { token, .. } => token.finish(),
                RuntimeCommand::BGMSTOP { token, .. } => token.finish(),
                RuntimeCommand::BGMVOL { token, .. } => token.finish(),
                RuntimeCommand::BGMWAIT { token, .. } => token.finish(),
                RuntimeCommand::BGMSYNC { token, .. } => token.finish(),
                RuntimeCommand::SEPLAY { token, .. } => token.finish(),
                RuntimeCommand::SESTOP { token, .. } => token.finish(),
                RuntimeCommand::SESTOPALL { token, .. } => token.finish(),
                RuntimeCommand::SEVOL { token, .. } => token.finish(),
                RuntimeCommand::SEPAN { token, .. } => token.finish(),
                RuntimeCommand::SEWAIT { token, .. } => token.finish(),
                RuntimeCommand::SEONCE { token, .. } => token.finish(),
                RuntimeCommand::VOICEPLAY { token, .. } => token.finish(),
                RuntimeCommand::VOICESTOP { token, .. } => token.finish(),
                RuntimeCommand::VOICEWAIT { token, .. } => token.finish(),
                RuntimeCommand::SYSSE { token, .. } => token.finish(),
                RuntimeCommand::SAVEINFO { token, .. } => token.finish(),
                RuntimeCommand::AUTOSAVE { token, .. } => token.finish(),
                RuntimeCommand::EVBEGIN { token, .. } => token.finish(),
                RuntimeCommand::EVEND { token, .. } => token.finish(),
                RuntimeCommand::RESUMESET { token, .. } => token.finish(),
                RuntimeCommand::RESUME { token, .. } => token.finish(),
                RuntimeCommand::SYSCALL { token, .. } => token.finish(),
                RuntimeCommand::TROPHY { token, .. } => token.finish(),
                RuntimeCommand::UNLOCK { token, .. } => token.finish(),
                RuntimeCommand::LAYERINIT { token, .. } => token.finish(),
                RuntimeCommand::LAYERLOAD { token, .. } => token.finish(),
                RuntimeCommand::LAYERUNLOAD { token, .. } => token.finish(),
                RuntimeCommand::LAYERCTRL { token, .. } => token.finish(),
                RuntimeCommand::LAYERWAIT { token, .. } => token.finish(),
                RuntimeCommand::LAYERSWAP { token, .. } => token.finish(),
                RuntimeCommand::LAYERSELECT { token, .. } => token.finish(),
                RuntimeCommand::MOVIEWAIT { token, .. } => token.finish(),
                RuntimeCommand::TRANSSET { token, .. } => token.finish(),
                RuntimeCommand::TRANSWAIT { token, .. } => token.finish(),
                RuntimeCommand::PAGEBACK { token, .. } => token.finish(),
                RuntimeCommand::PLANESELECT { token, .. } => token.finish(),
                RuntimeCommand::PLANECLEAR { token, .. } => token.finish(),
                RuntimeCommand::MASKLOAD { token, .. } => token.finish(),
                RuntimeCommand::MASKUNLOAD { token, .. } => token.finish(),
                RuntimeCommand::CHARS { token, .. } => token.finish(),
                RuntimeCommand::TIPSGET { token, .. } => token.finish(),
                RuntimeCommand::QUIZ { token, .. } => token.finish(0),
                RuntimeCommand::SHOWCHARS { token, .. } => token.finish(),
                RuntimeCommand::NOTIFYSET { token, .. } => token.finish(),
                RuntimeCommand::DEBUGOUT { token, .. } => token.finish(),
            },
        )
    }
}

} // verus!
