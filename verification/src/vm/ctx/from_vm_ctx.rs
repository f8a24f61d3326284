//! Defines `FromVmCtx` and `FromVmCtxDefault`, which turn the form that an
//! operand has in the scenario into the form that a command works with at run
//! time, with the memory of the virtual machine at hand.

use vstd::prelude::*;
use crate::format::instructions::NumberSpec;
use crate::vm::ctx::VmCtx;

verus! {

/// Defines how to convert a compile-time representation `I` to a runtime
/// representation `Self`.
pub trait FromVmCtx<I>: Sized {
    /// Whether the memory holds what the conversion of `input` reads.
    spec fn convertible(ctx: &VmCtx, input: I) -> bool;

    /// What `input` is at run time.
    spec fn converted(ctx: &VmCtx, input: I) -> Self;

    fn from_vm_ctx(ctx: &VmCtx, input: I) -> (value: Self)
        requires
            Self::convertible(ctx, input),
        ensures
            value == Self::converted(ctx, input),
    ;
}

/// Defines the default conversion from VmCtx: the runtime representation that
/// a compile-time representation usually has.
pub trait FromVmCtxDefault: Sized {
    type Output: FromVmCtx<Self>;

    fn from_vm_ctx(ctx: &VmCtx, input: Self) -> (value: Self::Output)
        requires
            <Self::Output as FromVmCtx<Self>>::convertible(ctx, input),
        ensures
            value == <Self::Output as FromVmCtx<Self>>::converted(ctx, input),
    {
        FromVmCtx::<Self>::from_vm_ctx(ctx, input)
    }
}

impl FromVmCtx<u8> for u8 {
    open spec fn convertible(ctx: &VmCtx, input: u8) -> bool {
        true
    }

    open spec fn converted(ctx: &VmCtx, input: u8) -> u8 {
        input
    }

    fn from_vm_ctx(_ctx: &VmCtx, input: u8) -> (value: u8) {
        input
    }
}

impl FromVmCtxDefault for u8 {
    type Output = u8;
}

impl FromVmCtx<u16> for u16 {
    open spec fn convertible(ctx: &VmCtx, input: u16) -> bool {
        true
    }

    open spec fn converted(ctx: &VmCtx, input: u16) -> u16 {
        input
    }

    fn from_vm_ctx(_ctx: &VmCtx, input: u16) -> (value: u16) {
        input
    }
}

impl FromVmCtxDefault for u16 {
    type Output = u16;
}

impl FromVmCtx<u32> for u32 {
    open spec fn convertible(ctx: &VmCtx, input: u32) -> bool {
        true
    }

    open spec fn converted(ctx: &VmCtx, input: u32) -> u32 {
        input
    }

    fn from_vm_ctx(_ctx: &VmCtx, input: u32) -> (value: u32) {
        input
    }
}

impl FromVmCtxDefault for u32 {
    type Output = u32;
}

impl FromVmCtx<u64> for u64 {
    open spec fn convertible(ctx: &VmCtx, input: u64) -> bool {
        true
    }

    open spec fn converted(ctx: &VmCtx, input: u64) -> u64 {
        input
    }

    fn from_vm_ctx(_ctx: &VmCtx, input: u64) -> (value: u64) {
        input
    }
}

impl FromVmCtxDefault for u64 {
    type Output = u64;
}

impl FromVmCtx<i8> for i8 {
    open spec fn convertible(ctx: &VmCtx, input: i8) -> bool {
        true
    }

    open spec fn converted(ctx: &VmCtx, input: i8) -> i8 {
        input
    }

    fn from_vm_ctx(_ctx: &VmCtx, input: i8) -> (value: i8) {
        input
    }
}

impl FromVmCtxDefault for i8 {
    type Output = i8;
}

impl FromVmCtx<i16> for i16 {
    open spec fn convertible(ctx: &VmCtx, input: i16) -> bool {
        true
    }

    open spec fn converted(ctx: &VmCtx, input: i16) -> i16 {
        input
    }

    fn from_vm_ctx(_ctx: &VmCtx, input: i16) -> (value: i16) {
        input
    }
}

impl FromVmCtxDefault for i16 {
    type Output = i16;
}

impl FromVmCtx<i32> for i32 {
    open spec fn convertible(ctx: &VmCtx, input: i32) -> bool {
        true
    }

    open spec fn converted(ctx: &VmCtx, input: i32) -> i32 {
        input
    }

    fn from_vm_ctx(_ctx: &VmCtx, input: i32) -> (value: i32) {
        input
    }
}

impl FromVmCtxDefault for i32 {
    type Output = i32;
}

impl FromVmCtx<i64> for i64 {
    open spec fn convertible(ctx: &VmCtx, input: i64) -> bool {
        true
    }

    open spec fn converted(ctx: &VmCtx, input: i64) -> i64 {
        input
    }

    fn from_vm_ctx(_ctx: &VmCtx, input: i64) -> (value: i64) {
        input
    }
}

impl FromVmCtxDefault for i64 {
    type Output = i64;
}

/// A number operand is read from the memory where it names a register.
impl FromVmCtx<NumberSpec> for i32 {
    open spec fn convertible(ctx: &VmCtx, input: NumberSpec) -> bool {
        ctx.has_number(input)
    }

    open spec fn converted(ctx: &VmCtx, input: NumberSpec) -> i32 {
        ctx.number_value(input)
    }

    fn from_vm_ctx(ctx: &VmCtx, input: NumberSpec) -> (value: i32) {
        ctx.get_number(input)
    }
}

impl FromVmCtxDefault for NumberSpec {
    type Output = i32;
}

/// A string of the scenario is taken as it is.
impl FromVmCtx<String> for String {
    open spec fn convertible(ctx: &VmCtx, input: String) -> bool {
        true
    }

    open spec fn converted(ctx: &VmCtx, input: String) -> String {
        input
    }

    fn from_vm_ctx(_ctx: &VmCtx, input: String) -> (value: String) {
        input
    }
}

impl FromVmCtxDefault for String {
    type Output = String;
}

/// A list of strings of the scenario is taken as it is.
impl FromVmCtx<Vec<String>> for Vec<String> {
    open spec fn convertible(ctx: &VmCtx, input: Vec<String>) -> bool {
        true
    }

    open spec fn converted(ctx: &VmCtx, input: Vec<String>) -> Vec<String> {
        input
    }

    fn from_vm_ctx(_ctx: &VmCtx, input: Vec<String>) -> (value: Vec<String>) {
        input
    }
}

impl FromVmCtxDefault for Vec<String> {
    type Output = Vec<String>;
}

} // verus!
