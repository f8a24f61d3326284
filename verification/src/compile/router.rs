//! Lowering of instructions by mnemonic.
//!
//! A router is a chain of links, each bound to one mnemonic, that ends in a
//! sentinel. An instruction goes down the chain to the first link whose
//! mnemonic is its own; that link reads the arguments and encodes the
//! instruction. An instruction that no link claims reaches the sentinel, which
//! reports it. Nothing here stops the compilation: an instruction that cannot
//! be lowered contributes a diagnostic and no output.

use vstd::prelude::*;
use vstd::string::StringExecFns;
use core::marker::PhantomData;
use crate::compile::diagnostics::{plain_diagnostic, Location};
use crate::compile::from_hir::{FromHirBlockCtx, FromHirCollectors};
use crate::compile::from_instr_args::FromInstrArgs;
use crate::compile::hir::InstructionId;
use crate::compile::instr_lowerer::{InstrLowerFn, Lowering};
use crate::format::instructions::{instruction_view, Instruction};

verus! {

pub open spec fn unrecognized_message(instr_name: Seq<char>) -> Seq<char> {
    "Unrecognized instruction: `"@ + instr_name + "`"@
}

/// The outcome for an instruction that no link claims: no instruction, and
/// one diagnostic at the instruction that names the mnemonic.
pub open spec fn unrecognized(instr_name: Seq<char>, instr: InstructionId) -> Lowering {
    Lowering {
        instruction: None,
        diagnostics: seq![
            plain_diagnostic(Location::Instruction(instr), unrecognized_message(instr_name)),
        ],
    }
}

/// What a link does with an instruction that bears its mnemonic: the
/// arguments are read, and where they are in order the instruction is encoded.
pub open spec fn claimed<Dummy, Args: FromInstrArgs, LowerFn: InstrLowerFn<Dummy, Args>>(
    lower_fn: &LowerFn,
    ctx: &FromHirBlockCtx,
    instr_name: Seq<char>,
    instr: InstructionId,
) -> Lowering {
    match Args::extracted(ctx, instr) {
        Some(args) => Lowering {
            instruction: lower_fn.lowered(ctx, instr_name, args).instruction,
            diagnostics: Args::extraction_reports(ctx, instr) + lower_fn.lowered(
                ctx,
                instr_name,
                args,
            ).diagnostics,
        },
        None => Lowering { instruction: None, diagnostics: Args::extraction_reports(ctx, instr) },
    }
}

pub trait Router {
    /// The mnemonics that the router is bound to, the one that is tried first
    /// at the front.
    spec fn mnemonics(&self) -> Seq<Seq<char>>;

    /// The outcome of handing instruction `instr` to the router under the
    /// mnemonic `instr_name`.
    spec fn routed(&self, ctx: &FromHirBlockCtx, instr_name: Seq<char>, instr: InstructionId)
        -> Lowering;

    /// Lowers instruction `instr`, whose mnemonic is `instr_name`.
    fn handle_instr(
        &self,
        collectors: &mut FromHirCollectors,
        ctx: &FromHirBlockCtx,
        instr_name: &str,
        instr: InstructionId,
    ) -> (instruction: Option<Instruction>)
        requires
            ctx.block.has_instruction(instr),
        ensures
            instruction_view(instruction) == self.routed(ctx, instr_name@, instr).instruction,
            final(collectors)@ == old(collectors)@ + self.routed(
                ctx,
                instr_name@,
                instr,
            ).diagnostics,
    ;

    /// Whether the router is bound to `instr_name`.
    fn recognizes(&self, instr_name: &str) -> (bound: bool)
        ensures
            bound == self.mnemonics().contains(instr_name@),
    ;

    /// A mnemonic that the router is not bound to is reported as unrecognized.
    proof fn lemma_unbound_is_unrecognized(
        &self,
        ctx: &FromHirBlockCtx,
        instr_name: Seq<char>,
        instr: InstructionId,
    )
        requires
            !self.mnemonics().contains(instr_name),
        ensures
            self.routed(ctx, instr_name, instr) == unrecognized(instr_name, instr),
    ;
}

/// Whether two mnemonics are the same, letter for letter.
pub fn same_mnemonic(left: &str, right: &str) -> (same: bool)
    ensures
        same == (left@ == right@),
{
    let left = left.to_owned();
    let right = right.to_owned();
    left == right
}

/// The end of every chain: it is bound to no mnemonic.
pub struct SentinelRouter;

impl Router for SentinelRouter {
    open spec fn mnemonics(&self) -> Seq<Seq<char>> {
        Seq::empty()
    }

    open spec fn routed(&self, ctx: &FromHirBlockCtx, instr_name: Seq<char>, instr: InstructionId)
        -> Lowering {
        unrecognized(instr_name, instr)
    }

    #[inline]
    fn handle_instr(
        &self,
        collectors: &mut FromHirCollectors,
        _ctx: &FromHirBlockCtx,
        instr_name: &str,
        instr: InstructionId,
    ) -> (instruction: Option<Instruction>) {
        let ghost before = collectors@;
        let mut message = String::from_str("Unrecognized instruction: `");
        message.append(instr_name);
        message.append("`");
        collectors.emit_diagnostic(Location::Instruction(instr), message);
        assert(collectors@ =~= before + unrecognized(instr_name@, instr).diagnostics);
        None
    }

    fn recognizes(&self, instr_name: &str) -> (bound: bool) {
        false
    }

    proof fn lemma_unbound_is_unrecognized(
        &self,
        ctx: &FromHirBlockCtx,
        instr_name: Seq<char>,
        instr: InstructionId,
    ) {
    }
}

/// One link of the chain: the mnemonic `name`, the encoder for it, and the
/// rest of the chain.
pub struct ConsRouter<Dummy, Args: FromInstrArgs, LowerFn: InstrLowerFn<Dummy, Args>, Tail: Router> {
    name: &'static str,
    lower_fn: LowerFn,
    tail: Tail,
    phantom: PhantomData<(Dummy, Args)>,
}

impl<Dummy, Args: FromInstrArgs, LowerFn: InstrLowerFn<Dummy, Args>, Tail: Router> ConsRouter<
    Dummy,
    Args,
    LowerFn,
    Tail,
> {
    /// The mnemonic that this link is bound to.
    pub closed spec fn name(&self) -> Seq<char> {
        self.name@
    }

    /// The encoder of this link.
    pub closed spec fn lower_fn(&self) -> &LowerFn {
        &self.lower_fn
    }

    /// The rest of the chain.
    pub closed spec fn tail(&self) -> &Tail {
        &self.tail
    }
}

impl<Dummy, Args: FromInstrArgs, LowerFn: InstrLowerFn<Dummy, Args>, Tail: Router> Router for ConsRouter<
    Dummy,
    Args,
    LowerFn,
    Tail,
> {
    open spec fn mnemonics(&self) -> Seq<Seq<char>> {
        seq![self.name()] + self.tail().mnemonics()
    }

    open spec fn routed(&self, ctx: &FromHirBlockCtx, instr_name: Seq<char>, instr: InstructionId)
        -> Lowering {
        if instr_name == self.name() {
            claimed::<Dummy, Args, LowerFn>(self.lower_fn(), ctx, instr_name, instr)
        } else {
            self.tail().routed(ctx, instr_name, instr)
        }
    }

    #[inline]
    fn handle_instr(
        &self,
        collectors: &mut FromHirCollectors,
        ctx: &FromHirBlockCtx,
        instr_name: &str,
        instr: InstructionId,
    ) -> (instruction: Option<Instruction>) {
        let ghost before = collectors@;
        if same_mnemonic(instr_name, self.name) {
            match Args::from_instr_args(collectors, ctx, instr) {
                Some(args) => {
                    let ghost reports = Args::extraction_reports(ctx, instr);
                    let ghost encoded = self.lower_fn.lowered(ctx, instr_name@, args);
                    assert((before + reports) + encoded.diagnostics =~= before + (reports
                        + encoded.diagnostics));
                    self.lower_fn.lower_instr(collectors, ctx, instr_name, args)
                },
                None => None,
            }
        } else {
            self.tail.handle_instr(collectors, ctx, instr_name, instr)
        }
    }

    fn recognizes(&self, instr_name: &str) -> (bound: bool) {
        let bound = same_mnemonic(instr_name, self.name) || self.tail.recognizes(instr_name);
        proof {
            let rest = self.tail().mnemonics();
            let all = seq![self.name()] + rest;
            assert(all[0] == self.name());
            assert forall|i: int| 0 <= i < rest.len() implies all[i + 1] == rest[i] by {}
            if rest.contains(instr_name@) {
                let i = choose|i: int| 0 <= i < rest.len() && rest[i] == instr_name@;
                assert(all[i + 1] == instr_name@);
            }
            if all.contains(instr_name@) {
                let i = choose|i: int| 0 <= i < all.len() && all[i] == instr_name@;
                if i > 0 {
                    assert(rest[i - 1] == instr_name@);
                }
            }
        }
        bound
    }

    proof fn lemma_unbound_is_unrecognized(
        &self,
        ctx: &FromHirBlockCtx,
        instr_name: Seq<char>,
        instr: InstructionId,
    ) {
        let rest = self.tail().mnemonics();
        let all = seq![self.name()] + rest;
        assert(all[0] == self.name());
        if rest.contains(instr_name) {
            let i = choose|i: int| 0 <= i < rest.len() && rest[i] == instr_name;
            assert(all[i + 1] == instr_name);
        }
        self.tail().lemma_unbound_is_unrecognized(ctx, instr_name, instr);
    }
}

/// Builds a chain, one link at a time.
pub struct RouterBuilder<S: Router = SentinelRouter> {
    router: S,
}

impl RouterBuilder<SentinelRouter> {
    /// A builder whose chain is the sentinel alone.
    #[inline]
    pub fn new() -> (builder: RouterBuilder<SentinelRouter>)
        ensures
            builder.router().mnemonics() == Seq::<Seq<char>>::empty(),
    {
        Self { router: SentinelRouter }
    }
}

impl<S: Router> RouterBuilder<S> {
    /// The chain built so far.
    pub closed spec fn router(&self) -> &S {
        &self.router
    }

    /// Puts a link for `name` in front of the chain. The new link is tried
    /// first: it takes the instructions called `name`, also where a link
    /// further down is bound to the same mnemonic, and every other instruction
    /// goes down the chain as before.
    #[inline]
    pub fn add<Dummy, Args: FromInstrArgs, LowerFn: InstrLowerFn<Dummy, Args>>(
        self,
        name: &'static str,
        lower_fn: LowerFn,
    ) -> (builder: RouterBuilder<ConsRouter<Dummy, Args, LowerFn, S>>)
        ensures
            builder.router().name() == name@,
            *builder.router().lower_fn() == lower_fn,
            *builder.router().tail() == *self.router(),
            builder.router().mnemonics() == seq![name@] + self.router().mnemonics(),
            forall|ctx: &FromHirBlockCtx, instr: InstructionId|
                #[trigger] builder.router().routed(ctx, name@, instr) == claimed::<
                    Dummy,
                    Args,
                    LowerFn,
                >(&lower_fn, ctx, name@, instr),
            forall|ctx: &FromHirBlockCtx, instr_name: Seq<char>, instr: InstructionId|
                instr_name != name@ ==> #[trigger] builder.router().routed(ctx, instr_name, instr)
                    == self.router().routed(ctx, instr_name, instr),
    {
        RouterBuilder {
            router: ConsRouter { name, lower_fn, tail: self.router, phantom: PhantomData },
        }
    }

    /// Puts a link for `name` in front of the chain, unless the chain is bound
    /// to `name` already: then there is no new chain.
    pub fn try_add<Dummy, Args: FromInstrArgs, LowerFn: InstrLowerFn<Dummy, Args>>(
        self,
        name: &'static str,
        lower_fn: LowerFn,
    ) -> (builder: Option<RouterBuilder<ConsRouter<Dummy, Args, LowerFn, S>>>)
        ensures
            builder is Some <==> !self.router().mnemonics().contains(name@),
            builder matches Some(builder) ==> {
                &&& builder.router().name() == name@
                &&& *builder.router().lower_fn() == lower_fn
                &&& *builder.router().tail() == *self.router()
                &&& self.router().mnemonics().no_duplicates()
                    ==> builder.router().mnemonics().no_duplicates()
            },
    {
        if self.router.recognizes(name) {
            None
        } else {
            proof {
                let rest = self.router().mnemonics();
                let all = seq![name@] + rest;
                if rest.no_duplicates() {
                    assert forall|i: int, j: int|
                        0 <= i < all.len() && 0 <= j < all.len() && i != j implies all[i]
                        != all[j] by {
                        if i > 0 {
                            assert(all[i] == rest[i - 1]);
                        }
                        if j > 0 {
                            assert(all[j] == rest[j - 1]);
                        }
                    }
                }
            }
            Some(self.add(name, lower_fn))
        }
    }

    /// The chain.
    #[inline]
    pub fn build(self) -> (router: S)
        ensures
            router == *self.router(),
    {
        self.router
    }
}

/// An instruction whose mnemonic no link is bound to yields no instruction and
/// exactly one diagnostic, which names the mnemonic.
pub proof fn law_unregistered_mnemonic<R: Router>(
    router: &R,
    ctx: &FromHirBlockCtx,
    instr_name: Seq<char>,
    instr: InstructionId,
)
    requires
        !router.mnemonics().contains(instr_name),
    ensures
        router.routed(ctx, instr_name, instr).instruction is None,
        router.routed(ctx, instr_name, instr).diagnostics == seq![
            plain_diagnostic(Location::Instruction(instr), unrecognized_message(instr_name)),
        ],
{
    router.lemma_unbound_is_unrecognized(ctx, instr_name, instr);
}

/// What a router makes of an instruction depends on the router, the block,
/// the mnemonic and the instruction alone: two outcomes of handing the same
/// instruction to the same router are the same instruction, or none both
/// times, with the same reports.
pub proof fn law_routing_is_repeatable<R: Router>(
    router: &R,
    ctx: &FromHirBlockCtx,
    instr_name: Seq<char>,
    instr: InstructionId,
    first: Lowering,
    second: Lowering,
)
    requires
        first == router.routed(ctx, instr_name, instr),
        second == router.routed(ctx, instr_name, instr),
    ensures
        first.instruction == second.instruction,
        first.diagnostics == second.diagnostics,
{
}

/// The first link bound to a mnemonic takes the instruction, whatever is
/// bound to the same mnemonic further down the chain.
pub proof fn law_first_binding_wins<
    Dummy,
    Args: FromInstrArgs,
    LowerFn: InstrLowerFn<Dummy, Args>,
    Tail: Router,
>(
    router: &ConsRouter<Dummy, Args, LowerFn, Tail>,
    ctx: &FromHirBlockCtx,
    instr: InstructionId,
)
    ensures
        router.routed(ctx, router.name(), instr) == claimed::<Dummy, Args, LowerFn>(
            router.lower_fn(),
            ctx,
            router.name(),
            instr,
        ),
{
}

} // verus!
