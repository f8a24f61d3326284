//! The high-level intermediate representation: an append-only arena of
//! expressions and the instructions that refer to them.
//!
//! An expression is identified by its index in the arena. The arena only grows,
//! and an expression can only be added once everything it refers to is in place,
//! so every operand of an expression has a smaller index than the expression.

use vstd::prelude::*;
use crate::format::instructions::Register;

verus! {

/// Index of an expression in the arena of its block.
#[derive(Clone, Copy, Debug, PartialEq, Eq, Hash, Structural)]
pub struct ExprId(pub u32);

/// Index of an instruction in its block.
#[derive(Clone, Copy, Debug, PartialEq, Eq, Hash, Structural)]
pub struct InstructionId(pub u32);

impl ExprId {
    pub open spec fn index(self) -> int {
        self.0 as int
    }
}

impl InstructionId {
    pub open spec fn index(self) -> int {
        self.0 as int
    }
}

/// A fixed-point number with three decimal places, kept as the value times a
/// thousand.
#[derive(Clone, Copy, Debug, PartialEq, Eq, Hash, Structural)]
pub struct Rational(pub i32);

impl Rational {
    pub fn from_raw(raw: i32) -> (rational: Rational)
        ensures
            rational.0 == raw,
    {
        Rational(raw)
    }

    /// The scaled integer that stands for the number.
    pub fn into_raw(self) -> (raw: i32)
        ensures
            raw == self.0,
    {
        self.0
    }
}

#[derive(Clone, Debug)]
pub enum Literal {
    IntNumber(i32),
    RationalNumber(Rational),
    String(String),
}

#[derive(Clone, Copy, Debug, PartialEq, Eq, Hash, Structural)]
pub enum UnaryOp {
    Negate,
    LogicalNot,
    BitwiseNot,
}

#[derive(Clone, Copy, Debug, PartialEq, Eq, Hash, Structural)]
pub enum BinaryOp {
    Add,
    Subtract,
    Multiply,
    Divide,
    Modulo,
    BitwiseAnd,
    BitwiseOr,
    BitwiseXor,
    ShiftLeft,
    ShiftRight,
    Equals,
    NotEquals,
    Less,
    LessOrEqual,
    Greater,
    GreaterOrEqual,
    LogicalAnd,
    LogicalOr,
}

#[derive(Clone, Debug)]
pub enum Expr {
    /// Stands where the source had no expression that could be read.
    Missing,
    Literal(Literal),
    NameRef(String),
    RegisterRef(Register),
    Array(Vec<ExprId>),
    Mapping(Vec<(i32, ExprId)>),
    UnaryOp { expr: ExprId, op: UnaryOp },
    /// `op` is `None` where the source had no operator that could be read.
    BinaryOp { lhs: ExprId, rhs: ExprId, op: Option<BinaryOp> },
    Call { target: String, args: Vec<ExprId> },
}

/// An instruction as written: its mnemonic and its arguments.
#[derive(Clone, Debug)]
pub struct HirInstruction {
    pub name: String,
    pub args: Vec<ExprId>,
}

/// Every identifier in `ids` is below `bound`.
pub open spec fn ids_below(ids: Seq<ExprId>, bound: int) -> bool {
    forall|i: int| 0 <= i < ids.len() ==> (#[trigger] ids[i]).index() < bound
}

/// Every value of `entries` is below `bound`.
pub open spec fn entries_below(entries: Seq<(i32, ExprId)>, bound: int) -> bool {
    forall|i: int| 0 <= i < entries.len() ==> (#[trigger] entries[i]).1.index() < bound
}

/// Every expression that `expr` refers to has an index below `bound`.
pub open spec fn operands_below(expr: Expr, bound: int) -> bool {
    match expr {
        Expr::Missing => true,
        Expr::Literal(_) => true,
        Expr::NameRef(_) => true,
        Expr::RegisterRef(_) => true,
        Expr::Array(items) => ids_below(items@, bound),
        Expr::Mapping(entries) => entries_below(entries@, bound),
        Expr::UnaryOp { expr, op } => expr.index() < bound,
        Expr::BinaryOp { lhs, rhs, op } => lhs.index() < bound && rhs.index() < bound,
        Expr::Call { target, args } => ids_below(args@, bound),
    }
}

/// The arena invariant: each expression refers only to earlier ones, and the
/// indices fit the identifier type.
pub open spec fn arena_well_formed(exprs: Seq<Expr>) -> bool {
    &&& exprs.len() <= u32::MAX
    &&& forall|i: int| 0 <= i < exprs.len() ==> operands_below(#[trigger] exprs[i], i)
}

/// Each instruction's arguments are expressions of the arena.
pub open spec fn instructions_well_formed(
    instructions: Seq<HirInstruction>,
    exprs: Seq<Expr>,
) -> bool {
    &&& instructions.len() <= u32::MAX
    &&& forall|i: int|
        0 <= i < instructions.len() ==> ids_below(
            (#[trigger] instructions[i]).args@,
            exprs.len() as int,
        )
}

fn all_ids_below(ids: &Vec<ExprId>, bound: usize) -> (below: bool)
    ensures
        below == ids_below(ids@, bound as int),
{
    let mut i: usize = 0;
    while i < ids.len()
        invariant
            i <= ids.len(),
            forall|j: int| 0 <= j < i ==> (#[trigger] ids@[j]).index() < bound,
        decreases ids.len() - i,
    {
        if ids[i].0 as usize >= bound {
            return false;
        }
        i += 1;
    }
    true
}

fn all_entries_below(entries: &Vec<(i32, ExprId)>, bound: usize) -> (below: bool)
    ensures
        below == entries_below(entries@, bound as int),
{
    let mut i: usize = 0;
    while i < entries.len()
        invariant
            i <= entries.len(),
            forall|j: int| 0 <= j < i ==> (#[trigger] entries@[j]).1.index() < bound,
        decreases entries.len() - i,
    {
        if entries[i].1.0 as usize >= bound {
            return false;
        }
        i += 1;
    }
    true
}

fn all_operands_below(expr: &Expr, bound: usize) -> (below: bool)
    ensures
        below == operands_below(*expr, bound as int),
{
    match expr {
        Expr::Missing => true,
        Expr::Literal(_) => true,
        Expr::NameRef(_) => true,
        Expr::RegisterRef(_) => true,
        Expr::Array(items) => all_ids_below(items, bound),
        Expr::Mapping(entries) => all_entries_below(entries, bound),
        Expr::UnaryOp { expr, op } => (expr.0 as usize) < bound,
        Expr::BinaryOp { lhs, rhs, op } => (lhs.0 as usize) < bound && (rhs.0 as usize) < bound,
        Expr::Call { target, args } => all_ids_below(args, bound),
    }
}

/// The body of one block of code: its expressions and its instructions.
pub struct HirBlockBody {
    exprs: Vec<Expr>,
    instructions: Vec<HirInstruction>,
}

impl HirBlockBody {
    /// The expressions of the block, by index.
    pub closed spec fn exprs(&self) -> Seq<Expr> {
        self.exprs@
    }

    /// The instructions of the block, by index.
    pub closed spec fn instructions(&self) -> Seq<HirInstruction> {
        self.instructions@
    }

    pub open spec fn well_formed(&self) -> bool {
        &&& arena_well_formed(self.exprs())
        &&& instructions_well_formed(self.instructions(), self.exprs())
    }

    #[verifier::type_invariant]
    spec fn always_well_formed(&self) -> bool {
        self.well_formed()
    }

    pub open spec fn has_expr(&self, id: ExprId) -> bool {
        id.index() < self.exprs().len()
    }

    pub open spec fn has_instruction(&self, id: InstructionId) -> bool {
        id.index() < self.instructions().len()
    }

    pub fn new() -> (block: HirBlockBody)
        ensures
            block.exprs() == Seq::<Expr>::empty(),
            block.instructions() == Seq::<HirInstruction>::empty(),
            block.well_formed(),
    {
        HirBlockBody { exprs: Vec::new(), instructions: Vec::new() }
    }

    /// Every block is well formed; this makes the fact available to a proof.
    pub fn check_well_formed(&self)
        ensures
            self.well_formed(),
    {
        proof {
            use_type_invariant(self);
        }
    }

    /// Appends `expr` and returns its identifier. An expression that refers to
    /// one not yet in the arena is refused, and so is any expression once the
    /// arena holds as many as an identifier can count; the block is then left
    /// as it was.
    pub fn alloc_expr(&mut self, expr: Expr) -> (id: Option<ExprId>)
        ensures
            final(self).instructions() == old(self).instructions(),
            match id {
                Some(id) => {
                    &&& operands_below(expr, old(self).exprs().len() as int)
                    &&& old(self).exprs().len() < u32::MAX
                    &&& id.index() == old(self).exprs().len()
                    &&& final(self).exprs() == old(self).exprs().push(expr)
                },
                None => {
                    &&& !(operands_below(expr, old(self).exprs().len() as int) && old(
                        self,
                    ).exprs().len() < u32::MAX)
                    &&& final(self).exprs() == old(self).exprs()
                },
            },
    {
        proof {
            use_type_invariant(&*self);
        }
        let len = self.exprs.len();
        if len >= u32::MAX as usize || !all_operands_below(&expr, len) {
            return None;
        }
        let mut taken = HirBlockBody::new();
        core::mem::swap(self, &mut taken);
        let HirBlockBody { mut exprs, instructions } = taken;
        exprs.push(expr);
        *self = HirBlockBody { exprs, instructions };
        Some(ExprId(len as u32))
    }

    /// Appends an instruction and returns its identifier. An instruction with
    /// an argument that is not in the arena is refused, and so is any
    /// instruction once the block holds as many as an identifier can count.
    pub fn alloc_instruction(&mut self, name: String, args: Vec<ExprId>) -> (id: Option<
        InstructionId,
    >)
        ensures
            final(self).exprs() == old(self).exprs(),
            match id {
                Some(id) => {
                    &&& ids_below(args@, old(self).exprs().len() as int)
                    &&& old(self).instructions().len() < u32::MAX
                    &&& id.index() == old(self).instructions().len()
                    &&& final(self).instructions() == old(self).instructions().push(
                        HirInstruction { name, args },
                    )
                },
                None => {
                    &&& !(ids_below(args@, old(self).exprs().len() as int) && old(
                        self,
                    ).instructions().len() < u32::MAX)
                    &&& final(self).instructions() == old(self).instructions()
                },
            },
    {
        proof {
            use_type_invariant(&*self);
        }
        let len = self.instructions.len();
        if len >= u32::MAX as usize || !all_ids_below(&args, self.exprs.len()) {
            return None;
        }
        let mut taken = HirBlockBody::new();
        core::mem::swap(self, &mut taken);
        let HirBlockBody { exprs, mut instructions } = taken;
        instructions.push(HirInstruction { name, args });
        *self = HirBlockBody { exprs, instructions };
        Some(InstructionId(len as u32))
    }

    pub fn expr_count(&self) -> (count: usize)
        ensures
            count == self.exprs().len(),
    {
        self.exprs.len()
    }

    pub fn contains_expr(&self, id: ExprId) -> (found: bool)
        ensures
            found == self.has_expr(id),
    {
        (id.0 as usize) < self.exprs.len()
    }

    pub fn contains_instruction(&self, id: InstructionId) -> (found: bool)
        ensures
            found == self.has_instruction(id),
    {
        (id.0 as usize) < self.instructions.len()
    }

    pub fn expr(&self, id: ExprId) -> (expr: &Expr)
        requires
            self.has_expr(id),
        ensures
            *expr == self.exprs()[id.index()],
            operands_below(*expr, id.index()),
    {
        proof {
            use_type_invariant(self);
        }
        &self.exprs[id.0 as usize]
    }

    pub fn instruction(&self, id: InstructionId) -> (instruction: &HirInstruction)
        requires
            self.has_instruction(id),
        ensures
            *instruction == self.instructions()[id.index()],
            ids_below(instruction.args@, self.exprs().len() as int),
    {
        proof {
            use_type_invariant(self);
        }
        &self.instructions[id.0 as usize]
    }
}

} // verus!
