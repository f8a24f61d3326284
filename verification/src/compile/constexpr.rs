//! Evaluation of constant expressions.
//!
//! A value alias is computed from literals and from aliases defined before it,
//! with 32-bit arithmetic that reports an overflow instead of wrapping. What is
//! not a number (a string, an array, a mapping, a register, a reference to
//! code) is refused with a diagnostic.

use vstd::prelude::*;
use vstd::pervasive::unreached;
use vstd::string::StringExecFns;
use core::hash::BuildHasherDefault;
use rustc_hash::{FxHashMap, FxHasher};
use crate::compile::diagnostics::{
    diagnostics_view,
    lemma_diagnostics_view_push,
    plain_diagnostic,
    Diagnostic,
    DiagnosticView,
    LabelView,
    Location,
    Span,
};
use crate::compile::hir::{
    BinaryOp,
    Expr,
    ExprId,
    HirBlockBody,
    Literal,
    UnaryOp,
};

verus! {

/// The value of a constant expression: a signed 32-bit integer, kept apart from
/// the raw operands of instructions.
#[derive(Copy, Clone, Debug, Eq, PartialEq, Hash, Structural)]
pub struct ConstexprValue(pub i32);

impl ConstexprValue {
    pub open spec fn spec_constant(value: i32) -> ConstexprValue {
        ConstexprValue(value)
    }

    pub open spec fn spec_value(self) -> i32 {
        self.0
    }

    #[verifier::when_used_as_spec(spec_constant)]
    pub fn constant(value: i32) -> (constant: ConstexprValue)
        ensures
            constant == ConstexprValue::spec_constant(value),
            constant.spec_value() == value,
    {
        Self(value)
    }

    #[verifier::when_used_as_spec(spec_value)]
    pub fn value(self) -> (value: i32)
        ensures
            value == self.spec_value(),
    {
        self.0
    }
}

/// Marks a value that could not be computed; the reasons are in the diagnostics.
#[derive(Copy, Clone, Debug, Eq, PartialEq, Hash, Structural)]
pub struct LowerError;

pub type LowerResult<T> = Result<T, LowerError>;

/// What a name stands for when a constant expression mentions it.
#[derive(Copy, Clone, Debug, PartialEq, Eq)]
pub enum ConstexprContextValue {
    /// A value alias: its value, or the failure to compute it, and where it
    /// was defined.
    Value(LowerResult<ConstexprValue>, Option<Span>),
    /// A piece of code, defined at the given place. It has no value, but the
    /// name is known, so that using it is reported as a type error.
    Block(Span),
}

#[verifier::external_type_specification]
#[verifier::external_body]
pub struct ExFxHasher(FxHasher);

#[verifier::external_type_specification]
#[verifier::external_body]
#[verifier::reject_recursive_types(H)]
pub struct ExBuildHasherDefault<H>(BuildHasherDefault<H>);

/// What a table of names holds: the entry of each name in it.
pub uninterp spec fn table_entries(table: FxHashMap<String, ConstexprContextValue>) -> Map<
    Seq<char>,
    ConstexprContextValue,
>;

/// `FxHashMap::default`: a new table holds nothing.
#[verifier::external_body]
fn table_new() -> (created: FxHashMap<String, ConstexprContextValue>)
    ensures
        table_entries(created) == (Map::<Seq<char>, ConstexprContextValue>::empty()),
{
    FxHashMap::default()
}

/// `HashMap::insert` on an `FxHashMap`: afterwards `name` has the entry
/// `value` and every other name has the entry it had; the entry that `name`
/// had before, if any, is returned.
#[verifier::external_body]
fn table_insert(
    table: &mut FxHashMap<String, ConstexprContextValue>,
    name: String,
    value: ConstexprContextValue,
) -> (previous: Option<ConstexprContextValue>)
    ensures
        table_entries(*final(table)) == table_entries(*old(table)).insert(name@, value),
        previous == (if table_entries(*old(table)).contains_key(name@) {
            Some(table_entries(*old(table))[name@])
        } else {
            None
        }),
{
    table.insert(name, value)
}

/// `HashMap::get` on an `FxHashMap`, with the entry copied out: the entry of
/// `name`, or `None` where the table has none.
#[verifier::external_body]
fn table_get(table: &FxHashMap<String, ConstexprContextValue>, name: &str) -> (value: Option<
    ConstexprContextValue,
>)
    ensures
        value == (if table_entries(*table).contains_key(name@) {
            Some(table_entries(*table)[name@])
        } else {
            None
        }),
{
    table.get(name).copied()
}

/// The names that a constant expression may mention. It is filled once, before
/// any expression that uses it is evaluated, and only read after that.
pub struct ConstexprContext {
    table: FxHashMap<String, ConstexprContextValue>,
}

impl View for ConstexprContext {
    type V = Map<Seq<char>, ConstexprContextValue>;

    closed spec fn view(&self) -> Map<Seq<char>, ConstexprContextValue> {
        table_entries(self.table)
    }
}

impl ConstexprContext {
    pub fn new() -> (context: ConstexprContext)
        ensures
            context@ == (Map::<Seq<char>, ConstexprContextValue>::empty()),
    {
        ConstexprContext { table: table_new() }
    }

    /// Binds `name` to `value` and returns what it was bound to before.
    pub fn insert(&mut self, name: String, value: ConstexprContextValue) -> (previous: Option<
        ConstexprContextValue,
    >)
        ensures
            final(self)@ == old(self)@.insert(name@, value),
            previous == (if old(self)@.contains_key(name@) {
                Some(old(self)@[name@])
            } else {
                None
            }),
    {
        table_insert(&mut self.table, name, value)
    }

    /// What `name` is bound to, if it is bound.
    pub fn get(&self, name: &str) -> (value: Option<ConstexprContextValue>)
        ensures
            value == (if self@.contains_key(name@) {
                Some(self@[name@])
            } else {
                None
            }),
    {
        table_get(&self.table, name)
    }
}

/// The result of evaluating one expression, and the diagnostics that the
/// evaluation reports, in the order in which it reports them.
pub struct Evaluation {
    pub result: LowerResult<ConstexprValue>,
    pub diagnostics: Seq<DiagnosticView>,
}

pub open spec fn fits_i32(value: int) -> bool {
    i32::MIN <= value <= i32::MAX
}

/// The quotient rounded towards zero, for a divisor other than zero.
pub open spec fn truncated_quotient(dividend: int, divisor: int) -> int {
    let magnitude = (if dividend < 0 {
        -dividend
    } else {
        dividend
    }) / (if divisor < 0 {
        -divisor
    } else {
        divisor
    });
    if (dividend < 0) == (divisor < 0) {
        magnitude
    } else {
        -magnitude
    }
}

/// The mathematical value of a unary operation, before the range check.
pub open spec fn unary_value(op: UnaryOp, operand: int) -> int {
    match op {
        UnaryOp::Negate => -operand,
        UnaryOp::LogicalNot => if operand == 0 {
            1
        } else {
            0
        },
        UnaryOp::BitwiseNot => -operand - 1,
    }
}

/// Whether constant evaluation knows how to apply the operator.
pub open spec fn is_supported(op: BinaryOp) -> bool {
    op == BinaryOp::Add || op == BinaryOp::Subtract || op == BinaryOp::Multiply || op
        == BinaryOp::Divide
}

/// The mathematical value of a supported binary operation, before the range
/// check; for a division the divisor is not zero.
pub open spec fn binary_value(op: BinaryOp, lhs: int, rhs: int) -> int {
    match op {
        BinaryOp::Add => lhs + rhs,
        BinaryOp::Subtract => lhs - rhs,
        BinaryOp::Multiply => lhs * rhs,
        _ => truncated_quotient(lhs, rhs),
    }
}

pub open spec fn type_mismatch_message(expected: Seq<char>, found: Seq<char>) -> Seq<char> {
    "Type mismatch: expected "@ + expected + ", found "@ + found
}

pub open spec fn overflow_message() -> Seq<char> {
    "Overflow in constant expression"@
}

pub open spec fn division_by_zero_message() -> Seq<char> {
    "Division by zero"@
}

pub open spec fn register_message() -> Seq<char> {
    "Registers cannot be used in const context"@
}

pub open spec fn unsupported_operator_message() -> Seq<char> {
    "Operator is not supported in const context"@
}

pub open spec fn call_message() -> Seq<char> {
    "Calls are not supported in const context"@
}

/// The report that something other than a number stands where a number is
/// needed.
pub open spec fn type_mismatch_view(location: Location, found: Seq<char>) -> DiagnosticView {
    plain_diagnostic(location, type_mismatch_message("int or float"@, found))
}

/// The report that a name stands for code: a type mismatch with a label at the
/// place where the code was defined.
pub open spec fn code_reference_view(location: Location, defined_at: Span) -> DiagnosticView {
    DiagnosticView {
        message: type_mismatch_message("int or float"@, "code reference"@),
        location,
        labels: seq![
            LabelView { message: "Code reference defined at"@, location: Location::Span(defined_at) },
        ],
    }
}

/// A value, with nothing reported.
pub open spec fn success(value: i32) -> Evaluation {
    Evaluation { result: Ok(ConstexprValue(value)), diagnostics: Seq::empty() }
}

/// A failure that reports nothing itself: its cause was reported elsewhere.
pub open spec fn silent_failure() -> Evaluation {
    Evaluation { result: Err(LowerError), diagnostics: Seq::empty() }
}

/// A failure with its report.
pub open spec fn failure(diagnostic: DiagnosticView) -> Evaluation {
    Evaluation { result: Err(LowerError), diagnostics: seq![diagnostic] }
}

/// A computed number: a value where it fits 32 bits, else an overflow.
pub open spec fn checked(value: int, location: Location) -> Evaluation {
    if fits_i32(value) {
        success(value as i32)
    } else {
        failure(plain_diagnostic(location, overflow_message()))
    }
}

/// A unary operation at `location` on an operand that evaluated to `operand`.
pub open spec fn unary_evaluation(op: UnaryOp, operand: Evaluation, location: Location)
    -> Evaluation {
    match operand.result {
        Ok(value) => {
            let applied = checked(unary_value(op, value.0 as int), location);
            Evaluation {
                result: applied.result,
                diagnostics: operand.diagnostics + applied.diagnostics,
            }
        },
        Err(_) => Evaluation { result: Err(LowerError), diagnostics: operand.diagnostics },
    }
}

/// A binary operation on two numbers.
pub open spec fn apply_binary(op: BinaryOp, lhs: i32, rhs: i32, location: Location) -> Evaluation {
    if !is_supported(op) {
        failure(plain_diagnostic(location, unsupported_operator_message()))
    } else if op == BinaryOp::Divide && rhs == 0 {
        failure(plain_diagnostic(location, division_by_zero_message()))
    } else {
        checked(binary_value(op, lhs as int, rhs as int), location)
    }
}

/// A binary operation at `location` whose operands evaluated to `lhs` and
/// `rhs`. Both operands report what they have to report, the left one first;
/// the operation itself is tried only where both have a value and the operator
/// could be read.
pub open spec fn binary_evaluation(
    op: Option<BinaryOp>,
    lhs: Evaluation,
    rhs: Evaluation,
    location: Location,
) -> Evaluation {
    let reported = lhs.diagnostics + rhs.diagnostics;
    match (lhs.result, rhs.result, op) {
        (Ok(left), Ok(right), Some(op)) => {
            let applied = apply_binary(op, left.0, right.0, location);
            Evaluation { result: applied.result, diagnostics: reported + applied.diagnostics }
        },
        _ => Evaluation { result: Err(LowerError), diagnostics: reported },
    }
}

/// What a name evaluates to at `location`.
pub open spec fn name_evaluation(entry: ConstexprContextValue, location: Location) -> Evaluation {
    match entry {
        ConstexprContextValue::Value(value, _) => Evaluation {
            result: value,
            diagnostics: Seq::empty(),
        },
        ConstexprContextValue::Block(defined_at) => failure(
            code_reference_view(location, defined_at),
        ),
    }
}

/// The evaluation of expression `id` of the arena `exprs`, with names bound as
/// in `names`.
pub open spec fn evaluation(
    names: Map<Seq<char>, ConstexprContextValue>,
    exprs: Seq<Expr>,
    id: int,
) -> Evaluation
    decreases id,
{
    if 0 <= id < exprs.len() {
        let location = Location::Expr(ExprId(id as u32));
        match exprs[id] {
            Expr::Missing => silent_failure(),
            Expr::Literal(Literal::IntNumber(value)) => success(value),
            Expr::Literal(Literal::RationalNumber(value)) => success(value.0),
            Expr::Literal(Literal::String(_)) => failure(type_mismatch_view(location, "string"@)),
            Expr::NameRef(name) => if names.contains_key(name@) {
                name_evaluation(names[name@], location)
            } else {
                silent_failure()
            },
            Expr::RegisterRef(_) => failure(plain_diagnostic(location, register_message())),
            Expr::Array(_) => failure(type_mismatch_view(location, "array"@)),
            Expr::Mapping(_) => failure(type_mismatch_view(location, "mapping"@)),
            Expr::UnaryOp { expr, op } => if expr.index() < id {
                unary_evaluation(op, evaluation(names, exprs, expr.index()), location)
            } else {
                silent_failure()
            },
            Expr::BinaryOp { lhs, rhs, op } => if lhs.index() < id && rhs.index() < id {
                binary_evaluation(
                    op,
                    evaluation(names, exprs, lhs.index()),
                    evaluation(names, exprs, rhs.index()),
                    location,
                )
            } else {
                silent_failure()
            },
            Expr::Call { target, args } => failure(plain_diagnostic(location, call_message())),
        }
    } else {
        silent_failure()
    }
}

/// Every name that the evaluation of expression `id` looks up is bound in
/// `names`.
pub open spec fn names_bound(
    names: Map<Seq<char>, ConstexprContextValue>,
    exprs: Seq<Expr>,
    id: int,
) -> bool
    decreases id,
{
    if 0 <= id < exprs.len() {
        match exprs[id] {
            Expr::NameRef(name) => names.contains_key(name@),
            Expr::UnaryOp { expr, op } => expr.index() < id ==> names_bound(
                names,
                exprs,
                expr.index(),
            ),
            Expr::BinaryOp { lhs, rhs, op } => {
                &&& lhs.index() < id ==> names_bound(names, exprs, lhs.index())
                &&& rhs.index() < id ==> names_bound(names, exprs, rhs.index())
            },
            _ => true,
        }
    } else {
        true
    }
}

/// The diagnostic that `found` stands where `expected` is needed.
pub fn type_mismatch(location: Location, expected: &str, found: &str) -> (diagnostic: Diagnostic)
    ensures
        diagnostic@ == plain_diagnostic(location, type_mismatch_message(expected@, found@)),
{
    let mut message = String::from_str("Type mismatch: expected ");
    message.append(expected);
    message.append(", found ");
    message.append(found);
    Diagnostic::new(location, message)
}

/// Records `diagnostic` and fails.
fn error(diagnostics: &mut Vec<Diagnostic>, diagnostic: Diagnostic) -> (result: LowerResult<
    ConstexprValue,
>)
    ensures
        result == (Err::<ConstexprValue, LowerError>(LowerError)),
        diagnostics_view(final(diagnostics)@) == diagnostics_view(old(diagnostics)@).push(
            diagnostic@,
        ),
{
    proof {
        lemma_diagnostics_view_push(diagnostics@, diagnostic);
    }
    diagnostics.push(diagnostic);
    Err(LowerError)
}

/// Records an overflow unless `value` is there.
fn checked_result(
    diagnostics: &mut Vec<Diagnostic>,
    value: Option<i32>,
    location: Location,
    Ghost(exact): Ghost<int>,
) -> (result: LowerResult<ConstexprValue>)
    requires
        value == (if fits_i32(exact) {
            Some(exact as i32)
        } else {
            None
        }),
    ensures
        result == checked(exact, location).result,
        diagnostics_view(final(diagnostics)@) == diagnostics_view(old(diagnostics)@) + checked(
            exact,
            location,
        ).diagnostics,
{
    match value {
        Some(value) => {
            assert(diagnostics_view(diagnostics@) + Seq::<DiagnosticView>::empty()
                =~= diagnostics_view(diagnostics@));
            Ok(ConstexprValue::constant(value))
        },
        None => {
            let ghost before = diagnostics_view(diagnostics@);
            let result = error(
                diagnostics,
                Diagnostic::new(location, String::from_str("Overflow in constant expression")),
            );
            assert(before.push(plain_diagnostic(location, overflow_message())) =~= before
                + seq![plain_diagnostic(location, overflow_message())]);
            result
        },
    }
}

/// Whether every name that the evaluation of expression `expr` looks up is
/// bound in `context`.
pub fn names_resolved(context: &ConstexprContext, block: &HirBlockBody, expr: ExprId) -> (resolved:
    bool)
    requires
        block.has_expr(expr),
    ensures
        resolved == names_bound(context@, block.exprs(), expr.index()),
    decreases expr.index(),
{
    match block.expr(expr) {
        Expr::NameRef(name) => context.get(name.as_str()).is_some(),
        Expr::UnaryOp { expr: operand, op } => names_resolved(context, block, *operand),
        Expr::BinaryOp { lhs, rhs, op } => names_resolved(context, block, *lhs) && names_resolved(
            context,
            block,
            *rhs,
        ),
        _ => true,
    }
}

/// Evaluates expression `expr` of `block` and appends what there is to report
/// to `diagnostics`.
///
/// The result and the reports are those of `evaluation`. A name that the
/// expression looks up must be bound in `context`: to resolve names is the
/// work of an earlier stage.
pub fn evaluate(
    context: &ConstexprContext,
    diagnostics: &mut Vec<Diagnostic>,
    block: &HirBlockBody,
    expr: ExprId,
) -> (result: LowerResult<ConstexprValue>)
    requires
        block.has_expr(expr),
        names_bound(context@, block.exprs(), expr.index()),
    ensures
        result == evaluation(context@, block.exprs(), expr.index()).result,
        diagnostics_view(final(diagnostics)@) == diagnostics_view(old(diagnostics)@) + evaluation(
            context@,
            block.exprs(),
            expr.index(),
        ).diagnostics,
    decreases expr.index(),
{
    let location = Location::Expr(expr);
    let ghost before = diagnostics_view(diagnostics@);
    let ghost nothing = Seq::<DiagnosticView>::empty();
    assert(before + nothing =~= before);
    assert(forall|diagnostic: DiagnosticView|
        before.push(diagnostic) =~= before + #[trigger] seq![diagnostic]);
    match block.expr(expr) {
        Expr::Missing => Err(LowerError),
        Expr::Literal(Literal::IntNumber(value)) => Ok(ConstexprValue::constant(*value)),
        Expr::Literal(Literal::RationalNumber(value)) => Ok(
            ConstexprValue::constant(value.into_raw()),
        ),
        Expr::Literal(Literal::String(_)) => error(
            diagnostics,
            type_mismatch(location, "int or float", "string"),
        ),
        Expr::NameRef(name) => match context.get(name.as_str()) {
            Some(ConstexprContextValue::Value(value, _)) => value,
            Some(ConstexprContextValue::Block(defined_at)) => error(
                diagnostics,
                type_mismatch(location, "int or float", "code reference").with_additional_label(
                    String::from_str("Code reference defined at"),
                    Location::Span(defined_at),
                ),
            ),
            None => unreached(),
        },
        Expr::RegisterRef(_) => error(
            diagnostics,
            Diagnostic::new(location, String::from_str("Registers cannot be used in const context")),
        ),
        Expr::Array(_) => error(diagnostics, type_mismatch(location, "int or float", "array")),
        Expr::Mapping(_) => error(diagnostics, type_mismatch(location, "int or float", "mapping")),
        Expr::UnaryOp { expr: operand, op } => {
            let ghost inner = evaluation(context@, block.exprs(), operand.index());
            let value = match evaluate(context, diagnostics, block, *operand) {
                Ok(value) => value.value(),
                Err(_) => {
                    return Err(LowerError);
                },
            };
            let result = match op {
                UnaryOp::Negate => 0i32.checked_sub(value),
                UnaryOp::LogicalNot => Some(
                    if value == 0 {
                        1
                    } else {
                        0
                    },
                ),
                UnaryOp::BitwiseNot => {
                    assert(!value == -value - 1) by (bit_vector);
                    Some(!value)
                },
            };
            let ghost exact = unary_value(*op, value as int);
            assert(before + (inner.diagnostics + checked(exact, location).diagnostics) =~= (before
                + inner.diagnostics) + checked(exact, location).diagnostics);
            checked_result(diagnostics, result, location, Ghost(exact))
        },
        Expr::BinaryOp { lhs, rhs, op } => {
            let ghost left_inner = evaluation(context@, block.exprs(), lhs.index());
            let ghost right_inner = evaluation(context@, block.exprs(), rhs.index());
            let ghost reported = left_inner.diagnostics + right_inner.diagnostics;
            let left = evaluate(context, diagnostics, block, *lhs);
            let right = evaluate(context, diagnostics, block, *rhs);
            assert(diagnostics_view(diagnostics@) =~= before + reported);
            let left = match left {
                Ok(left) => left.value(),
                Err(_) => {
                    return Err(LowerError);
                },
            };
            let right = match right {
                Ok(right) => right.value(),
                Err(_) => {
                    return Err(LowerError);
                },
            };
            let op = match op {
                Some(op) => *op,
                None => {
                    return Err(LowerError);
                },
            };
            let ghost applied = apply_binary(op, left, right, location);
            assert(before + (reported + applied.diagnostics) =~= (before + reported)
                + applied.diagnostics);
            assert(forall|diagnostic: DiagnosticView|
                (before + reported).push(diagnostic) =~= (before + reported)
                    + #[trigger] seq![diagnostic]);
            let result = match op {
                BinaryOp::Add => left.checked_add(right),
                BinaryOp::Subtract => left.checked_sub(right),
                BinaryOp::Multiply => left.checked_mul(right),
                BinaryOp::Divide => {
                    if right == 0 {
                        return error(
                            diagnostics,
                            Diagnostic::new(location, String::from_str("Division by zero")),
                        );
                    }
                    left.checked_div(right)
                },
                _ => {
                    return error(
                        diagnostics,
                        Diagnostic::new(
                            location,
                            String::from_str("Operator is not supported in const context"),
                        ),
                    );
                },
            };
            checked_result(
                diagnostics,
                result,
                location,
                Ghost(binary_value(op, left as int, right as int)),
            )
        },
        Expr::Call { target, args } => error(
            diagnostics,
            Diagnostic::new(location, String::from_str("Calls are not supported in const context")),
        ),
    }
}

/// Evaluates expression `expr` of `block` as a constant, and returns the value
/// or the failure together with everything that was reported on the way.
pub fn constexpr_evaluate(context: &ConstexprContext, block: &HirBlockBody, expr: ExprId) -> (outcome:
    (LowerResult<ConstexprValue>, Vec<Diagnostic>))
    requires
        block.has_expr(expr),
        names_bound(context@, block.exprs(), expr.index()),
    ensures
        outcome.0 == evaluation(context@, block.exprs(), expr.index()).result,
        diagnostics_view(outcome.1@) == evaluation(
            context@,
            block.exprs(),
            expr.index(),
        ).diagnostics,
{
    let mut diagnostics = Vec::new();
    let value = evaluate(context, &mut diagnostics, block, expr);
    assert(diagnostics_view(Seq::<Diagnostic>::empty()) + evaluation(
        context@,
        block.exprs(),
        expr.index(),
    ).diagnostics =~= evaluation(context@, block.exprs(), expr.index()).diagnostics);
    (value, diagnostics)
}

/// Evaluates expression `expr` of `block` as a constant where the block has
/// such an expression and every name that the evaluation looks up is bound;
/// nothing is evaluated otherwise.
pub fn try_constexpr_evaluate(context: &ConstexprContext, block: &HirBlockBody, expr: ExprId) -> (outcome:
    Option<(LowerResult<ConstexprValue>, Vec<Diagnostic>)>)
    ensures
        outcome is Some <==> block.has_expr(expr) && names_bound(
            context@,
            block.exprs(),
            expr.index(),
        ),
        outcome matches Some(outcome) ==> outcome.0 == evaluation(
            context@,
            block.exprs(),
            expr.index(),
        ).result && diagnostics_view(outcome.1@) == evaluation(
            context@,
            block.exprs(),
            expr.index(),
        ).diagnostics,
{
    if block.contains_expr(expr) && names_resolved(context, block, expr) {
        Some(constexpr_evaluate(context, block, expr))
    } else {
        None
    }
}

/// The 32-bit operation that stands for a supported operator: `None` where the
/// exact result does not fit, or where the divisor is zero.
pub open spec fn checked_operation(op: BinaryOp, lhs: i32, rhs: i32) -> Option<i32> {
    match op {
        BinaryOp::Add => lhs.checked_add(rhs),
        BinaryOp::Subtract => lhs.checked_sub(rhs),
        BinaryOp::Multiply => lhs.checked_mul(rhs),
        _ => lhs.checked_div(rhs),
    }
}

/// Expression `id` applies `op` to two earlier expressions that evaluate to
/// the numbers `lhs` and `rhs`.
pub open spec fn applies_to_values(
    names: Map<Seq<char>, ConstexprContextValue>,
    exprs: Seq<Expr>,
    id: int,
    op: BinaryOp,
    lhs: i32,
    rhs: i32,
) -> bool {
    &&& 0 <= id < exprs.len()
    &&& exprs[id] is BinaryOp
    &&& exprs[id]->BinaryOp_op == Some(op)
    &&& exprs[id]->lhs.index() < id
    &&& exprs[id]->rhs.index() < id
    &&& evaluation(names, exprs, exprs[id]->lhs.index()).result == Ok::<
        ConstexprValue,
        LowerError,
    >(ConstexprValue(lhs))
    &&& evaluation(names, exprs, exprs[id]->rhs.index()).result == Ok::<
        ConstexprValue,
        LowerError,
    >(ConstexprValue(rhs))
}

/// What the operands of the binary expression `id` report, the left one first.
pub open spec fn operand_reports(
    names: Map<Seq<char>, ConstexprContextValue>,
    exprs: Seq<Expr>,
    id: int,
) -> Seq<DiagnosticView> {
    evaluation(names, exprs, exprs[id]->lhs.index()).diagnostics + evaluation(
        names,
        exprs,
        exprs[id]->rhs.index(),
    ).diagnostics
}

/// Addition, subtraction, multiplication and division of two numbers give what
/// the checked 32-bit operation gives. Where that operation has a result, the
/// expression has that value and reports nothing of its own.
pub proof fn law_arithmetic_is_checked(
    names: Map<Seq<char>, ConstexprContextValue>,
    exprs: Seq<Expr>,
    id: int,
    op: BinaryOp,
    lhs: i32,
    rhs: i32,
)
    requires
        applies_to_values(names, exprs, id, op, lhs, rhs),
        is_supported(op),
    ensures
        evaluation(names, exprs, id).result == (match checked_operation(op, lhs, rhs) {
            Some(value) => Ok::<ConstexprValue, LowerError>(ConstexprValue(value)),
            None => Err::<ConstexprValue, LowerError>(LowerError),
        }),
        checked_operation(op, lhs, rhs) is Some ==> evaluation(names, exprs, id).diagnostics
            == operand_reports(names, exprs, id),
{
    let reported = operand_reports(names, exprs, id);
    assert(reported + Seq::<DiagnosticView>::empty() =~= reported);
}

/// A division by zero has no value, and reports exactly that: one diagnostic
/// at the division, after what the operands report, and no overflow.
pub proof fn law_division_by_zero(
    names: Map<Seq<char>, ConstexprContextValue>,
    exprs: Seq<Expr>,
    id: int,
    lhs: i32,
)
    requires
        applies_to_values(names, exprs, id, BinaryOp::Divide, lhs, 0),
    ensures
        evaluation(names, exprs, id).result is Err,
        evaluation(names, exprs, id).diagnostics == operand_reports(names, exprs, id).push(
            plain_diagnostic(Location::Expr(ExprId(id as u32)), division_by_zero_message()),
        ),
{
    let reported = operand_reports(names, exprs, id);
    let report = plain_diagnostic(Location::Expr(ExprId(id as u32)), division_by_zero_message());
    assert(reported + seq![report] =~= reported.push(report));
}

/// An operation whose exact result does not fit 32 bits has no value, and
/// reports one overflow at the operation, after what the operands report.
pub proof fn law_overflow_is_reported(
    names: Map<Seq<char>, ConstexprContextValue>,
    exprs: Seq<Expr>,
    id: int,
    op: BinaryOp,
    lhs: i32,
    rhs: i32,
)
    requires
        applies_to_values(names, exprs, id, op, lhs, rhs),
        is_supported(op),
        op == BinaryOp::Divide ==> rhs != 0,
        !fits_i32(binary_value(op, lhs as int, rhs as int)),
    ensures
        evaluation(names, exprs, id).result is Err,
        evaluation(names, exprs, id).diagnostics == operand_reports(names, exprs, id).push(
            plain_diagnostic(Location::Expr(ExprId(id as u32)), overflow_message()),
        ),
{
    let reported = operand_reports(names, exprs, id);
    let report = plain_diagnostic(Location::Expr(ExprId(id as u32)), overflow_message());
    assert(reported + seq![report] =~= reported.push(report));
}

/// Negating the least number has no value, and reports one overflow at the
/// negation, after what the operand reports.
pub proof fn law_negation_overflow(
    names: Map<Seq<char>, ConstexprContextValue>,
    exprs: Seq<Expr>,
    id: int,
)
    requires
        0 <= id < exprs.len(),
        exprs[id] is UnaryOp,
        exprs[id]->UnaryOp_op == UnaryOp::Negate,
        exprs[id]->expr.index() < id,
        evaluation(names, exprs, exprs[id]->expr.index()).result == Ok::<
            ConstexprValue,
            LowerError,
        >(ConstexprValue(i32::MIN)),
    ensures
        evaluation(names, exprs, id).result is Err,
        evaluation(names, exprs, id).diagnostics == evaluation(
            names,
            exprs,
            exprs[id]->expr.index(),
        ).diagnostics.push(
            plain_diagnostic(Location::Expr(ExprId(id as u32)), overflow_message()),
        ),
{
    let reported = evaluation(names, exprs, exprs[id]->expr.index()).diagnostics;
    let report = plain_diagnostic(Location::Expr(ExprId(id as u32)), overflow_message());
    assert(reported + seq![report] =~= reported.push(report));
}

/// The kind that a type mismatch names for an expression that is no number:
/// a string, an array, a mapping, or a name that stands for code.
pub open spec fn mismatched_kind(names: Map<Seq<char>, ConstexprContextValue>, expr: Expr) -> Option<
    Seq<char>,
> {
    match expr {
        Expr::Literal(Literal::String(_)) => Some("string"@),
        Expr::Array(_) => Some("array"@),
        Expr::Mapping(_) => Some("mapping"@),
        Expr::NameRef(name) => if names.contains_key(name@) && names[name@] is Block {
            Some("code reference"@)
        } else {
            None
        },
        _ => None,
    }
}

/// A string, an array, a mapping and a name that stands for code are refused:
/// the evaluation fails with exactly one diagnostic, a type mismatch at the
/// expression that names what was found.
pub proof fn law_type_rejection(
    names: Map<Seq<char>, ConstexprContextValue>,
    exprs: Seq<Expr>,
    id: int,
)
    requires
        0 <= id < exprs.len(),
        mismatched_kind(names, exprs[id]) is Some,
    ensures
        evaluation(names, exprs, id).result is Err,
        evaluation(names, exprs, id).diagnostics.len() == 1,
        evaluation(names, exprs, id).diagnostics[0].location == Location::Expr(ExprId(id as u32)),
        evaluation(names, exprs, id).diagnostics[0].message == type_mismatch_message(
            "int or float"@,
            mismatched_kind(names, exprs[id])->0,
        ),
{
}

/// A register is refused: the evaluation fails with exactly one diagnostic at
/// the expression, which says that registers have no place in a constant.
pub proof fn law_register_rejection(
    names: Map<Seq<char>, ConstexprContextValue>,
    exprs: Seq<Expr>,
    id: int,
)
    requires
        0 <= id < exprs.len(),
        exprs[id] is RegisterRef,
    ensures
        evaluation(names, exprs, id).result is Err,
        evaluation(names, exprs, id).diagnostics == seq![
            plain_diagnostic(Location::Expr(ExprId(id as u32)), register_message()),
        ],
{
}

/// A name that stands for code is refused with a label that points at the
/// place where the code was defined.
pub proof fn law_code_reference_label(
    names: Map<Seq<char>, ConstexprContextValue>,
    exprs: Seq<Expr>,
    id: int,
    defined_at: Span,
)
    requires
        0 <= id < exprs.len(),
        exprs[id] is NameRef,
        names.contains_key(exprs[id]->NameRef_0@),
        names[exprs[id]->NameRef_0@] == ConstexprContextValue::Block(defined_at),
    ensures
        evaluation(names, exprs, id).result is Err,
        evaluation(names, exprs, id).diagnostics.len() == 1,
        evaluation(names, exprs, id).diagnostics[0].labels.len() == 1,
        evaluation(names, exprs, id).diagnostics[0].labels[0].location == Location::Span(
            defined_at,
        ),
{
}

/// No part of expression `id` fails for a reason that was reported elsewhere:
/// none is missing, no operator is missing, and no name stands for a value
/// that could not be computed.
pub open spec fn reports_own_failures(
    names: Map<Seq<char>, ConstexprContextValue>,
    exprs: Seq<Expr>,
    id: int,
) -> bool
    decreases id,
{
    if 0 <= id < exprs.len() {
        match exprs[id] {
            Expr::Missing => false,
            Expr::NameRef(name) => names.contains_key(name@) && !(names[name@] matches ConstexprContextValue::Value(
                Err(_),
                _,
            )),
            Expr::UnaryOp { expr, op } => expr.index() < id && reports_own_failures(
                names,
                exprs,
                expr.index(),
            ),
            Expr::BinaryOp { lhs, rhs, op } => {
                &&& op is Some
                &&& lhs.index() < id
                &&& rhs.index() < id
                &&& reports_own_failures(names, exprs, lhs.index())
                &&& reports_own_failures(names, exprs, rhs.index())
            },
            _ => true,
        }
    } else {
        false
    }
}

/// A failed evaluation has reported at least one diagnostic, unless a part of
/// the expression fails for a reason that was reported elsewhere.
pub proof fn law_failure_is_reported(
    names: Map<Seq<char>, ConstexprContextValue>,
    exprs: Seq<Expr>,
    id: int,
)
    requires
        reports_own_failures(names, exprs, id),
    ensures
        evaluation(names, exprs, id).result is Err ==> evaluation(
            names,
            exprs,
            id,
        ).diagnostics.len() >= 1,
    decreases id,
{
    match exprs[id] {
        Expr::UnaryOp { expr, op } => {
            law_failure_is_reported(names, exprs, expr.index());
        },
        Expr::BinaryOp { lhs, rhs, op } => {
            law_failure_is_reported(names, exprs, lhs.index());
            law_failure_is_reported(names, exprs, rhs.index());
        },
        _ => {},
    }
}

} // verus!
