//! Operators: their characters, precedence, associativity and arity, and
//! the table that finds them by their characters.

use vstd::prelude::*;
use vstd::string::*;

use crate::ast::Expr;
use crate::pos::Source;
use crate::types::form::TypeForm;
use crate::types::Type;

verus! {

/// How operators of equal precedence group.
#[derive(Clone, Copy, PartialEq, Eq, Structural, Debug)]
pub enum Assoc {
    /// `a op b op c` is `(a op b) op c`.
    Left,
    /// `a op b op c` is `a op (b op c)`.
    Right,
}

/// How many operands an operator takes.
#[derive(Clone, Copy, PartialEq, Eq, Structural, Debug)]
pub enum Arity {
    /// One operand.
    Unary,
    /// Two operands.
    Binary,
}

/// Where an operator stands relative to its operands.
#[derive(Clone, Copy, PartialEq, Eq, Structural, Debug)]
pub enum Fixity {
    /// Before its operand.
    Prefix,
    /// Between its operands.
    Infix,
    /// After its operand.
    Postfix,
}

/// An operator.
#[derive(Clone, Copy, Debug)]
pub struct Operator {
    /// The characters that write it.
    pub chars: &'static str,
    /// Its precedence level: higher binds tighter.
    pub prec: u8,
    /// Its associativity; a right-associative unary operator is a prefix.
    pub assoc: Assoc,
    /// Its arity.
    pub arity: Arity,
}

impl Operator {
    /// The operator written with `chars`, of the given precedence,
    /// associativity and arity.
    pub fn new(chars: &'static str, prec: u8, assoc: Assoc, arity: Arity) -> (r: Self)
        ensures
            r.chars == chars,
            r.prec == prec,
            r.assoc == assoc,
            r.arity == arity,
    {
        Operator { chars, prec, assoc, arity }
    }
}

/// The operators written with the same characters: at most one prefix, and
/// at most one infix or postfix.
#[derive(Clone, Copy, Debug)]
pub struct OperatorEntry {
    /// The prefix operator.
    pub prefix: Option<Operator>,
    /// The infix or postfix operator.
    pub suffix: Option<Operator>,
}

impl OperatorEntry {
    /// An entry with no operators.
    pub fn new() -> (r: Self)
        ensures
            r.prefix is None,
            r.suffix is None,
    {
        OperatorEntry { prefix: None, suffix: None }
    }
}

/// `entry` with `op` added: a right-associative unary operator is the
/// prefix, any other the infix or postfix.
pub open spec fn entry_with(entry: OperatorEntry, op: Operator) -> OperatorEntry {
    if op.arity == Arity::Unary && op.assoc == Assoc::Right {
        OperatorEntry { prefix: Some(op), ..entry }
    } else {
        OperatorEntry { suffix: Some(op), ..entry }
    }
}

/// Returns whether two texts are the same.
pub fn str_eq(a: &str, b: &str) -> (r: bool)
    ensures
        r == (a@ == b@),
{
    let n = a.unicode_len();
    if n != b.unicode_len() {
        return false;
    }
    let mut i: usize = 0;
    while i < n
        invariant
            n == a@.len() == b@.len(),
            i <= n,
            forall|j: int| 0 <= j < i ==> a@[j] == b@[j],
        decreases n - i,
    {
        if a.get_char(i) != b.get_char(i) {
            return false;
        }
        i = i + 1;
    }
    assert(a@ =~= b@);
    true
}

/// The operators of a language, by the characters that write them.
pub struct OperatorTable {
    entries: Vec<(&'static str, OperatorEntry)>,
}

impl OperatorTable {
    /// The characters of each entry, in order.
    pub closed spec fn keys(&self) -> Seq<Seq<char>> {
        self.entries@.map_values(|e: (&'static str, OperatorEntry)| e.0@)
    }

    /// No characters have two entries.
    pub closed spec fn wf(&self) -> bool {
        forall|i: int, j: int|
            0 <= i < j < self.entries@.len() ==> self.entries@[i].0@ != self.entries@[j].0@
    }

    /// The entry for the given characters, if any.
    pub closed spec fn entry(&self, chars: Seq<char>) -> Option<OperatorEntry> {
        if exists|i: int| 0 <= i < self.entries@.len() && #[trigger] self.entries@[i].0@ == chars {
            let i = choose|i: int| 0 <= i < self.entries@.len() && #[trigger] self.entries@[i].0@ == chars;
            Some(self.entries@[i].1)
        } else {
            None
        }
    }

    proof fn lemma_entry_at(&self, i: int)
        requires
            self.wf(),
            0 <= i < self.entries@.len(),
        ensures
            self.entry(self.entries@[i].0@) == Some(self.entries@[i].1),
    {
        let chars = self.entries@[i].0@;
        assert(exists|k: int| 0 <= k < self.entries@.len() && #[trigger] self.entries@[k].0@ == chars);
        let j = choose|k: int| 0 <= k < self.entries@.len() && #[trigger] self.entries@[k].0@ == chars;
        if j < i {
            assert(self.entries@[j].0@ != self.entries@[i].0@);
        } else if i < j {
            assert(self.entries@[i].0@ != self.entries@[j].0@);
        }
    }

    /// Returns an empty table.
    pub fn new() -> (r: Self)
        ensures
            r.wf(),
            forall|chars: Seq<char>| r.entry(chars) is None,
    {
        OperatorTable { entries: Vec::new() }
    }

    /// Returns the index of the entry for `chars`, if any.
    fn find(&self, chars: &str) -> (r: Option<usize>)
        requires
            self.wf(),
        ensures
            match r {
                Some(i) => i < self.entries@.len() && self.entries@[i as int].0@ == chars@,
                None => forall|i: int|
                    0 <= i < self.entries@.len() ==> self.entries@[i].0@ != chars@,
            },
    {
        let mut i: usize = 0;
        while i < self.entries.len()
            invariant
                i <= self.entries@.len(),
                forall|j: int| 0 <= j < i ==> self.entries@[j].0@ != chars@,
            decreases self.entries@.len() - i,
        {
            if str_eq(self.entries[i].0, chars) {
                return Some(i);
            }
            i = i + 1;
        }
        None
    }

    /// Adds `op` to the entry for its characters, creating the entry if
    /// needed: a right-associative unary operator becomes the prefix, any
    /// other the infix or postfix, replacing the one there.
    pub fn add(&mut self, op: Operator)
        requires
            old(self).wf(),
        ensures
            final(self).wf(),
            final(self).entry(op.chars@) == Some(
                entry_with(
                    match old(self).entry(op.chars@) {
                        Some(e) => e,
                        None => OperatorEntry { prefix: None, suffix: None },
                    },
                    op,
                ),
            ),
            forall|chars: Seq<char>| chars != op.chars@ ==> final(self).entry(chars) == old(self).entry(chars),
    {
        let ghost before = self.entries@;
        let idx = match self.find(op.chars) {
            Some(i) => {
                proof {
                    self.lemma_entry_at(i as int);
                }
                i
            },
            None => {
                self.entries.push((op.chars, OperatorEntry::new()));
                assert(forall|i: int|
                    0 <= i < before.len() ==> #[trigger] self.entries@[i] == before[i]);
                assert(!(exists|k: int| 0 <= k < before.len() && #[trigger] before[k].0@ == op.chars@));
                self.entries.len() - 1
            },
        };
        assert(self.wf());
        let (chars, mut entry) = self.entries[idx];
        match (op.arity, op.assoc) {
            (Arity::Unary, Assoc::Right) => entry.prefix = Some(op),
            _ => entry.suffix = Some(op),
        }
        self.entries.set(idx, (chars, entry));
        assert(self.wf());
        proof {
            self.lemma_entry_at(idx as int);
            assert forall|c: Seq<char>| c != op.chars@ implies self.entry(c) == old(self).entry(c) by {
                if exists|k: int| 0 <= k < before.len() && #[trigger] before[k].0@ == c {
                    let k = choose|k: int| 0 <= k < before.len() && #[trigger] before[k].0@ == c;
                    assert(self.entries@[k] == before[k]);
                    old(self).lemma_entry_at(k);
                    self.lemma_entry_at(k);
                } else {
                    assert forall|k: int| 0 <= k < self.entries@.len() implies #[trigger] self.entries@[k].0@ != c by {
                        if k < before.len() && k != idx as int {
                            assert(self.entries@[k] == before[k]);
                        }
                    }
                }
            }
        }
    }

    /// Returns the entry for `chars`, if any.
    pub fn get(&self, chars: &str) -> (r: Option<&OperatorEntry>)
        requires
            self.wf(),
        ensures
            match r {
                Some(e) => self.entry(chars@) == Some(*e),
                None => self.entry(chars@) is None,
            },
    {
        match self.find(chars) {
            Some(i) => {
                proof {
                    self.lemma_entry_at(i as int);
                }
                Some(&self.entries[i].1)
            },
            None => None,
        }
    }
}

impl OperatorTable {
    /// Returns the prefix operator written with `chars`, if any.
    pub fn get_prefix(&self, chars: &str) -> (r: Option<Operator>)
        requires
            self.wf(),
        ensures
            r == (match self.entry(chars@) {
                Some(e) => e.prefix,
                None => None,
            }),
    {
        match self.get(chars) {
            Some(e) => e.prefix,
            None => None,
        }
    }

    /// Returns the entries of the table, each with its characters: one for
    /// each characters that have an entry.
    pub fn map(&self) -> (r: &Vec<(&'static str, OperatorEntry)>)
        requires
            self.wf(),
        ensures
            forall|i: int| 0 <= i < r@.len() ==> self.entry(#[trigger] r@[i].0@) == Some(r@[i].1),
            forall|i: int, j: int| 0 <= i < j < r@.len() ==> r@[i].0@ != r@[j].0@,
            forall|chars: Seq<char>|
                #[trigger] self.entry(chars) is Some ==> exists|i: int|
                    0 <= i < r@.len() && #[trigger] r@[i].0@ == chars,
    {
        proof {
            assert forall|i: int| 0 <= i < self.entries@.len() implies self.entry(
                #[trigger] self.entries@[i].0@,
            ) == Some(self.entries@[i].1) by {
                self.lemma_entry_at(i);
            }
        }
        &self.entries
    }

    /// Returns the infix or postfix operator written with `chars`, if any:
    /// the operator that does not stand before its operand.
    pub fn get_nonprefix(&self, chars: &str) -> (r: Option<Operator>)
        requires
            self.wf(),
        ensures
            r == (match self.entry(chars@) {
                Some(e) => e.suffix,
                None => None,
            }),
    {
        self.get_suffix(chars)
    }

    /// Returns the infix or postfix operator written with `chars`, if any.
    pub fn get_suffix(&self, chars: &str) -> (r: Option<Operator>)
        requires
            self.wf(),
        ensures
            r == (match self.entry(chars@) {
                Some(e) => e.suffix,
                None => None,
            }),
    {
        match self.get(chars) {
            Some(e) => e.suffix,
            None => None,
        }
    }
}

/// Adding an operator and looking it up again finds it where its kind
/// belongs.
pub proof fn law_add_then_get(before: OperatorTable, after: OperatorTable, op: Operator)
    requires
        before.wf(),
        after.entry(op.chars@) == Some(
            entry_with(
                match before.entry(op.chars@) {
                    Some(e) => e,
                    None => OperatorEntry { prefix: None, suffix: None },
                },
                op,
            ),
        ),
    ensures
        op.arity == Arity::Unary && op.assoc == Assoc::Right ==> after.entry(op.chars@).unwrap().prefix
            == Some(op),
        !(op.arity == Arity::Unary && op.assoc == Assoc::Right) ==> after.entry(
            op.chars@,
        ).unwrap().suffix == Some(op),
{
}

/// Returns the opcode of the first entry of `ops` for the width `ty_width`.
pub fn select_opcode(ty_width: u8, ops: &[(u8, &'static str)]) -> (r: Option<&'static str>)
    ensures
        r == crate::targets::mcf5307::select_spec(ty_width, ops@),
{
    crate::targets::mcf5307::select_op(ty_width, ops)
}

// -----------------------------------------------------------------------------
// Operations of a target

/// A value of a target that may be a constant expression.
pub trait Const: Sized {
    /// The constant expressions.
    type Expr;

    /// Whether the value is a constant expression, as `is_const` answers.
    spec fn constant(&self) -> bool;

    /// The value of a constant expression.
    fn new_const(expr: Self::Expr) -> Self;

    /// Whether the value is a constant expression.
    fn is_const(&self) -> (r: bool)
        ensures
            r == self.constant(),
    ;

    /// The constant expression of the value.
    fn unwrap_const(self) -> Self::Expr;
}

/// An operand of an operation: its value, its type, and where it was
/// written.
#[derive(Clone, Copy, Debug)]
pub struct Operand<'a, T> {
    /// The value.
    pub value: T,
    /// The type.
    pub ttype: &'a Type,
    /// Where it was written.
    pub source: Source,
}

/// The checks by which a target accepts the operands of a binary operation.
pub trait BinaryChecks<T> {
    /// Whether the target has an instruction for the operands' values, as
    /// `check_modes` answers.
    spec fn modes_ok(&self, a: T, b: T) -> bool;

    /// The type the operands' types meet at, as `check_types` answers.
    spec fn types_meet(&self, a: Type, b: Type) -> Option<Type>;

    /// The width of the operation, as `check_forms` answers.
    spec fn form_width(&self, a: TypeForm, b: TypeForm, width: u8) -> Option<u8>;

    /// Whether the target has an instruction for the operands' values.
    fn check_modes(&self, values: [&T; 2]) -> (r: bool)
        ensures
            r == self.modes_ok(*values[0], *values[1]),
    ;

    /// The type the operands' types meet at, if any.
    fn check_types<'a>(&self, types: [&'a Type; 2]) -> (r: Option<&'a Type>)
        ensures
            match r {
                Some(t) => self.types_meet(*types[0], *types[1]) == Some(*t),
                None => self.types_meet(*types[0], *types[1]) is None,
            },
    ;

    /// The width of the operation for the operands' forms, given the
    /// default width, if any.
    fn check_forms(&self, forms: [TypeForm; 2], width: u8) -> (r: Option<u8>)
        ensures
            r == self.form_width(forms[0], forms[1], width),
    ;
}

/// A binary operation of a target.
pub struct TargetBinaryOp<C> {
    /// The width of the operation on unbounded types.
    pub default_width: u8,
    /// The target's checks.
    pub checks: C,
}

/// The result of a binary operation from the answers of the target's
/// checks: a failure if the modes are refused, or the types do not meet, or
/// there is no width; else the first operand's value, with the meeting type
/// and the first operand's source.
pub fn binary_result<'a, T: Copy>(
    operands: &[Operand<'a, T>; 2],
    modes_ok: bool,
    ty: Option<&'a Type>,
    width: Option<u8>,
) -> (r: Result<Operand<'a, T>, ()>)
    ensures
        r is Ok <==> modes_ok && ty is Some && width is Some,
        r matches Ok(o) ==> o.value == operands[0].value && o.ttype == ty.unwrap() && o.source
            == operands[0].source,
{
    if !modes_ok {
        return Err(());
    }
    let ty = match ty {
        Some(ty) => ty,
        None => return Err(()),
    };
    match width {
        Some(_) => {},
        None => return Err(()),
    }
    Ok(Operand { value: operands[0].value, ttype: ty, source: operands[0].source })
}

/// What an operation is carried out in.  It holds nothing yet: operations
/// of a target get their operands and give their result.
#[derive(Clone, Copy, Debug)]
pub struct Context;

/// An implementation of a binary operation, as a dispatcher invokes it.
pub trait BinaryImpl<T>: Sized {
    /// Whether the implementation can be applied to the operands.
    spec fn accepts<'a>(&self, operands: [Operand<'a, T>; 2]) -> bool;

    /// Whether `r` is what the implementation gives for the operands.
    spec fn gives<'a>(&self, operands: [Operand<'a, T>; 2], r: Result<Operand<'a, T>, ()>) -> bool;

    /// Applies the implementation to the operands.
    fn apply<'a>(&self, operands: [Operand<'a, T>; 2], context: Context) -> (r: Result<
        Operand<'a, T>,
        (),
    >)
        requires
            self.accepts(operands),
        ensures
            self.gives(operands, r),
    ;
}

impl<C> TargetBinaryOp<C> {
    /// Whether the operation can be applied: the forms of the operands'
    /// types can be computed wherever the checks of their values and types
    /// pass, which is where the operation asks for them.
    pub open spec fn operands_ok<'a, T>(&self, operands: [Operand<'a, T>; 2]) -> bool
        where C: BinaryChecks<T>
    {
        self.checks.modes_ok(operands[0].value, operands[1].value) && self.checks.types_meet(
            *operands[0].ttype,
            *operands[1].ttype,
        ) is Some ==> operands[0].ttype.form_defined() && operands[1].ttype.form_defined()
    }

    /// Whether `r` is the result of the operation on the operands: it
    /// succeeds exactly where the values pass, the types meet and the forms
    /// give a width; the result is the first operand's value, with the
    /// meeting type and the first operand's source.
    pub open spec fn result_ok<'a, T>(&self, operands: [Operand<'a, T>; 2], r: Result<Operand<'a, T>, ()>) -> bool
        where C: BinaryChecks<T>
    {
        &&& r is Ok <==> {
            &&& self.checks.modes_ok(operands[0].value, operands[1].value)
            &&& self.checks.types_meet(*operands[0].ttype, *operands[1].ttype) is Some
            &&& self.checks.form_width(
                operands[0].ttype.spec_form(),
                operands[1].ttype.spec_form(),
                self.default_width,
            ) is Some
        }
        &&& r matches Ok(o) ==> o.value == operands[0].value && o.source == operands[0].source
            && Some(*o.ttype) == self.checks.types_meet(*operands[0].ttype, *operands[1].ttype)
    }

    /// Applies the operation: checks the operands' values, then their
    /// types, then their forms with the default width; on success the
    /// result is the first operand's value with the meeting type and the
    /// first operand's source.
    pub fn invoke<'a, T: Copy>(&self, operands: [Operand<'a, T>; 2], context: Context) -> (r: Result<
        Operand<'a, T>,
        (),
    >)
        where C: BinaryChecks<T>
        requires
            self.operands_ok(operands),
        ensures
            self.result_ok(operands, r),
    {
        // Mode check
        let ok = self.checks.check_modes([&operands[0].value, &operands[1].value]);
        if !ok {
            return binary_result(&operands, false, None, None);
        }
        // Type check
        let ty = self.checks.check_types([operands[0].ttype, operands[1].ttype]);
        if ty.is_none() {
            return binary_result(&operands, true, None, None);
        }
        // Form check
        let width = self.default_width;
        let width = self.checks.check_forms([operands[0].ttype.form(), operands[1].ttype.form()], width);
        binary_result(&operands, true, ty, width)
    }
}

impl<C: BinaryChecks<T>, T: Copy> BinaryImpl<T> for TargetBinaryOp<C> {
    open spec fn accepts<'a>(&self, operands: [Operand<'a, T>; 2]) -> bool {
        self.operands_ok(operands)
    }

    open spec fn gives<'a>(&self, operands: [Operand<'a, T>; 2], r: Result<Operand<'a, T>, ()>) -> bool {
        self.result_ok(operands, r)
    }

    fn apply<'a>(&self, operands: [Operand<'a, T>; 2], context: Context) -> (r: Result<
        Operand<'a, T>,
        (),
    >) {
        self.invoke(operands, context)
    }
}

/// The implementation that a selector names among `ops`: the first with
/// the selector's characters.
pub open spec fn explicit_spec<I>(ops: Seq<(&'static str, I)>, sel: Seq<char>) -> Option<I>
    decreases ops.len(),
{
    if ops.len() == 0 {
        None
    } else if ops[0].0@ == sel {
        Some(ops[0].1)
    } else {
        explicit_spec(ops.drop_first(), sel)
    }
}

/// The implementations of a binary operator: one for constant operands,
/// one chosen implicitly, and some chosen by a selector.
pub struct BinaryDispatch<I> {
    /// The implementation for constant operands.
    pub const_op: Option<I>,
    /// The implementation when no selector is given.
    pub implicit_op: Option<I>,
    /// The implementations chosen by a selector.
    pub explicit_ops: Vec<(&'static str, I)>,
}

impl<I> BinaryDispatch<I> {
    /// No implementations.
    pub fn new() -> (r: Self)
        ensures
            r.const_op is None,
            r.implicit_op is None,
            r.explicit_ops@.len() == 0,
    {
        BinaryDispatch { const_op: None, implicit_op: None, explicit_ops: Vec::new() }
    }

    /// The implementation chosen: by the selector if there is one, else the
    /// one for constants if all operands are constant, else the implicit
    /// one.
    pub open spec fn select_spec(&self, selector: Option<Seq<char>>, all_const: bool) -> Option<I> {
        match selector {
            Some(s) => explicit_spec(self.explicit_ops@, s),
            None => if all_const {
                self.const_op
            } else {
                self.implicit_op
            },
        }
    }

    /// Returns the implementation chosen (see `select_spec`).
    pub fn select(&self, selector: Option<&str>, all_const: bool) -> (r: Option<&I>)
        ensures
            match self.select_spec(selector_view(selector), all_const) {
                Some(i) => r == Some(&i),
                None => r is None,
            },
    {
        match selector {
            Some(s) => {
                let mut i: usize = 0;
                assert(self.explicit_ops@.skip(0) =~= self.explicit_ops@);
                while i < self.explicit_ops.len()
                    invariant
                        selector == Some(s),
                        i <= self.explicit_ops@.len(),
                        explicit_spec(self.explicit_ops@, s@) == explicit_spec(
                            self.explicit_ops@.skip(i as int),
                            s@,
                        ),
                    decreases self.explicit_ops@.len() - i,
                {
                    assert(self.explicit_ops@.skip(i as int).drop_first() =~= self.explicit_ops@.skip(
                        i + 1,
                    ));
                    assert(self.explicit_ops@.skip(i as int)[0] == self.explicit_ops@[i as int]);
                    if str_eq(self.explicit_ops[i].0, s) {
                        return Some(&self.explicit_ops[i].1);
                    }
                    i = i + 1;
                }
                None
            },
            None => if all_const {
                self.const_op.as_ref()
            } else {
                self.implicit_op.as_ref()
            },
        }
    }

    /// Invokes the implementation chosen for the operands (see
    /// `select_spec`) on the operands and the context, and gives its result.
    /// An operator without such an implementation is not to be invoked.
    pub fn invoke<'a, T: Const>(&self, selector: Option<&str>, operands: [Operand<'a, T>; 2], context: Context) -> (r: Result<
        Operand<'a, T>,
        (),
    >)
        where I: BinaryImpl<T>
        requires
            self.select_spec(selector_view(selector), all_const_spec(operands)) is Some,
            self.select_spec(selector_view(selector), all_const_spec(operands)).unwrap().accepts(
                operands,
            ),
        ensures
            self.select_spec(selector_view(selector), all_const_spec(operands)).unwrap().gives(
                operands,
                r,
            ),
    {
        let all = all_const(&operands);
        match self.select(selector, all) {
            Some(op) => op.apply(operands, context),
            None => vstd::pervasive::unreached(),
        }
    }
}

/// The characters of a selector, if there is one.
pub open spec fn selector_view(selector: Option<&str>) -> Option<Seq<char>> {
    match selector {
        Some(s) => Some(s@),
        None => None,
    }
}

/// Whether every operand's value is a constant.
pub open spec fn all_const_spec<'a, T: Const>(operands: [Operand<'a, T>; 2]) -> bool {
    operands[0].value.constant() && operands[1].value.constant()
}

/// Evaluates an expression as the operator of sums dispatches it: the
/// operands of an operation are evaluated, then the sum's implementation for
/// them is invoked.  Nothing else gives an operand, so evaluation fails.
pub fn stub_eval<'a, T: Const, I: BinaryImpl<T>>(ast: &Expr, add: &BinaryDispatch<I>, context: Context) -> (r: Result<
    Operand<'a, T>,
    (),
>)
    ensures
        r is Err,
    decreases ast,
{
    match ast {
        Expr::Binary(_, lhs, rhs) => {
            let l = match stub_eval(lhs, add, context) {
                Ok(l) => l,
                Err(()) => return Err(()),
            };
            let r = match stub_eval(rhs, add, context) {
                Ok(r) => r,
                Err(()) => return Err(()),
            };
            add.invoke(None, [l, r], context)
        },
        _ => Err(()),
    }
}

/// Whether every operand's value is a constant.
fn all_const<'a, T: Const>(operands: &[Operand<'a, T>; 2]) -> (r: bool)
    ensures
        r == all_const_spec(*operands),
{
    operands[0].value.is_const() && operands[1].value.is_const()
}

} // verus!
