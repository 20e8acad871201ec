use vstd::prelude::*;

use crate::ast::{Expression, InfixOp, Statement};
use crate::env::find_key;
use crate::pattern::{regex_captures, regex_compiles, regex_is_match};
use crate::value::{debug_text, int_val, text_val, Val};

verus! {

/// What can go wrong while a fragment is looked up or run.
pub enum Fault {
    NoSuchCodeFragment(usize),
    NotImplemented,
    NoSuchArg,
    RegexError(Seq<char>),
    NoSuchVariable(Seq<char>),
    NoSuchProperty(Seq<char>),
    WrongVariableType(Seq<char>),
    NoArrayIndex,
}

/// The bindings of a run, by variable name.
pub type Vars = Map<Seq<char>, Val>;

pub open spec fn digit_char(d: int) -> char {
    if d == 0 {
        '0'
    } else if d == 1 {
        '1'
    } else if d == 2 {
        '2'
    } else if d == 3 {
        '3'
    } else if d == 4 {
        '4'
    } else if d == 5 {
        '5'
    } else if d == 6 {
        '6'
    } else if d == 7 {
        '7'
    } else if d == 8 {
        '8'
    } else {
        '9'
    }
}

/// The decimal digits of a natural number, without leading zeros.
pub open spec fn nat_text(n: nat) -> Seq<char>
    decreases n,
{
    if n < 10 {
        seq![digit_char(n as int)]
    } else {
        nat_text(n / 10).push(digit_char((n % 10) as int))
    }
}

/// The decimal rendering of an integer, with a leading `-` when negative.
pub open spec fn decimal_text(i: int) -> Seq<char> {
    if i < 0 {
        seq!['-'] + nat_text((-i) as nat)
    } else {
        nat_text(i as nat)
    }
}

/// The name of the builtin pattern match.
pub open spec fn preg_match_name() -> Seq<char> {
    seq!['p', 'r', 'e', 'g', '_', 'm', 'a', 't', 'c', 'h']
}

/// The keys of an object's or array's entries, in order.
pub open spec fn val_keys(es: Seq<(Seq<char>, Val)>) -> Seq<Seq<char>> {
    es.map_values(|e: (Seq<char>, Val)| e.0)
}

/// A variable or identifier read as a bare name.
pub open spec fn name_of(e: Expression) -> Result<Seq<char>, Fault> {
    match e {
        Expression::Variable { name } => Ok(name@),
        Expression::Identifier { name } => Ok(name@),
        _ => Err(Fault::NotImplemented),
    }
}

/// The text of property `prop` of the object bound to `var`.
pub open spec fn property_text(vars: Vars, var: Seq<char>, prop: Seq<char>) -> Result<Seq<char>, Fault> {
    if !vars.dom().contains(var) {
        Err(Fault::NoSuchVariable(var))
    } else {
        match vars[var] {
            Val::Obj(es) => match find_key(val_keys(es), prop, 0) {
                Some(i) => Ok(text_val(es[i].1)),
                None => Err(Fault::NoSuchProperty(prop)),
            },
            _ => Err(Fault::WrongVariableType(var)),
        }
    }
}

/// An expression evaluated as a string; `None` stands for a missing argument.
pub open spec fn string_of(vars: Vars, e: Option<Expression>) -> Result<Seq<char>, Fault> {
    match e {
        None => Err(Fault::NoSuchArg),
        Some(e) => match e {
            Expression::ConstantString { value } => Ok(value@),
            Expression::Int { i } => Ok(decimal_text(i as int)),
            Expression::Float { text } => Ok(text@),
            Expression::PropertyFetch { target, property } => match name_of(*target) {
                Err(f) => Err(f),
                Ok(var) => match name_of(*property) {
                    Err(f) => Err(f),
                    Ok(prop) => property_text(vars, var, prop),
                },
            },
            _ => Err(Fault::NotImplemented),
        },
    }
}

/// Element `idx` of the array bound to `var`: `Null` where the name is
/// unbound or the index is out of range.
pub open spec fn element_at(vars: Vars, var: Seq<char>, idx: int) -> Result<Val, Fault> {
    if !vars.dom().contains(var) {
        Ok(Val::Null)
    } else {
        match vars[var] {
            Val::List(xs) => if 0 <= idx < xs.len() {
                Ok(xs[idx])
            } else {
                Ok(Val::Null)
            },
            other => Err(Fault::WrongVariableType(debug_text(other))),
        }
    }
}

/// An expression evaluated as a value.
pub open spec fn eval_value(vars: Vars, e: Expression) -> Result<Val, Fault>
    decreases e,
{
    match e {
        Expression::Int { i } => Ok(Val::Int(i)),
        Expression::ConstantString { value } => Ok(Val::Str(value@)),
        Expression::Bool { value } => Ok(Val::Bool(value)),
        Expression::Variable { name } => if vars.dom().contains(name@) {
            Ok(vars[name@])
        } else {
            Ok(Val::Null)
        },
        Expression::ArrayIndex { array, index } => match name_of(*array) {
            Err(f) => Err(f),
            Ok(var) => match index {
                None => Err(Fault::NoArrayIndex),
                Some(ix) => match eval_value(vars, *ix) {
                    Err(f) => Err(f),
                    Ok(iv) => element_at(vars, var, int_val(iv) as int),
                },
            },
        },
        _ => Err(Fault::NotImplemented),
    }
}

/// Whether an expression counts as true in a condition.
pub open spec fn truthy(e: Expression) -> bool {
    match e {
        Expression::Bool { value } => value,
        Expression::Int { i } => i != 0,
        Expression::Float { text } => text@ != seq!['0'] && text@ != seq!['-', '0'],
        Expression::ConstantString { value } => value@.len() > 0,
        Expression::Array { items } => items@.len() > 0,
        _ => false,
    }
}

/// A pattern with its first and last characters, the delimiters, removed.
pub open spec fn strip_delimiters(p: Seq<char>) -> Seq<char> {
    p.subrange(1, p.len() - 1)
}

/// The list that a successful match binds: the whole match, then each
/// group, an empty string for a group that took no part.
pub open spec fn capture_list(groups: Seq<Option<Seq<char>>>) -> Val {
    Val::List(groups.map_values(|g: Option<Seq<char>>| Val::Str(match g {
        Some(s) => s,
        None => Seq::empty(),
    })))
}

/// The variable named by the third argument of a pattern match, if any.
pub open spec fn output_name(args: Seq<Expression>) -> Option<Seq<char>> {
    if args.len() > 2 {
        match args[2] {
            Expression::Variable { name } => Some(name@),
            _ => None,
        }
    } else {
        None
    }
}

/// Argument `i` of a call, if there is one.
pub open spec fn arg(args: Seq<Expression>, i: int) -> Option<Expression> {
    if 0 <= i < args.len() {
        Some(args[i])
    } else {
        None
    }
}

/// The pattern-match builtin: whether it matched, and the bindings after it.
pub open spec fn preg_match_spec(vars: Vars, args: Seq<Expression>) -> Result<(bool, Vars), Fault> {
    match string_of(vars, arg(args, 0)) {
        Err(f) => Err(f),
        Ok(pattern) => if pattern.len() < 2 {
            Err(Fault::RegexError(pattern))
        } else if !regex_compiles(strip_delimiters(pattern)) {
            Err(Fault::RegexError(strip_delimiters(pattern)))
        } else {
            let source = strip_delimiters(pattern);
            match string_of(vars, arg(args, 1)) {
                Err(f) => Err(f),
                Ok(text) => if args.len() == 2 {
                    Ok((regex_is_match(source, text), vars))
                } else if !regex_is_match(source, text) {
                    Ok((false, vars))
                } else {
                    match output_name(args) {
                        Some(n) => Ok((true, vars.insert(n, capture_list(regex_captures(source, text)->0)))),
                        None => Ok((true, vars)),
                    }
                },
            }
        },
    }
}

/// A guard: a call of a known builtin, and the bindings after it.
pub open spec fn condition_spec(vars: Vars, e: Expression) -> Result<(bool, Vars), Fault> {
    match e {
        Expression::Call { target, args } => match *target {
            Expression::Identifier { name } => if name@ == preg_match_name() {
                preg_match_spec(vars, args@)
            } else {
                Err(Fault::NotImplemented)
            },
            _ => Err(Fault::NotImplemented),
        },
        _ => Err(Fault::NotImplemented),
    }
}

/// The number of `elseif` arms of a statement.
pub open spec fn arm_count(s: Statement) -> int {
    match s {
        Statement::If { else_ifs, .. } => else_ifs@.len() as int,
        _ => 0,
    }
}

/// The statements of a block from index `i` on, run in order; the first
/// failure ends the run.
pub open spec fn exec_block(vars: Vars, stmts: Seq<Statement>, i: int) -> Result<Vars, Fault>
    decreases stmts, stmts.len() - i,
{
    if i < 0 || i >= stmts.len() {
        Ok(vars)
    } else {
        match exec_statement(vars, stmts[i]) {
            Err(f) => Err(f),
            Ok(next) => exec_block(next, stmts, i + 1),
        }
    }
}

/// One statement.
pub open spec fn exec_statement(vars: Vars, s: Statement) -> Result<Vars, Fault>
    decreases s, arm_count(s) + 1,
{
    match s {
        Statement::If { condition, body, .. } => match condition_spec(vars, condition) {
            Err(f) => Err(f),
            Ok((c, next)) => if c {
                exec_block(next, body@, 0)
            } else {
                exec_else(next, s, 0)
            },
        },
        Statement::Expression { expr } => match expr {
            Expression::Infix { lhs, op, rhs } => match op {
                InfixOp::Assign => match eval_value(vars, *rhs) {
                    Err(f) => Err(f),
                    Ok(v) => match name_of(*lhs) {
                        Err(f) => Err(f),
                        Ok(n) => Ok(vars.insert(n, v)),
                    },
                },
                InfixOp::Other => Err(Fault::NotImplemented),
            },
            _ => Err(Fault::NotImplemented),
        },
        Statement::Unsupported => Err(Fault::NotImplemented),
    }
}

/// The `elseif` arms of a conditional from arm `k` on, then its `else`.
pub open spec fn exec_else(vars: Vars, s: Statement, k: int) -> Result<Vars, Fault>
    decreases s, arm_count(s) - k,
{
    match s {
        Statement::If { else_ifs, otherwise, .. } => if k < 0 || k >= else_ifs@.len() {
            match otherwise {
                Some(b) => exec_block(vars, b@, 0),
                None => Ok(vars),
            }
        } else {
            match condition_spec(vars, else_ifs@[k].condition) {
                Err(f) => Err(f),
                Ok((c, next)) => if c {
                    exec_block(next, else_ifs@[k].body@, 0)
                } else {
                    exec_else(next, s, k + 1)
                },
            }
        },
        _ => Ok(vars),
    }
}

} // verus!
