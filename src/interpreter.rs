use vstd::prelude::*;

use crate::ast::{Expression, InfixOp, Statement};
use crate::env::{keys_of, position_of, Env};
use crate::pattern::{captures, compile, group_texts, is_match, regex_compiles, Pattern};
use crate::semantics::{
    capture_list, condition_spec, decimal_text, eval_value, exec_block, exec_else, exec_statement,
    name_of, preg_match_name, preg_match_spec, string_of, strip_delimiters, truthy, val_keys, Fault,
    Vars,
};
use crate::value::{entries_val, value_of, PhpVariable, Val};

verus! {

/// An error of looking up or running a fragment.
#[derive(Debug)]
pub enum PhpError {
    NoSuchCodeFragment(usize),
    NotImplemented,
    NoSuchArg,
    RegexError(String),
    NoSuchVariable(String),
    NoSuchProperty(String),
    WrongVariableType(String),
    NoArrayIndex,
}

impl View for PhpError {
    type V = Fault;

    open spec fn view(&self) -> Fault {
        match self {
            PhpError::NoSuchCodeFragment(id) => Fault::NoSuchCodeFragment(*id),
            PhpError::NotImplemented => Fault::NotImplemented,
            PhpError::NoSuchArg => Fault::NoSuchArg,
            PhpError::RegexError(s) => Fault::RegexError(s@),
            PhpError::NoSuchVariable(s) => Fault::NoSuchVariable(s@),
            PhpError::NoSuchProperty(s) => Fault::NoSuchProperty(s@),
            PhpError::WrongVariableType(s) => Fault::WrongVariableType(s@),
            PhpError::NoArrayIndex => Fault::NoArrayIndex,
        }
    }
}

/// A text result as a mathematical value.
pub open spec fn text_result(r: Result<String, PhpError>) -> Result<Seq<char>, Fault> {
    match r {
        Ok(s) => Ok(s@),
        Err(e) => Err(e@),
    }
}

/// A value result as a mathematical value.
pub open spec fn value_result(r: Result<PhpVariable, PhpError>) -> Result<Val, Fault> {
    match r {
        Ok(v) => Ok(value_of(v)),
        Err(e) => Err(e@),
    }
}

/// A builtin's result together with the bindings after it.
pub open spec fn call_result(r: Result<Expression, PhpError>, vars: Vars) -> Result<(bool, Vars), Fault> {
    match r {
        Ok(Expression::Bool { value }) => Ok((value, vars)),
        Ok(_) => Err(Fault::NotImplemented),
        Err(e) => Err(e@),
    }
}

/// A guard's result together with the bindings after it.
pub open spec fn guard_result(r: Result<bool, PhpError>, vars: Vars) -> Result<(bool, Vars), Fault> {
    match r {
        Ok(b) => Ok((b, vars)),
        Err(e) => Err(e@),
    }
}

/// A run's result together with the bindings after it.
pub open spec fn run_result(r: Result<(), PhpError>, vars: Vars) -> Result<Vars, Fault> {
    match r {
        Ok(()) => Ok(vars),
        Err(e) => Err(e@),
    }
}

/// An optional borrowed expression as an optional expression.
pub open spec fn deref_opt(e: Option<&Expression>) -> Option<Expression> {
    match e {
        Some(x) => Some(*x),
        None => None,
    }
}

/// The opening tag put before a stored fragment's text, with its newline.
pub open spec fn open_tag() -> Seq<char> {
    seq!['<', '?', 'p', 'h', 'p', '\n']
}

/// Relies on the standard `Display` of `i64`: optional minus sign, then the
/// decimal digits without leading zeros.
#[verifier::external_body]
fn int_text(i: i64) -> (r: String)
    ensures
        r@ == decimal_text(i as int),
{
    i.to_string()
}

/// The framed source of a stored fragment, from the rows that the store
/// returned for its identifier.
pub fn fragment_source(code_fragment_id: usize, rows: &Vec<String>) -> (r: Result<String, PhpError>)
    ensures
        text_result(r) == (if rows@.len() == 0 {
            Err(Fault::NoSuchCodeFragment(code_fragment_id))
        } else {
            Ok(open_tag() + rows@[0]@)
        }),
{
    if rows.len() == 0 {
        return Err(PhpError::NoSuchCodeFragment(code_fragment_id));
    }
    proof {
        reveal_strlit("<?php\n");
    }
    let framed = String::from_str("<?php\n").concat(rows[0].as_str());
    assert(framed@ =~= open_tag() + rows@[0]@);
    Ok(framed)
}

/// The list bound by a successful pattern match.
fn capture_array(groups: &Vec<Option<String>>) -> (r: PhpVariable)
    ensures
        value_of(r) == capture_list(group_texts(groups@)),
{
    let mut out: Vec<Box<PhpVariable>> = Vec::new();
    let mut i: usize = 0;
    while i < groups.len()
        invariant
            i <= groups@.len(),
            out@.len() == i,
            forall|j: int| 0 <= j < i ==> value_of(*#[trigger] out@[j]) == Val::Str(match groups@[j] {
                Some(s) => s@,
                None => Seq::<char>::empty(),
            }),
        decreases groups@.len() - i,
    {
        let text = match &groups[i] {
            Some(s) => s.clone(),
            None => String::new(),
        };
        out.push(Box::new(PhpVariable::String { value: text }));
        i = i + 1;
    }
    let ghost ov = out@;
    let r = PhpVariable::NumberedArray { elements: out };
    proof {
        let gt = group_texts(groups@);
        assert(crate::value::list_val(ov) =~= gt.map_values(|g: Option<Seq<char>>| Val::Str(match g {
            Some(s) => s,
            None => Seq::empty(),
        })));
    }
    r
}

/// A fragment ready to run, with its bindings.
pub struct PhpFragment {
    pub ast: Vec<Statement>,
    pub vars: Env,
}

impl PhpFragment {
    /// A fragment with the given statements and no bindings.
    pub fn new(ast: Vec<Statement>) -> (r: PhpFragment)
        ensures
            r.ast@ == ast@,
            r.vars@ == Map::<Seq<char>, Val>::empty(),
    {
        PhpFragment { ast, vars: Env::new() }
    }

    fn expression_as_variable(&self, expression: &Expression) -> (r: Result<String, PhpError>)
        ensures
            text_result(r) == name_of(*expression),
    {
        match expression {
            Expression::Variable { name } => Ok(name.clone()),
            Expression::Identifier { name } => Ok(name.clone()),
            _ => Err(PhpError::NotImplemented),
        }
    }

    fn expression_as_string(&self, expression: Option<&Expression>) -> (r: Result<String, PhpError>)
        ensures
            text_result(r) == string_of(self.vars@, deref_opt(expression)),
    {
        let expression = match expression {
            Some(e) => e,
            None => return Err(PhpError::NoSuchArg),
        };
        match expression {
            Expression::ConstantString { value } => Ok(value.clone()),
            Expression::Int { i } => Ok(int_text(*i)),
            Expression::Float { text } => Ok(text.clone()),
            Expression::PropertyFetch { target, property } => {
                let var_name = match self.expression_as_variable(target) {
                    Ok(n) => n,
                    Err(e) => return Err(e),
                };
                let property = match self.expression_as_variable(property) {
                    Ok(n) => n,
                    Err(e) => return Err(e),
                };
                let variable = match self.vars.get(&var_name) {
                    Some(v) => v,
                    None => return Err(PhpError::NoSuchVariable(var_name)),
                };
                match variable {
                    PhpVariable::Object { elements } => {
                        proof {
                            assert(val_keys(entries_val(elements@)) =~= keys_of(elements@));
                        }
                        match position_of(elements, &property) {
                            Some(i) => Ok(elements[i].1.to_string()),
                            None => Err(PhpError::NoSuchProperty(property)),
                        }
                    },
                    _ => Err(PhpError::WrongVariableType(var_name)),
                }
            },
            _ => Err(PhpError::NotImplemented),
        }
    }

    /// Compiles a delimited pattern: its first and last characters are
    /// dropped, the rest is the regular expression.
    fn string2regex(&self, s: &String) -> (r: Result<Pattern, PhpError>)
        ensures
            match r {
                Ok(p) => s@.len() >= 2 && regex_compiles(strip_delimiters(s@)) && p@ == strip_delimiters(s@),
                Err(e) => if s@.len() < 2 {
                    e@ == Fault::RegexError(s@)
                } else {
                    !regex_compiles(strip_delimiters(s@)) && e@ == Fault::RegexError(strip_delimiters(s@))
                },
            },
    {
        let n = s.as_str().unicode_len();
        if n < 2 {
            return Err(PhpError::RegexError(s.clone()));
        }
        let source = String::from_str(s.as_str().substring_char(1, n - 1));
        match compile(&source) {
            Some(p) => Ok(p),
            None => Err(PhpError::RegexError(source)),
        }
    }

    fn preg_match(&mut self, args: &Vec<Expression>) -> (r: Result<Expression, PhpError>)
        ensures
            call_result(r, final(self).vars@) == preg_match_spec(old(self).vars@, args@),
            r matches Ok(x) ==> x is Bool,
    {
        let first = if args.len() > 0 {
            Some(&args[0])
        } else {
            None
        };
        let pattern = match self.expression_as_string(first) {
            Ok(p) => p,
            Err(e) => return Err(e),
        };
        let regex = match self.string2regex(&pattern) {
            Ok(re) => re,
            Err(e) => return Err(e),
        };
        let second = if args.len() > 1 {
            Some(&args[1])
        } else {
            None
        };
        let text = match self.expression_as_string(second) {
            Ok(t) => t,
            Err(e) => return Err(e),
        };
        if args.len() == 2 {
            return Ok(Expression::Bool { value: is_match(&regex, &text) });
        }
        let output_var_name = if args.len() > 2 {
            match &args[2] {
                Expression::Variable { name } => Some(name.clone()),
                _ => None,
            }
        } else {
            None
        };
        let groups = match captures(&regex, &text) {
            Some(g) => g,
            None => return Ok(Expression::Bool { value: false }),
        };
        if let Some(output_var_name) = output_var_name {
            let values = capture_array(&groups);
            self.vars.set(output_var_name, values);
        }
        Ok(Expression::Bool { value: true })
    }

    fn method(&mut self, method: &String, args: &Vec<Expression>) -> (r: Result<Expression, PhpError>)
        ensures
            call_result(r, final(self).vars@) == (if method@ == preg_match_name() {
                preg_match_spec(old(self).vars@, args@)
            } else {
                Err(Fault::NotImplemented)
            }),
            r matches Ok(x) ==> x is Bool,
    {
        proof {
            reveal_strlit("preg_match");
        }
        let known = String::from_str("preg_match");
        assert(known@ =~= preg_match_name());
        if *method == known {
            self.preg_match(args)
        } else {
            Err(PhpError::NotImplemented)
        }
    }

    fn expression_as_bool(&self, expression: &Expression) -> (r: bool)
        ensures
            r == truthy(*expression),
    {
        proof {
            reveal_strlit("0");
            reveal_strlit("-0");
        }
        match expression {
            Expression::Bool { value } => *value,
            Expression::Int { i } => *i != 0,
            Expression::Float { text } => {
                let zero = String::from_str("0");
                let negative_zero = String::from_str("-0");
                assert(zero@ =~= seq!['0']);
                assert(negative_zero@ =~= seq!['-', '0']);
                !(*text == zero) && !(*text == negative_zero)
            },
            Expression::ConstantString { value } => value.as_str().unicode_len() > 0,
            Expression::Array { items } => items.len() > 0,
            _ => false,
        }
    }

    fn check_condition(&mut self, expression: &Expression) -> (r: Result<bool, PhpError>)
        ensures
            guard_result(r, final(self).vars@) == condition_spec(old(self).vars@, *expression),
    {
        match expression {
            Expression::Call { target, args } => {
                match &**target {
                    Expression::Identifier { name } => {
                        let result = match self.method(name, args) {
                            Ok(x) => x,
                            Err(e) => return Err(e),
                        };
                        Ok(self.expression_as_bool(&result))
                    },
                    _ => Err(PhpError::NotImplemented),
                }
            },
            _ => Err(PhpError::NotImplemented),
        }
    }

    fn calculate_expression_as_variable(&self, expression: &Expression) -> (r: Result<PhpVariable, PhpError>)
        ensures
            value_result(r) == eval_value(self.vars@, *expression),
        decreases expression,
    {
        match expression {
            Expression::Int { i } => Ok(PhpVariable::Integer { value: *i }),
            Expression::ConstantString { value } => Ok(PhpVariable::String { value: value.clone() }),
            Expression::Bool { value } => Ok(PhpVariable::Bool { value: *value }),
            Expression::Variable { name } => match self.vars.get(name) {
                Some(v) => Ok(v.duplicate()),
                None => Ok(PhpVariable::Null),
            },
            Expression::ArrayIndex { array, index } => {
                let var_name = match self.expression_as_variable(array) {
                    Ok(n) => n,
                    Err(e) => return Err(e),
                };
                let index = match index {
                    Some(index) => index,
                    None => return Err(PhpError::NoArrayIndex),
                };
                let index = match self.calculate_expression_as_variable(index) {
                    Ok(v) => v,
                    Err(e) => return Err(e),
                };
                let index = index.to_i64();
                match self.vars.get(&var_name) {
                    Some(v) => match v {
                        PhpVariable::NumberedArray { elements } => {
                            if index < 0 || index as u64 >= elements.len() as u64 {
                                Ok(PhpVariable::Null)
                            } else {
                                Ok(elements[index as usize].duplicate())
                            }
                        },
                        other => Err(PhpError::WrongVariableType(other.debug_string())),
                    },
                    None => Ok(PhpVariable::Null),
                }
            },
            _ => Err(PhpError::NotImplemented),
        }
    }

    /// Runs one statement.
    #[verifier::loop_isolation(false)]
    fn run_statement(&mut self, statement: &Statement) -> (r: Result<(), PhpError>)
        ensures
            run_result(r, final(self).vars@) == exec_statement(old(self).vars@, *statement),
        decreases statement, 1int,
    {
        match statement {
            Statement::If { condition, body, else_ifs, otherwise } => {
                let c = match self.check_condition(condition) {
                    Ok(c) => c,
                    Err(e) => return Err(e),
                };
                if c {
                    return self.run(body);
                }
                let mut k: usize = 0;
                while k < else_ifs.len()
                    invariant
                        k <= else_ifs@.len(),
                        exec_statement(old(self).vars@, *statement) == exec_else(self.vars@, *statement, k as int),
                    decreases else_ifs@.len() - k,
                {
                    let c = match self.check_condition(&else_ifs[k].condition) {
                        Ok(c) => c,
                        Err(e) => return Err(e),
                    };
                    if c {
                        return self.run(&else_ifs[k].body);
                    }
                    k = k + 1;
                }
                match otherwise {
                    Some(b) => self.run(b),
                    None => Ok(()),
                }
            },
            Statement::Expression { expr } => match expr {
                Expression::Infix { lhs, op, rhs } => match op {
                    InfixOp::Assign => {
                        let value = match self.calculate_expression_as_variable(rhs) {
                            Ok(v) => v,
                            Err(e) => return Err(e),
                        };
                        let name = match self.expression_as_variable(lhs) {
                            Ok(n) => n,
                            Err(e) => return Err(e),
                        };
                        self.vars.set(name, value);
                        Ok(())
                    },
                    InfixOp::Other => Err(PhpError::NotImplemented),
                },
                _ => Err(PhpError::NotImplemented),
            },
            Statement::Unsupported => Err(PhpError::NotImplemented),
        }
    }

    /// Runs a block of statements in order; the first failure ends the run.
    pub fn run(&mut self, ast: &Vec<Statement>) -> (r: Result<(), PhpError>)
        ensures
            run_result(r, final(self).vars@) == exec_block(old(self).vars@, ast@, 0),
        decreases ast@, 0int,
    {
        let mut i: usize = 0;
        while i < ast.len()
            invariant
                i <= ast@.len(),
                exec_block(old(self).vars@, ast@, 0) == exec_block(self.vars@, ast@, i as int),
            decreases ast@.len() - i,
        {
            match self.run_statement(&ast[i]) {
                Ok(()) => {},
                Err(e) => return Err(e),
            }
            i = i + 1;
        }
        Ok(())
    }

    /// Runs the fragment's own statements against its bindings.
    pub fn execute(&mut self) -> (r: Result<(), PhpError>)
        ensures
            run_result(r, final(self).vars@) == exec_block(old(self).vars@, old(self).ast@, 0),
            final(self).ast == old(self).ast,
    {
        let mut ast: Vec<Statement> = Vec::new();
        std::mem::swap(&mut ast, &mut self.ast);
        let r = self.run(&ast);
        std::mem::swap(&mut ast, &mut self.ast);
        r
    }
}

} // verus!
