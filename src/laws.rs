use vstd::prelude::*;

use crate::ast::Expression;
use crate::pattern::{regex_captures, regex_is_match};
use crate::semantics::{
    arg, capture_list, eval_value, name_of, output_name, preg_match_spec, string_of,
    strip_delimiters, val_keys, Fault, Vars,
};
use crate::value::{int_val, Val};

verus! {

/// The regular expression that a pattern-match call compiles.
pub open spec fn call_source(vars: Vars, args: Seq<Expression>) -> Seq<char> {
    strip_delimiters(string_of(vars, arg(args, 0))->Ok_0)
}

/// The text that a pattern-match call searches.
pub open spec fn call_text(vars: Vars, args: Seq<Expression>) -> Seq<char> {
    string_of(vars, arg(args, 1))->Ok_0
}

/// A pattern match with two arguments answers whether the pattern matches
/// anywhere in the text, and changes no binding.
pub proof fn two_argument_match(vars: Vars, args: Seq<Expression>)
    requires
        args.len() == 2,
        preg_match_spec(vars, args) is Ok,
    ensures
        preg_match_spec(vars, args)->Ok_0.0 == regex_is_match(call_source(vars, args), call_text(vars, args)),
        preg_match_spec(vars, args)->Ok_0.1 == vars,
{
}

/// A pattern match that finds no match leaves every binding as it was,
/// the output variable's included (bound or not).
pub proof fn failed_match_keeps_bindings(vars: Vars, args: Seq<Expression>)
    requires
        preg_match_spec(vars, args) is Ok,
        !preg_match_spec(vars, args)->Ok_0.0,
    ensures
        preg_match_spec(vars, args)->Ok_0.1 == vars,
        !regex_is_match(call_source(vars, args), call_text(vars, args)),
{
}

/// A pattern match that matches binds its output variable to this call's
/// capture list, whatever was bound there before; so of two such calls
/// with one output variable, the second call's list is what remains.
pub proof fn capture_binding_overwrites(vars: Vars, first: Seq<Expression>, second: Seq<Expression>)
    requires
        output_name(first) is Some,
        output_name(second) == output_name(first),
        preg_match_spec(vars, first) matches Ok((true, _)),
        preg_match_spec(preg_match_spec(vars, first)->Ok_0.1, second) matches Ok((true, _)),
    ensures
        ({
            let n = output_name(first)->0;
            let after_first = preg_match_spec(vars, first)->Ok_0.1;
            let after_second = preg_match_spec(after_first, second)->Ok_0.1;
            &&& after_first == vars.insert(n, capture_list(regex_captures(call_source(vars, first), call_text(vars, first))->0))
            &&& after_second == after_first.insert(n, capture_list(
                regex_captures(call_source(after_first, second), call_text(after_first, second))->0,
            ))
            &&& after_second[n] == capture_list(
                regex_captures(call_source(after_first, second), call_text(after_first, second))->0,
            )
        }),
{
}

/// Reading a numbered array at a non-negative index never fails: the element
/// where the index is in range, `Null` past the end.
pub proof fn array_index_total(vars: Vars, e: Expression, elements: Seq<Val>)
    requires
        e matches Expression::ArrayIndex { array, index: Some(ix) } && name_of(*array) is Ok
            && vars.dom().contains(name_of(*array)->Ok_0) && vars[name_of(*array)->Ok_0] == Val::List(elements)
            && eval_value(vars, *ix) is Ok && int_val(eval_value(vars, *ix)->Ok_0) >= 0,
    ensures
        ({
            let i = int_val(eval_value(vars, *(e->index)->0)->Ok_0) as int;
            eval_value(vars, e) == Ok::<Val, Fault>(if i < elements.len() {
                elements[i]
            } else {
                Val::Null
            })
        }),
{
}

/// Reading by index a variable bound to anything but a numbered array is
/// a type error.
pub proof fn array_index_on_non_array(vars: Vars, e: Expression)
    requires
        e matches Expression::ArrayIndex { array, index: Some(ix) } && name_of(*array) is Ok
            && vars.dom().contains(name_of(*array)->Ok_0) && !(vars[name_of(*array)->Ok_0] is List)
            && eval_value(vars, *ix) is Ok,
    ensures
        eval_value(vars, e) matches Err(Fault::WrongVariableType(_)),
{
}

/// Reading a property: of an unbound variable is `NoSuchVariable`, of a
/// bound value that is no object is `WrongVariableType`, of an object without
/// that key is `NoSuchProperty`.
pub proof fn property_fetch_errors(vars: Vars, e: Expression)
    requires
        e matches Expression::PropertyFetch { target, property } && name_of(*target) is Ok
            && name_of(*property) is Ok,
    ensures
        ({
            let var = name_of(*e->PropertyFetch_target)->Ok_0;
            let prop = name_of(*e->PropertyFetch_property)->Ok_0;
            &&& !vars.dom().contains(var) ==> string_of(vars, Some(e)) == Err::<Seq<char>, Fault>(
                Fault::NoSuchVariable(var),
            )
            &&& vars.dom().contains(var) && !(vars[var] is Obj) ==> string_of(vars, Some(e)) == Err::<
                Seq<char>,
                Fault,
            >(Fault::WrongVariableType(var))
            &&& (vars.dom().contains(var) && vars[var] is Obj && !val_keys(vars[var]->Obj_0).contains(prop))
                ==> string_of(vars, Some(e)) == Err::<Seq<char>, Fault>(
                Fault::NoSuchProperty(prop),
            )
        }),
{
    let var = name_of(*e->PropertyFetch_target)->Ok_0;
    let prop = name_of(*e->PropertyFetch_property)->Ok_0;
    if vars.dom().contains(var) {
        if let Val::Obj(es) = vars[var] {
            if !val_keys(es).contains(prop) {
                lemma_find_key_absent(val_keys(es), prop, 0);
            }
        }
    }
}

proof fn lemma_find_key_absent(keys: Seq<Seq<char>>, name: Seq<char>, from: int)
    requires
        !keys.contains(name),
    ensures
        crate::env::find_key(keys, name, from) is None,
    decreases keys.len() - from,
{
    if 0 <= from < keys.len() {
        assert(keys[from] != name);
        lemma_find_key_absent(keys, name, from + 1);
    }
}

} // verus!
