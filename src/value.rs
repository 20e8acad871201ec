use vstd::prelude::*;

verus! {

broadcast use vstd::std_specs::vec::axiom_vec_index_decreases;

/// A runtime value of the scripting language.
///
/// Values are trees: each element is owned by exactly one array or object.
/// A float is held by its IEEE-754 binary64 encoding.
#[allow(inconsistent_fields)]
#[derive(Debug)]
pub enum PhpVariable {
    Null,
    String { value: String },
    NumberedArray { elements: Vec<Box<PhpVariable>> },
    AssociativeArray { elements: Vec<(String, Box<PhpVariable>)> },
    Object { elements: Vec<(String, Box<PhpVariable>)> },
    Integer { value: i64 },
    Float { bits: u64 },
    Bool { value: bool },
}

/// The mathematical form of a value: strings become character sequences,
/// arrays and objects sequences of elements or of key-value pairs.
pub enum Val {
    Null,
    Str(Seq<char>),
    List(Seq<Val>),
    Assoc(Seq<(Seq<char>, Val)>),
    Obj(Seq<(Seq<char>, Val)>),
    Int(i64),
    Float(u64),
    Bool(bool),
}

/// The mathematical form of a keyed list of values.
pub open spec fn entries_val(elements: Seq<(String, Box<PhpVariable>)>) -> Seq<(Seq<char>, Val)>
    decreases elements,
{
    Seq::new(elements.len(), |i: int| if 0 <= i < elements.len() {
        (elements[i].0@, value_of(*elements[i].1))
    } else {
        (Seq::empty(), Val::Null)
    })
}

/// The mathematical form of a list of values.
pub open spec fn list_val(elements: Seq<Box<PhpVariable>>) -> Seq<Val>
    decreases elements,
{
    Seq::new(elements.len(), |i: int| if 0 <= i < elements.len() {
        value_of(*elements[i])
    } else {
        Val::Null
    })
}

/// The mathematical form of a value.
pub open spec fn value_of(v: PhpVariable) -> Val
    decreases v,
{
    match v {
        PhpVariable::Null => Val::Null,
        PhpVariable::String { value } => Val::Str(value@),
        PhpVariable::Integer { value } => Val::Int(value),
        PhpVariable::Float { bits } => Val::Float(bits),
        PhpVariable::Bool { value } => Val::Bool(value),
        PhpVariable::NumberedArray { elements } => Val::List(list_val(elements@)),
        PhpVariable::AssociativeArray { elements } => Val::Assoc(entries_val(elements@)),
        PhpVariable::Object { elements } => Val::Obj(entries_val(elements@)),
    }
}

/// The diagnostic rendering of a value (its `Debug` form).
pub uninterp spec fn debug_text(v: Val) -> Seq<char>;

/// The canonical text of a boolean.
pub open spec fn bool_text(b: bool) -> Seq<char> {
    if b {
        seq!['t', 'r', 'u', 'e']
    } else {
        seq!['f', 'a', 'l', 's', 'e']
    }
}

/// The text of a value: a string's contents, a boolean's canonical form,
/// and a diagnostic rendering of anything else.
pub open spec fn text_val(v: Val) -> Seq<char> {
    match v {
        Val::Str(s) => s,
        Val::Bool(b) => bool_text(b),
        other => debug_text(other),
    }
}

/// The integer of a value: an integer's own, 0 for every other kind.
pub open spec fn int_val(v: Val) -> i64 {
    match v {
        Val::Int(i) => i,
        _ => 0,
    }
}

/// Relies on the derived `Debug` impl through `format!("{:?}")`; the text
/// depends on the value alone.
#[verifier::external_body]
fn debug_render(v: &PhpVariable) -> (r: String)
    ensures
        r@ == debug_text(value_of(*v)),
{
    format!("{:?}", v)
}

/// A copy of a keyed list of values.
fn duplicate_entries(elements: &Vec<(String, Box<PhpVariable>)>) -> (r: Vec<(String, Box<PhpVariable>)>)
    ensures
        entries_val(r@) == entries_val(elements@),
    decreases elements,
{
    let mut out: Vec<(String, Box<PhpVariable>)> = Vec::new();
    let mut i: usize = 0;
    while i < elements.len()
        invariant
            i <= elements@.len(),
            out@.len() == i,
            forall|j: int| 0 <= j < i ==> (#[trigger] out@[j]).0@ == elements@[j].0@
                && value_of(*out@[j].1) == value_of(*elements@[j].1),
        decreases elements@.len() - i,
    {
        proof {
            assert(decreases_to!(*elements => elements@[i as int]));
        }
        let e = elements[i].1.duplicate();
        out.push((elements[i].0.clone(), Box::new(e)));
        i = i + 1;
    }
    assert(entries_val(out@) =~= entries_val(elements@));
    out
}

impl PhpVariable {
    pub fn to_string(&self) -> (r: String)
        ensures
            r@ == text_val(value_of(*self)),
    {
        match self {
            PhpVariable::String { value } => value.clone(),
            PhpVariable::Bool { value } => {
                proof {
                    reveal_strlit("true");
                    reveal_strlit("false");
                }
                if *value {
                    String::from_str("true")
                } else {
                    String::from_str("false")
                }
            },
            other => debug_render(other),
        }
    }

    /// A copy of the value.
    #[verifier::loop_isolation(false)]
    pub fn duplicate(&self) -> (r: PhpVariable)
        ensures
            value_of(r) == value_of(*self),
        decreases self,
    {
        match self {
            PhpVariable::Null => PhpVariable::Null,
            PhpVariable::String { value } => PhpVariable::String { value: value.clone() },
            PhpVariable::Integer { value } => PhpVariable::Integer { value: *value },
            PhpVariable::Float { bits } => PhpVariable::Float { bits: *bits },
            PhpVariable::Bool { value } => PhpVariable::Bool { value: *value },
            PhpVariable::NumberedArray { elements } => {
                let mut out: Vec<Box<PhpVariable>> = Vec::new();
                let mut i: usize = 0;
                while i < elements.len()
                    invariant
                        i <= elements@.len(),
                        out@.len() == i,
                        forall|j: int| 0 <= j < i ==> value_of(*#[trigger] out@[j]) == value_of(*elements@[j]),
                    decreases elements@.len() - i,
                {
                    proof {
                        assert(decreases_to!(*elements => elements@[i as int]));
                    }
                    let e = elements[i].duplicate();
                    out.push(Box::new(e));
                    i = i + 1;
                }
                let ghost ov = out@;
                let r = PhpVariable::NumberedArray { elements: out };
                proof {
                    assert(list_val(ov) =~= list_val(elements@));
                }
                r
            },
            PhpVariable::AssociativeArray { elements } => {
                let out = duplicate_entries(elements);
                let r = PhpVariable::AssociativeArray { elements: out };
                assert(value_of(r) == value_of(*self));
                r
            },
            PhpVariable::Object { elements } => {
                let out = duplicate_entries(elements);
                PhpVariable::Object { elements: out }
            },
        }
    }

    /// The diagnostic rendering of the value.
    pub fn debug_string(&self) -> (r: String)
        ensures
            r@ == debug_text(value_of(*self)),
    {
        debug_render(self)
    }

    pub fn to_i64(&self) -> (r: i64)
        ensures
            r == int_val(value_of(*self)),
    {
        match self {
            PhpVariable::Integer { value } => *value,
            _ => 0,
        }
    }
}

} // verus!
