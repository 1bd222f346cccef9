use vstd::prelude::*;
use crate::value::VarValue;
use crate::error::HookError;

verus! {

broadcast use vstd::std_specs::vec::group_vec_axioms;

/// A value handed over by the script interpreter: the kinds that a variable
/// can hold, or any other kind, carried by the name of its runtime type.
#[derive(Debug)]
pub enum ScriptValue {
    Bool(bool),
    Str(String),
    List(Vec<ScriptValue>),
    Other(String),
}

/// `v` is the variable value that the script value `s` stands for.
pub open spec fn converts_to(s: ScriptValue, v: VarValue) -> bool
    decreases s, 0nat,
{
    match s {
        ScriptValue::Bool(a) => v == VarValue::Bool(a),
        ScriptValue::Str(a) => v == VarValue::Str(a),
        ScriptValue::List(xs) => match v {
            VarValue::List(ys) => xs.len() == ys.len() && items_convert(xs, ys@, xs.len() as nat),
            _ => false,
        },
        ScriptValue::Other(_) => false,
    }
}

/// `converts_to` holds of the first `n` items of `xs` and of `ys`.
pub open spec fn items_convert(xs: Vec<ScriptValue>, ys: Seq<VarValue>, n: nat) -> bool
    decreases xs, n,
{
    if n == 0 {
        true
    } else if n > xs.len() || n > ys.len() {
        false
    } else {
        items_convert(xs, ys, (n - 1) as nat) && converts_to(xs@[n - 1], ys[n - 1])
    }
}

proof fn lemma_items_convert_prefix(xs: Vec<ScriptValue>, ys: Seq<VarValue>, zs: Seq<VarValue>, n: nat)
    requires
        items_convert(xs, ys, n),
        n <= zs.len(),
        forall|j: int| 0 <= j < n ==> ys[j] == zs[j],
    ensures
        items_convert(xs, zs, n),
    decreases n,
{
    if n > 0 {
        lemma_items_convert_prefix(xs, ys, zs, (n - 1) as nat);
    }
}

/// The runtime type name of the first value, in depth-first order, that no
/// variable can hold; `None` where there is none.
pub open spec fn unsupported_name(s: ScriptValue) -> Option<String>
    decreases s, 0nat,
{
    match s {
        ScriptValue::Other(n) => Some(n),
        ScriptValue::List(xs) => items_unsupported(xs, xs.len() as nat),
        _ => None,
    }
}

/// `unsupported_name` over the first `n` items of a list.
pub open spec fn items_unsupported(xs: Vec<ScriptValue>, n: nat) -> Option<String>
    decreases xs, n,
{
    if n == 0 || n > xs.len() {
        None
    } else {
        match items_unsupported(xs, (n - 1) as nat) {
            Some(name) => Some(name),
            None => unsupported_name(xs@[n - 1]),
        }
    }
}

proof fn lemma_unsupported_stays(xs: Vec<ScriptValue>, n: nat, m: nat)
    requires
        n <= m <= xs.len(),
        items_unsupported(xs, n) is Some,
    ensures
        items_unsupported(xs, m) == items_unsupported(xs, n),
    decreases m - n,
{
    if m > n {
        lemma_unsupported_stays(xs, n, (m - 1) as nat);
    }
}

/// Converts a script value into a variable value. Succeeds exactly when every
/// value inside it is a boolean, a string or a list; otherwise fails with
/// `UnsupportedType`, naming the runtime type of the first offending value.
pub fn rhai_to_liquid_value(val: &ScriptValue) -> (r: Result<VarValue, HookError>)
    ensures
        match unsupported_name(*val) {
            None => r is Ok && converts_to(*val, r->Ok_0),
            Some(n) => r == Err::<VarValue, HookError>(HookError::UnsupportedType { found: n }),
        },
    decreases val,
{
    match val {
        ScriptValue::Bool(b) => Ok(VarValue::Bool(*b)),
        ScriptValue::Str(s) => Ok(VarValue::Str(s.clone())),
        ScriptValue::Other(n) => Err(HookError::UnsupportedType { found: n.clone() }),
        ScriptValue::List(items) => {
            let mut out: Vec<VarValue> = Vec::new();
            let mut i: usize = 0;
            while i < items.len()
                invariant
                    i <= items.len(),
                    *val == ScriptValue::List(*items),
                    out.len() == i,
                    items_unsupported(*items, i as nat) is None,
                    items_convert(*items, out@, i as nat),
                decreases items.len() - i,
            {
                proof {
                    assert(decreases_to!(*val => (*val)->List_0));
                    assert(decreases_to!(*items => items@));
                    assert(decreases_to!(items@ => items@[i as int]));
                }
                match rhai_to_liquid_value(&items[i]) {
                    Ok(v) => {
                        let ghost before = out@;
                        out.push(v);
                        proof {
                            lemma_items_convert_prefix(*items, before, out@, i as nat);
                        }
                    },
                    Err(e) => {
                        proof {
                            assert(items_unsupported(*items, (i + 1) as nat) == unsupported_name(items@[i as int]));
                            lemma_unsupported_stays(*items, (i + 1) as nat, items.len() as nat);
                        }
                        return Err(e);
                    },
                }
                i = i + 1;
                assert(items_unsupported(*items, i as nat) is None);
            }
            assert(i == items.len());
            let r = VarValue::List(out);
            assert(converts_to(*val, r));
            Ok(r)
        },
    }
}

} // verus!
