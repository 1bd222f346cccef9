use vstd::prelude::*;

verus! {

/// The kind of a variable's value, which a variable keeps for the whole run.
#[derive(PartialEq, Eq, Structural, Clone, Copy, Debug)]
pub enum ValueKind {
    Bool,
    Str,
    List,
}

/// Errors of the variable store and of the script bridge.
#[derive(Debug)]
pub enum HookError {
    /// A write whose kind differs from the kind the variable already has.
    TypeMismatch { name: String, expected: ValueKind },
    /// A value of a kind that no variable can hold.
    UnsupportedType { found: String },
    /// Exclusive access to the store could not be had.
    ContextPoisoned,
}

/// The human-readable text of an error.
pub open spec fn hook_error_text(e: HookError) -> Seq<char> {
    match e {
        HookError::TypeMismatch { name, expected } => "Variable "@ + name@ + match expected {
            ValueKind::Bool => " not a bool"@,
            ValueKind::Str => " not a String"@,
            ValueKind::List => " not an array"@,
        },
        HookError::UnsupportedType { found } =>
            "expecting type to be string, bool or array but found a '"@ + found@ + "' instead"@,
        HookError::ContextPoisoned => "the variable context is poisoned"@,
    }
}

impl HookError {
    /// The human-readable text of this error.
    pub fn message(&self) -> (r: String)
        ensures
            r@ == hook_error_text(*self),
    {
        match self {
            HookError::TypeMismatch { name, expected } => {
                let mut r = String::from_str("Variable ");
                r.append(name.as_str());
                match expected {
                    ValueKind::Bool => r.append(" not a bool"),
                    ValueKind::Str => r.append(" not a String"),
                    ValueKind::List => r.append(" not an array"),
                }
                r
            },
            HookError::UnsupportedType { found } => {
                let mut r = String::from_str("expecting type to be string, bool or array but found a '");
                r.append(found.as_str());
                r.append("' instead");
                r
            },
            HookError::ContextPoisoned => String::from_str("the variable context is poisoned"),
        }
    }
}

} // verus!
