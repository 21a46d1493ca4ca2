//! The `throws` lists of the generated accessors.
use vstd::prelude::*;
use vstd::string::*;

verus! {

/// The exceptions that reflective field access may throw.
pub open spec fn reflective_exceptions() -> Seq<Seq<char>> {
    seq![
        "NoSuchFieldException"@,
        "SecurityException"@,
        "IllegalArgumentException"@,
        "IllegalAccessException"@,
    ]
}

/// The exceptions that reflective field access may throw.
pub fn reflective_exception_names() -> (out: Vec<String>)
    ensures
        out.deep_view() == reflective_exceptions(),
{
    let mut out: Vec<String> = Vec::new();
    out.push(String::from_str("NoSuchFieldException"));
    out.push(String::from_str("SecurityException"));
    out.push(String::from_str("IllegalArgumentException"));
    out.push(String::from_str("IllegalAccessException"));
    proof {
        assert(out.deep_view() =~= reflective_exceptions());
    }
    out
}

/// The exceptions that reading an enum constant may throw.
pub open spec fn enum_exceptions() -> Seq<Seq<char>> {
    seq!["SecurityException"@, "IllegalArgumentException"@]
}

/// The exceptions that reading an enum constant may throw.
pub fn enum_exception_names() -> (out: Vec<String>)
    ensures
        out.deep_view() == enum_exceptions(),
{
    let mut out: Vec<String> = Vec::new();
    out.push(String::from_str("SecurityException"));
    out.push(String::from_str("IllegalArgumentException"));
    proof {
        assert(out.deep_view() =~= enum_exceptions());
    }
    out
}

} // verus!
