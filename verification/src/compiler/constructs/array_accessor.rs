//! The static method that wraps every entry of an object array.
use vstd::prelude::*;
use vstd::string::*;
use crate::compiler::constructs::exceptions::{
    reflective_exception_names, reflective_exceptions,
};
use crate::java::method::{one_argument, ArgumentModel, Method, MethodModel};
use crate::java::visibility::Visibility;
use crate::schema::{Object, ObjectModel};
use crate::text::{append, replace, replace_all};

verus! {

pub const BODY: &'static str = r#"
if (object == null) return null;

var entries = new java.util.ArrayList<>();

for (var entry : object) {
    entries.add({{NAME}}Accessor.access(entry));
}

return entries.toArray(new {{NAME}}Accessor[0]);
"#;

/// `accessArray` of the wrapper of `object`.
pub open spec fn method(object: ObjectModel) -> MethodModel {
    MethodModel {
        name: "accessArray"@,
        arguments: seq![ArgumentModel { name: "object"@, java_type: "Object[]"@ }],
        return_type: Some(object.display_name() + "Accessor[]"@),
        is_constructor: false,
        visibility: Visibility::Public,
        is_static: true,
        exceptions: reflective_exceptions(),
        body: replace_all(BODY@, "{{NAME}}"@, object.display_name()),
    }
}

/// Synthesizes `accessArray`: it wraps each entry of an object array with
/// the single-value accessor and returns them as a typed array.
pub fn generate(object: &Object) -> (out: Method)
    ensures
        out.deep_view() == method(object.deep_view()),
{
    proof {
        reveal_strlit("{{NAME}}");
    }
    Method {
        name: String::from_str("accessArray"),
        arguments: one_argument("object", "Object[]"),
        return_type: Some(append(object.display_name(), "Accessor[]")),
        is_constructor: false,
        visibility: Visibility::Public,
        is_static: true,
        exceptions: reflective_exception_names(),
        body: replace(BODY, "{{NAME}}", object.display_name()),
    }
}

} // verus!
