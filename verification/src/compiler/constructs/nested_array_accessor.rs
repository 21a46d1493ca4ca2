//! The shared static method that unwraps arrays of arrays.
use vstd::prelude::*;
use vstd::string::*;
use crate::compiler::constructs::exceptions::{
    reflective_exception_names, reflective_exceptions,
};
use crate::java::method::{one_argument, ArgumentModel, Method, MethodModel};
use crate::java::visibility::Visibility;

verus! {

pub const BODY: &'static str = r#"
if (object == null) return null;

if (!(object instanceof Object[]))
    return object;

var objArray = (Object[]) object;

var entries = new java.util.ArrayList<>();

for (var entry : objArray) {{
    entries.add(accessArrayNested(entry));
}}

return entries.toArray();
"#;

/// `accessArrayNested`, the same in every wrapper.
pub open spec fn method() -> MethodModel {
    MethodModel {
        name: "accessArrayNested"@,
        arguments: seq![ArgumentModel { name: "object"@, java_type: "Object"@ }],
        return_type: Some("Object"@),
        is_constructor: false,
        visibility: Visibility::Public,
        is_static: true,
        exceptions: reflective_exceptions(),
        body: BODY@,
    }
}

/// Synthesizes `accessArrayNested`: it hands back what is no array, and
/// rebuilds an array entry by entry as an untyped one. The caller casts.
pub fn generate() -> (out: Method)
    ensures
        out.deep_view() == method(),
{
    Method {
        name: String::from_str("accessArrayNested"),
        arguments: one_argument("object", "Object"),
        return_type: Some(String::from_str("Object")),
        is_constructor: false,
        visibility: Visibility::Public,
        is_static: true,
        exceptions: reflective_exception_names(),
        body: String::from_str(BODY),
    }
}

} // verus!
