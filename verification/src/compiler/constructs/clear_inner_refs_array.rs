//! The shared helper that clears every wrapper held in an array.
use vstd::prelude::*;
use vstd::string::*;
use crate::java::method::{one_argument, ArgumentModel, Method, MethodModel};
use crate::java::visibility::Visibility;

verus! {

pub const BODY: &'static str = r#"
if (obj == null) return;
if (obj.getClass().isArray()) {
    var array = (Object[])obj;

    for (var entry : array) {
        clearInnerRefsArray(entry);
    }
} else {
    try {
        var method = obj.getClass().getMethod("clearInnerRefs");
        method.invoke(obj);
    } catch (Exception e) {
        System.out.println("Error in clearRefsArray:");
        e.printStackTrace();
    }
}
"#;

/// `clearInnerRefsArray`, the same in every wrapper.
pub open spec fn method() -> MethodModel {
    MethodModel {
        name: "clearInnerRefsArray"@,
        arguments: seq![ArgumentModel { name: "obj"@, java_type: "Object"@ }],
        return_type: None,
        is_constructor: false,
        visibility: Visibility::Private,
        is_static: true,
        exceptions: Seq::empty(),
        body: BODY@,
    }
}

/// Synthesizes `clearInnerRefsArray`: it walks arrays of arrays and calls
/// `clearInnerRefs` on each leaf that has it, logging what fails.
pub fn generate() -> (out: Method)
    ensures
        out.deep_view() == method(),
{
    let exceptions: Vec<String> = Vec::new();
    proof {
        assert(exceptions.deep_view() =~= Seq::<Seq<char>>::empty());
    }
    Method {
        name: String::from_str("clearInnerRefsArray"),
        arguments: one_argument("obj", "Object"),
        return_type: None,
        is_constructor: false,
        visibility: Visibility::Private,
        is_static: true,
        exceptions,
        body: String::from_str(BODY),
    }
}

} // verus!
