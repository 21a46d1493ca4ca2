//! The constructor of a class wrapper.
use vstd::prelude::*;
use vstd::string::*;
use crate::java::method::{one_argument, ArgumentModel, Method, MethodModel};
use crate::java::visibility::Visibility;
use crate::schema::{Object, ObjectModel};
use crate::text::append;

verus! {

pub const BODY: &'static str = r#"
this.self = self;
"#;

/// The constructor of the wrapper of `object`.
pub open spec fn method(object: ObjectModel) -> MethodModel {
    MethodModel {
        name: object.display_name() + "Accessor"@,
        arguments: seq![ArgumentModel { name: "self"@, java_type: "Object"@ }],
        return_type: None,
        is_constructor: true,
        visibility: Visibility::Public,
        is_static: false,
        exceptions: Seq::empty(),
        body: BODY@,
    }
}

/// Synthesizes the constructor: it takes the original object and stores it.
pub fn generate(object: &Object) -> (out: Method)
    ensures
        out.deep_view() == method(object.deep_view()),
{
    let exceptions: Vec<String> = Vec::new();
    proof {
        assert(exceptions.deep_view() =~= Seq::<Seq<char>>::empty());
    }
    Method {
        name: append(object.display_name(), "Accessor"),
        arguments: one_argument("self", "Object"),
        return_type: None,
        is_constructor: true,
        visibility: Visibility::Public,
        is_static: false,
        exceptions,
        body: String::from_str(BODY),
    }
}

} // verus!
