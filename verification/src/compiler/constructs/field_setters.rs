//! One setter for each field of a class wrapper.
use vstd::prelude::*;
use vstd::string::*;
use crate::java::method::{Argument, ArgumentModel, Method, MethodModel};
use crate::java::visibility::Visibility;
use crate::schema::{Field, FieldModel, Object, ObjectModel};
use crate::text::{append, replace, replace_all};

verus! {

pub const BODY: &'static str = r#"
try {
    var clazz = this.self.getClass();
    var field = clazz.{{GET_METHOD}}("{{TRUE_FIELD_NAME}}");
    field.setAccessible(true);
    field.set(this.self, value);

    this.{{FIELD_NAME}} = value;
} catch (Exception e) {
    System.out.println("Error setting field '{{FIELD_NAME}}':");
    e.printStackTrace();
}
"#;

/// The reflective lookup for a field: through the superclasses for a
/// hierarchy field, in the declaring class alone for any other.
pub open spec fn lookup(hierarchy: bool) -> Seq<char> {
    if hierarchy {
        "getField"@
    } else {
        "getDeclaredField"@
    }
}

/// The reflective lookup for a field.
pub fn lookup_name(hierarchy: bool) -> (out: &'static str)
    ensures
        out@ == lookup(hierarchy),
{
    if hierarchy {
        "getField"
    } else {
        "getDeclaredField"
    }
}

/// The body of the setter of `field`: the template with the lookup, then
/// the original name, then the display name put in, in that order.
pub open spec fn setter_body(field: FieldModel) -> Seq<char> {
    replace_all(
        replace_all(
            replace_all(BODY@, "{{GET_METHOD}}"@, lookup(field.hierarchy)),
            "{{TRUE_FIELD_NAME}}"@,
            field.name,
        ),
        "{{FIELD_NAME}}"@,
        field.display_name(),
    )
}

/// The setter of `field` in the wrapper of `object`.
pub open spec fn setter(field: FieldModel, object: ObjectModel) -> MethodModel {
    MethodModel {
        name: "set_"@ + field.display_name(),
        arguments: seq![
            ArgumentModel { name: "value"@, java_type: field.field_type.java_name(object) },
        ],
        return_type: None,
        is_constructor: false,
        visibility: Visibility::Public,
        is_static: false,
        exceptions: Seq::empty(),
        body: setter_body(field),
    }
}

/// The setters of `fields`, in order.
pub open spec fn setters(fields: Seq<FieldModel>, object: ObjectModel) -> Seq<MethodModel> {
    Seq::new(fields.len(), |i: int| setter(fields[i], object))
}

fn generate_one(field: &Field, object: &Object) -> (out: Method)
    ensures
        out.deep_view() == setter(field.deep_view(), object.deep_view()),
{
    let mut arguments: Vec<Argument> = Vec::new();
    arguments.push(
        Argument { name: String::from_str("value"), java_type: field.field_type.java_name(object) },
    );
    let exceptions: Vec<String> = Vec::new();
    proof {
        reveal_strlit("{{GET_METHOD}}");
        reveal_strlit("{{TRUE_FIELD_NAME}}");
        reveal_strlit("{{FIELD_NAME}}");
        assert(exceptions.deep_view() =~= Seq::<Seq<char>>::empty());
        assert(arguments.deep_view() =~= setter(field.deep_view(), object.deep_view()).arguments);
    }
    let with_lookup = replace(BODY, "{{GET_METHOD}}", lookup_name(field.hierarchy));
    let with_name = replace(with_lookup.as_str(), "{{TRUE_FIELD_NAME}}", field.name.as_str());
    let body = replace(with_name.as_str(), "{{FIELD_NAME}}", field.display_name());
    Method {
        name: append("set_", field.display_name()),
        arguments,
        return_type: None,
        is_constructor: false,
        visibility: Visibility::Public,
        is_static: false,
        exceptions,
        body,
    }
}

/// Synthesizes one setter for each field: it writes the value to the
/// original object by reflection, then to the wrapper's own field, and logs
/// what fails.
pub fn generate(fields: &[Field], object: &Object) -> (out: Vec<Method>)
    ensures
        out.deep_view() == setters(fields.deep_view(), object.deep_view()),
{
    let mut out: Vec<Method> = Vec::new();
    let mut i: usize = 0;
    while i < fields.len()
        invariant
            i <= fields.len(),
            out.len() == i,
            forall|k: int|
                0 <= k < i ==> #[trigger] out[k].deep_view() == setter(
                    fields[k].deep_view(),
                    object.deep_view(),
                ),
        decreases fields.len() - i,
    {
        out.push(generate_one(&fields[i], object));
        i += 1;
    }
    proof {
        assert(out.deep_view() =~= setters(fields.deep_view(), object.deep_view()));
    }
    out
}

} // verus!
