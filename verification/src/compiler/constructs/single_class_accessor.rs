//! The static method that reads every field of an object into its wrapper.
use vstd::prelude::*;
use vstd::string::*;
use crate::compiler::constructs::exceptions::{
    reflective_exception_names, reflective_exceptions,
};
use crate::compiler::constructs::field_setters::{lookup, lookup_name};
use crate::java::method::{one_argument, ArgumentModel, Method, MethodModel};
use crate::java::visibility::Visibility;
use crate::schema::{Field, FieldModel, Object, ObjectModel, Type, TypeModel};
use crate::text::{append, join, join_with, replace, replace_all};

verus! {

pub const START_BODY: &'static str = r#"
if (object == null) return null;

var accessor = new {{CLASS_NAME}}Accessor(object);
var clazz = object.getClass();
if (clazz.isEnum()) throw new RuntimeException("Failed to access {{CLASS_NAME}}: Expected object to be object but got enum.");
"#;

pub const FIELD_BODY: &'static str = r#"
{
    var field = clazz.{{FIELD_GET_METHOD}}("{{TRUE_FIELD_NAME}}");
    field.setAccessible(true);
    var value = field.{{GET_METHOD}}(object);
    accessor.{{FIELD_NAME}} = {{ACCESSOR}};
}
"#;

pub const END_BODY: &'static str = r#"
return accessor;
"#;

/// The reflective getter for a field of this type: a typed one for each
/// scalar, the generic one for strings, arrays and wrappers.
pub open spec fn getter(field_type: TypeModel) -> Seq<char> {
    match field_type {
        TypeModel::Bool => "getBoolean"@,
        TypeModel::I32 => "getInt"@,
        TypeModel::I64 => "getLong"@,
        TypeModel::U8 => "getByte"@,
        TypeModel::I16 => "getShort"@,
        TypeModel::F32 => "getFloat"@,
        TypeModel::F64 => "getDouble"@,
        _ => "get"@,
    }
}

/// The reflective getter for a field of this type.
pub fn getter_name(field_type: &Type) -> (out: &'static str)
    ensures
        out@ == getter(field_type.deep_view()),
{
    match field_type {
        Type::Bool => "getBoolean",
        Type::I32 => "getInt",
        Type::I64 => "getLong",
        Type::U8 => "getByte",
        Type::I16 => "getShort",
        Type::F32 => "getFloat",
        Type::F64 => "getDouble",
        Type::String | Type::Array(_) | Type::Object(_) | Type::SelfObject => "get",
    }
}

/// The block that reads one field: the template with the lookup, the
/// original name, the getter, the display name and the accessor expression
/// put in, in that order.
pub open spec fn field_block(field: FieldModel, object: ObjectModel) -> Seq<char> {
    replace_all(
        replace_all(
            replace_all(
                replace_all(
                    replace_all(FIELD_BODY@, "{{FIELD_GET_METHOD}}"@, lookup(field.hierarchy)),
                    "{{TRUE_FIELD_NAME}}"@,
                    field.name,
                ),
                "{{GET_METHOD}}"@,
                getter(field.field_type),
            ),
            "{{FIELD_NAME}}"@,
            field.display_name(),
        ),
        "{{ACCESSOR}}"@,
        field.field_type.accessor(true, object),
    )
}

/// One block for each field, in order.
pub open spec fn field_blocks(object: ObjectModel) -> Seq<Seq<char>> {
    Seq::new(object.fields.len(), |i: int| field_block(object.fields[i], object))
}

/// The parts of the body: the guards, the blocks, and the return.
pub open spec fn body_parts(object: ObjectModel) -> Seq<Seq<char>> {
    seq![replace_all(START_BODY@, "{{CLASS_NAME}}"@, object.display_name())] + field_blocks(
        object,
    ) + seq![END_BODY@]
}

/// `access` of the wrapper of a class-kind `object`.
pub open spec fn method(object: ObjectModel) -> MethodModel {
    MethodModel {
        name: "access"@,
        arguments: seq![ArgumentModel { name: "object"@, java_type: "Object"@ }],
        return_type: Some(object.display_name() + "Accessor"@),
        is_constructor: false,
        visibility: Visibility::Public,
        is_static: true,
        exceptions: reflective_exceptions(),
        body: join(body_parts(object), "\n"@),
    }
}

fn emit_field(field: &Field, object: &Object) -> (out: String)
    ensures
        out@ == field_block(field.deep_view(), object.deep_view()),
{
    proof {
        reveal_strlit("{{FIELD_GET_METHOD}}");
        reveal_strlit("{{TRUE_FIELD_NAME}}");
        reveal_strlit("{{GET_METHOD}}");
        reveal_strlit("{{FIELD_NAME}}");
        reveal_strlit("{{ACCESSOR}}");
    }
    let with_lookup = replace(FIELD_BODY, "{{FIELD_GET_METHOD}}", lookup_name(field.hierarchy));
    let with_name = replace(with_lookup.as_str(), "{{TRUE_FIELD_NAME}}", field.name.as_str());
    let with_getter = replace(with_name.as_str(), "{{GET_METHOD}}", getter_name(&field.field_type));
    let with_shown = replace(with_getter.as_str(), "{{FIELD_NAME}}", field.display_name());
    let accessor = field.field_type.generate_accessor(true, object);
    replace(with_shown.as_str(), "{{ACCESSOR}}", accessor.as_str())
}

fn emit_body(object: &Object) -> (out: String)
    ensures
        out@ == join(body_parts(object.deep_view()), "\n"@),
{
    proof {
        reveal_strlit("{{CLASS_NAME}}");
    }
    let mut parts: Vec<String> = Vec::new();
    parts.push(replace(START_BODY, "{{CLASS_NAME}}", object.display_name()));
    let mut i: usize = 0;
    while i < object.fields.len()
        invariant
            i <= object.fields.len(),
            parts.len() == i + 1,
            parts[0]@ == replace_all(
                START_BODY@,
                "{{CLASS_NAME}}"@,
                object.deep_view().display_name(),
            ),
            forall|k: int|
                0 <= k < i ==> #[trigger] parts[k + 1]@ == field_block(
                    object.fields[k].deep_view(),
                    object.deep_view(),
                ),
        decreases object.fields.len() - i,
    {
        parts.push(emit_field(&object.fields[i], object));
        i += 1;
    }
    parts.push(String::from_str(END_BODY));
    proof {
        let want = body_parts(object.deep_view());
        assert(parts.deep_view().len() == want.len());
        assert forall|k: int| 0 <= k < want.len() implies parts.deep_view()[k] == want[k] by {
            if 0 < k < want.len() - 1 {
                assert(parts[(k - 1) + 1]@ == field_block(
                    object.fields[k - 1].deep_view(),
                    object.deep_view(),
                ));
            }
        }
        assert(parts.deep_view() =~= want);
    }
    join_with(&parts, "\n")
}

/// Synthesizes `access` for a class: it rejects an enum, then reads every
/// field by reflection and stores what the field's accessor expression
/// gives.
pub fn generate(object: &Object) -> (out: Method)
    ensures
        out.deep_view() == method(object.deep_view()),
{
    Method {
        name: String::from_str("access"),
        arguments: one_argument("object", "Object"),
        return_type: Some(append(object.display_name(), "Accessor")),
        is_constructor: false,
        visibility: Visibility::Public,
        is_static: true,
        exceptions: reflective_exception_names(),
        body: emit_body(object),
    }
}

} // verus!
