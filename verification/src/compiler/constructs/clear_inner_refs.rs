//! The method that breaks the references a wrapper holds.
use vstd::prelude::*;
use vstd::string::*;
use crate::java::method::{Argument, Method, MethodModel};
use crate::java::visibility::Visibility;
use crate::schema::{
    lemma_primitive_ends_in_no_object, Field, FieldModel, Object, ObjectModel,
};
use crate::text::{join, join_with, replace, replace_all};

verus! {

pub const START_BODY: &'static str = r#"
this.self = null;
"#;

pub const CLEAR_SINGLE_REF: &'static str = r#"
if (this.{{FIELD}} != null) this.{{FIELD}}.clearInnerRefs();
"#;

pub const CLEAR_ARRAY_REF: &'static str = r#"
clearInnerRefsArray(this.{{FIELD}});
"#;

/// Some included schema of the name `name` is an enum.
pub open spec fn names_enum(includes: Seq<ObjectModel>, name: Seq<char>) -> bool {
    exists|k: int|
        0 <= k < includes.len() && (#[trigger] includes[k]).name == name
            && includes[k].is_enum_kind()
}

/// The field's type ends in an included schema that is an enum.
pub open spec fn is_enum_field(
    current: ObjectModel,
    field: FieldModel,
    includes: Seq<ObjectModel>,
) -> bool {
    match field.field_type.ends_in_object(current) {
        Some(name) => names_enum(includes, name),
        None => false,
    }
}

/// The field holds wrappers that are worth clearing: it is no primitive and
/// no included enum.
pub open spec fn is_cleared(
    current: ObjectModel,
    field: FieldModel,
    includes: Seq<ObjectModel>,
) -> bool {
    !field.field_type.is_primitive() && !is_enum_field(current, field, includes)
}

/// Those of `fields` that are cleared, in order.
pub open spec fn cleared_fields(
    current: ObjectModel,
    fields: Seq<FieldModel>,
    includes: Seq<ObjectModel>,
) -> Seq<FieldModel>
    decreases fields.len(),
{
    if fields.len() == 0 {
        Seq::empty()
    } else {
        let before = cleared_fields(current, fields.drop_last(), includes);
        if is_cleared(current, fields.last(), includes) {
            before.push(fields.last())
        } else {
            before
        }
    }
}

/// The statement that clears one field: through the shared array helper for
/// an array, by a guarded call for a single wrapper.
pub open spec fn clear_statement(field: FieldModel) -> Seq<char> {
    if field.field_type.is_array() {
        replace_all(CLEAR_ARRAY_REF@, "{{FIELD}}"@, field.display_name())
    } else {
        replace_all(CLEAR_SINGLE_REF@, "{{FIELD}}"@, field.display_name())
    }
}

/// The parts of the body: the statement that drops the original object, then
/// one statement for each cleared field.
pub open spec fn body_parts(object: ObjectModel, includes: Seq<ObjectModel>) -> Seq<Seq<char>> {
    seq![START_BODY@] + cleared_fields(object, object.fields, includes).map_values(
        |field: FieldModel| clear_statement(field),
    )
}

/// `clearInnerRefs` of the wrapper of `object`.
pub open spec fn method(object: ObjectModel, includes: Seq<ObjectModel>) -> MethodModel {
    MethodModel {
        name: "clearInnerRefs"@,
        arguments: Seq::empty(),
        return_type: None,
        is_constructor: false,
        visibility: Visibility::Public,
        is_static: false,
        exceptions: Seq::empty(),
        body: join(body_parts(object, includes), "\n"@),
    }
}

/// Whether the field's type ends in an included schema that is an enum.
pub fn field_is_enum(current: &Object, field: &Field, includes: &[Object]) -> (out: bool)
    ensures
        out == is_enum_field(current.deep_view(), field.deep_view(), includes.deep_view()),
{
    match field.field_type.ends_in_object(current) {
        Some(name) => {
            let wanted = String::from_str(name);
            let mut k: usize = 0;
            while k < includes.len()
                invariant
                    k <= includes.len(),
                    wanted@ == name@,
                    field.deep_view().field_type.ends_in_object(current.deep_view()) == Some(
                        name@,
                    ),
                    forall|j: int|
                        0 <= j < k ==> !((#[trigger] includes.deep_view()[j]).name == name@
                            && includes.deep_view()[j].is_enum_kind()),
                decreases includes.len() - k,
            {
                let other = &includes[k];
                if other.name == wanted && other.is_enum_kind() {
                    proof {
                        assert(includes.deep_view()[k as int].name == name@);
                        assert(includes.deep_view()[k as int].is_enum_kind());
                        assert(names_enum(includes.deep_view(), name@));
                    }
                    return true;
                }
                proof {
                    assert(includes.deep_view()[k as int] == other.deep_view());
                }
                k += 1;
            }
            false
        },
        None => false,
    }
}

fn emit_clear(field: &Field) -> (out: String)
    ensures
        out@ == clear_statement(field.deep_view()),
{
    proof {
        reveal_strlit("{{FIELD}}");
    }
    if field.field_type.is_array() {
        replace(CLEAR_ARRAY_REF, "{{FIELD}}", field.display_name())
    } else {
        replace(CLEAR_SINGLE_REF, "{{FIELD}}", field.display_name())
    }
}

fn emit_body(object: &Object, includes: &[Object]) -> (out: String)
    ensures
        out@ == join(body_parts(object.deep_view(), includes.deep_view()), "\n"@),
{
    let mut parts: Vec<String> = Vec::new();
    parts.push(String::from_str(START_BODY));
    let ghost model = object.deep_view();
    let ghost others = includes.deep_view();
    let ghost statement = |field: FieldModel| clear_statement(field);
    let mut i: usize = 0;
    proof {
        assert(parts.deep_view() =~= seq![START_BODY@] + cleared_fields(
            model,
            model.fields.take(0),
            others,
        ).map_values(statement));
    }
    while i < object.fields.len()
        invariant
            i <= object.fields.len(),
            model == object.deep_view(),
            others == includes.deep_view(),
            statement == |field: FieldModel| clear_statement(field),
            parts.deep_view() == seq![START_BODY@] + cleared_fields(
                model,
                model.fields.take(i as int),
                others,
            ).map_values(statement),
        decreases object.fields.len() - i,
    {
        let field = &object.fields[i];
        let ghost before = parts.deep_view();
        proof {
            let next = model.fields.take(i + 1);
            assert(next.drop_last() =~= model.fields.take(i as int));
            assert(next.last() == field.deep_view());
        }
        if !field.field_type.is_primitive() && !field_is_enum(object, field, includes) {
            parts.push(emit_clear(field));
            proof {
                let kept = cleared_fields(model, model.fields.take(i as int), others);
                assert(parts.deep_view() =~= before.push(clear_statement(field.deep_view())));
                assert(kept.push(field.deep_view()).map_values(statement) =~= kept.map_values(
                    statement,
                ).push(clear_statement(field.deep_view())));
                assert(parts.deep_view() =~= seq![START_BODY@] + kept.push(
                    field.deep_view(),
                ).map_values(statement));
            }
        }
        i += 1;
    }
    proof {
        assert(model.fields.take(object.fields.len() as int) =~= model.fields);
    }
    join_with(&parts, "\n")
}

/// Synthesizes `clearInnerRefs`: it drops the original object, then clears
/// every field that is neither primitive nor an included enum.
pub fn generate(object: &Object, includes: &[Object]) -> (out: Method)
    ensures
        out.deep_view() == method(object.deep_view(), includes.deep_view()),
{
    let arguments: Vec<Argument> = Vec::new();
    let exceptions: Vec<String> = Vec::new();
    proof {
        assert(arguments.deep_view() =~= Seq::empty());
        assert(exceptions.deep_view() =~= Seq::<Seq<char>>::empty());
    }
    Method {
        name: String::from_str("clearInnerRefs"),
        arguments,
        return_type: None,
        is_constructor: false,
        visibility: Visibility::Public,
        is_static: false,
        exceptions,
        body: emit_body(object, includes),
    }
}

/// A field is among the cleared ones exactly when it is one of the fields
/// and is neither primitive nor an included enum.
pub proof fn lemma_cleared_fields(
    current: ObjectModel,
    fields: Seq<FieldModel>,
    includes: Seq<ObjectModel>,
    field: FieldModel,
)
    ensures
        cleared_fields(current, fields, includes).contains(field) <==> fields.contains(field)
            && is_cleared(current, field, includes),
    decreases fields.len(),
{
    if fields.len() > 0 {
        let before = cleared_fields(current, fields.drop_last(), includes);
        lemma_cleared_fields(current, fields.drop_last(), includes, field);
        let all = cleared_fields(current, fields, includes);
        if fields.contains(field) {
            let i = choose|i: int| 0 <= i < fields.len() && fields[i] == field;
            if i < fields.len() - 1 {
                assert(fields.drop_last()[i] == field);
            }
        }
        if fields.drop_last().contains(field) {
            let i = choose|i: int| 0 <= i < fields.drop_last().len() && fields.drop_last()[i] == field;
            assert(fields[i] == field);
        }
        if is_cleared(current, fields.last(), includes) {
            assert(all == before.push(fields.last()));
            assert(all[all.len() - 1] == fields.last());
            if before.contains(field) {
                let i = choose|i: int| 0 <= i < before.len() && before[i] == field;
                assert(all[i] == field);
            }
            if all.contains(field) {
                let i = choose|i: int| 0 <= i < all.len() && all[i] == field;
                if i < before.len() {
                    assert(before[i] == field);
                }
            }
        }
        assert(fields[fields.len() - 1] == fields.last());
    }
}

/// A field whose type ends in an included schema that is an enum gets no
/// clearing statement.
pub proof fn law_enum_field_is_not_cleared(
    object: ObjectModel,
    includes: Seq<ObjectModel>,
    i: int,
    k: int,
)
    requires
        0 <= i < object.fields.len(),
        0 <= k < includes.len(),
        includes[k].is_enum_kind(),
        object.fields[i].field_type.ends_in_object(object) == Some(includes[k].name),
    ensures
        !cleared_fields(object, object.fields, includes).contains(object.fields[i]),
{
    lemma_cleared_fields(object, object.fields, includes, object.fields[i]);
    assert(names_enum(includes, includes[k].name));
}

/// A field whose type ends in an included schema that is a class, and in no
/// included enum of the same name, gets a clearing statement.
pub proof fn law_class_field_is_cleared(
    object: ObjectModel,
    includes: Seq<ObjectModel>,
    i: int,
    k: int,
)
    requires
        0 <= i < object.fields.len(),
        0 <= k < includes.len(),
        includes[k].is_class_kind(),
        object.fields[i].field_type.ends_in_object(object) == Some(includes[k].name),
        !names_enum(includes, includes[k].name),
    ensures
        cleared_fields(object, object.fields, includes).contains(object.fields[i]),
{
    lemma_cleared_fields(object, object.fields, includes, object.fields[i]);
    lemma_primitive_ends_in_no_object(object.fields[i].field_type, object);
    assert(object.fields.contains(object.fields[i]));
}

} // verus!
