//! The static method that maps a runtime enum constant to its wrapper.
use vstd::prelude::*;
use vstd::string::*;
use crate::compiler::constructs::exceptions::{enum_exception_names, enum_exceptions};
use crate::java::method::{one_argument, ArgumentModel, Method, MethodModel};
use crate::java::visibility::Visibility;
use crate::schema::{Object, ObjectModel, Variant, VariantModel};
use crate::text::{append, join, join_with, replace, replace_all};

verus! {

pub const START_BODY: &'static str = r#"
if (object == null) return null;

var clazz = object.getClass();

if (!clazz.isEnum()) throw new RuntimeException("{{NAME}} was supposed to be an enum but it is not!");

var variant = ((Enum<?>) object).name();

switch (variant) {
"#;

pub const END_BODY: &'static str = r#"
    default:
        var variants = clazz.getEnumConstants();
        System.out.println("{{NAME}} variants:");

        for (var c : variants) {
            var constant = (Enum<?>)c;
            System.out.println("    - '" + constant.name() + "': '" + constant.toString() + "'");
        }

        throw new RuntimeException("{{NAME}}Accessor has an unrecognized variant: '" + variant + "'");
}
"#;

/// The arm of the switch for one variant: the runtime constant is matched
/// by the variant's original name and mapped to the constant of its display
/// name.
pub open spec fn case_line(variant: VariantModel, object: ObjectModel) -> Seq<char> {
    case_label(variant) + " return "@ + object.display_name() + "Accessor."@
        + variant.display_name() + ";"@
}

/// The label of the arm for one variant: its original name as a string
/// constant.
pub open spec fn case_label(variant: VariantModel) -> Seq<char> {
    "\tcase \""@ + variant.name + "\":"@
}

/// One arm for each variant, in order.
pub open spec fn case_lines(object: ObjectModel) -> Seq<Seq<char>> {
    Seq::new(object.variants.len(), |i: int| case_line(object.variants[i], object))
}

/// The parts of the body: the guards, the arms, and the default arm that
/// lists the runtime constants and fails.
pub open spec fn body_parts(object: ObjectModel) -> Seq<Seq<char>> {
    seq![replace_all(START_BODY@, "{{NAME}}"@, object.display_name())] + case_lines(object)
        + seq![replace_all(END_BODY@, "{{NAME}}"@, object.display_name())]
}

/// `access` of the wrapper of an enum-kind `object`.
pub open spec fn method(object: ObjectModel) -> MethodModel {
    MethodModel {
        name: "access"@,
        arguments: seq![ArgumentModel { name: "object"@, java_type: "Object"@ }],
        return_type: Some(object.display_name() + "Accessor"@),
        is_constructor: false,
        visibility: Visibility::Public,
        is_static: true,
        exceptions: enum_exceptions(),
        body: join(body_parts(object), "\n"@),
    }
}

fn emit_case(variant: &Variant, object: &Object) -> (out: String)
    ensures
        out@ == case_line(variant.deep_view(), object.deep_view()),
{
    let mut out = String::from_str("\tcase \"");
    out.append(variant.name.as_str());
    out.append("\":");
    out.append(" return ");
    out.append(object.display_name());
    out.append("Accessor.");
    out.append(variant.display_name());
    out.append(";");
    out
}

fn emit_body(object: &Object) -> (out: String)
    ensures
        out@ == join(body_parts(object.deep_view()), "\n"@),
{
    proof {
        reveal_strlit("{{NAME}}");
    }
    let mut parts: Vec<String> = Vec::new();
    parts.push(replace(START_BODY, "{{NAME}}", object.display_name()));
    let mut i: usize = 0;
    while i < object.variants.len()
        invariant
            i <= object.variants.len(),
            parts.len() == i + 1,
            parts[0]@ == replace_all(START_BODY@, "{{NAME}}"@, object.deep_view().display_name()),
            forall|k: int|
                0 <= k < i ==> #[trigger] parts[k + 1]@ == case_line(
                    object.variants[k].deep_view(),
                    object.deep_view(),
                ),
        decreases object.variants.len() - i,
    {
        parts.push(emit_case(&object.variants[i], object));
        i += 1;
    }
    parts.push(replace(END_BODY, "{{NAME}}", object.display_name()));
    proof {
        let want = body_parts(object.deep_view());
        assert(parts.deep_view().len() == want.len());
        assert forall|k: int| 0 <= k < want.len() implies parts.deep_view()[k] == want[k] by {
            if 0 < k < want.len() - 1 {
                assert(parts[(k - 1) + 1]@ == case_line(
                    object.variants[k - 1].deep_view(),
                    object.deep_view(),
                ));
            }
        }
        assert(parts.deep_view() =~= want);
    }
    join_with(&parts, "\n")
}

/// Synthesizes `access` for an enum: it rejects what is no enum, switches on
/// the runtime constant's name over every variant, and on no match prints
/// the runtime constants and fails.
pub fn generate(object: &Object) -> (out: Method)
    ensures
        out.deep_view() == method(object.deep_view()),
{
    Method {
        name: String::from_str("access"),
        arguments: one_argument("object", "Object"),
        return_type: Some(append(object.display_name(), "Accessor")),
        is_constructor: false,
        visibility: Visibility::Public,
        is_static: true,
        exceptions: enum_exception_names(),
        body: emit_body(object),
    }
}

/// The switch has one arm for each variant, in order, and the arm of a
/// variant starts with the label of its original name.
pub proof fn law_switch_covers_variants(object: ObjectModel, i: int)
    requires
        0 <= i < object.variants.len(),
    ensures
        body_parts(object).len() == object.variants.len() + 2,
        body_parts(object)[i + 1] == case_line(object.variants[i], object),
        case_label(object.variants[i]).is_prefix_of(body_parts(object)[i + 1]),
{
    let label = case_label(object.variants[i]);
    let line = case_line(object.variants[i], object);
    assert(line.subrange(0, label.len() as int) =~= label);
}

} // verus!
