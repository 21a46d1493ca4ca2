//! The schema compiler: from schemas to the text of their accessor wrappers.
use vstd::prelude::*;
use vstd::string::*;
use crate::compiler::constructs::{
    array_accessor, class_constructor, clear_inner_refs, clear_inner_refs_array, field_setters,
    nested_array_accessor, single_class_accessor, single_enum_accessor,
};
use crate::java::class::{Class, ClassModel, ClassType};
use crate::java::field::{Field, FieldModel};
use crate::java::java_enum::{Enum, EnumModel};
use crate::java::method::{Method, MethodModel};
use crate::java::visibility::Visibility;
use crate::schema::{self, Object, ObjectModel};
use crate::text::append;

pub mod constructs;

verus! {

/// The one extension that marks a schema file.
pub const ALLOWED_EXTENSION: &'static str = "ron";

/// Whether a file of this extension is a schema file.
pub fn is_allowed_extension(extension: &str) -> (out: bool)
    ensures
        out == (extension@ == ALLOWED_EXTENSION@),
{
    String::from_str(extension) == String::from_str(ALLOWED_EXTENSION)
}

/// One generated source file: where it goes and what it holds.
#[derive(Debug)]
pub struct JavaSource {
    /// The output directory, as the caller named it.
    pub directory: String,
    /// The name of the file in that directory.
    pub file_name: String,
    pub content: String,
}

/// Mathematical model of a [`JavaSource`].
pub struct JavaSourceModel {
    pub directory: Seq<char>,
    pub file_name: Seq<char>,
    pub content: Seq<char>,
}

impl DeepView for JavaSource {
    type V = JavaSourceModel;

    open spec fn deep_view(&self) -> JavaSourceModel {
        JavaSourceModel {
            directory: self.directory@,
            file_name: self.file_name@,
            content: self.content@,
        }
    }
}

/// Why a schema file gave no source.
#[derive(Debug)]
pub enum SourceError {
    /// A file or directory could not be read; the text says why.
    IO(String),
    /// The schema text does not describe an object; the text says why.
    Deserialization(String),
    /// The object has both fields and variants.
    AmbiguousClassOrEnum,
}

/// Mathematical model of a [`SourceError`].
pub enum SourceErrorModel {
    IO(Seq<char>),
    Deserialization(Seq<char>),
    AmbiguousClassOrEnum,
}

impl DeepView for SourceError {
    type V = SourceErrorModel;

    open spec fn deep_view(&self) -> SourceErrorModel {
        match self {
            SourceError::IO(reason) => SourceErrorModel::IO(reason@),
            SourceError::Deserialization(reason) => SourceErrorModel::Deserialization(reason@),
            SourceError::AmbiguousClassOrEnum => SourceErrorModel::AmbiguousClassOrEnum,
        }
    }
}

impl SourceErrorModel {
    /// The error as one line for the user.
    pub open spec fn message(self) -> Seq<char> {
        match self {
            SourceErrorModel::IO(reason) => "An IO error ocurred while reading a source file or directory: "@
                + reason,
            SourceErrorModel::Deserialization(reason) => "An error ocurred while deserializing the file: "@
                + reason,
            SourceErrorModel::AmbiguousClassOrEnum => "Object had both fields and variants, the type between enum or class could not be determined."@,
        }
    }
}

impl SourceError {
    /// The error as one line for the user.
    pub fn message(&self) -> (out: String)
        ensures
            out@ == self.deep_view().message(),
    {
        match self {
            SourceError::IO(reason) => append(
                "An IO error ocurred while reading a source file or directory: ",
                reason.as_str(),
            ),
            SourceError::Deserialization(reason) => append(
                "An error ocurred while deserializing the file: ",
                reason.as_str(),
            ),
            SourceError::AmbiguousClassOrEnum => String::from_str(
                "Object had both fields and variants, the type between enum or class could not be determined.",
            ),
        }
    }
}

impl Clone for SourceError {
    fn clone(&self) -> (out: SourceError)
        ensures
            out.deep_view() == self.deep_view(),
    {
        match self {
            SourceError::IO(reason) => SourceError::IO(reason.clone()),
            SourceError::Deserialization(reason) => SourceError::Deserialization(reason.clone()),
            SourceError::AmbiguousClassOrEnum => SourceError::AmbiguousClassOrEnum,
        }
    }
}

/// The name of the wrapper of `object`.
pub open spec fn wrapper_name(object: ObjectModel) -> Seq<char> {
    object.display_name() + "Accessor"@
}

/// The import of each included schema's wrapper, by its own package.
pub open spec fn import_names(includes: Seq<ObjectModel>) -> Seq<Seq<char>> {
    Seq::new(
        includes.len(),
        |i: int| includes[i].package + "."@ + includes[i].display_name() + "Accessor"@,
    )
}

/// The import of each included schema's wrapper, by its own package.
pub fn import_list(includes: &Vec<Object>) -> (out: Vec<String>)
    ensures
        out.deep_view() == import_names(includes.deep_view()),
{
    let mut out: Vec<String> = Vec::new();
    let mut i: usize = 0;
    while i < includes.len()
        invariant
            i <= includes.len(),
            out.len() == i,
            forall|k: int|
                0 <= k < i ==> #[trigger] out[k]@ == import_names(includes.deep_view())[k],
        decreases includes.len() - i,
    {
        let mut name = includes[i].package.clone();
        name.append(".");
        name.append(includes[i].display_name());
        name.append("Accessor");
        out.push(name);
        i += 1;
    }
    proof {
        assert(out.deep_view() =~= import_names(includes.deep_view()));
    }
    out
}

/// The comment above a generated class.
pub open spec fn class_comment(file_name: Seq<char>, object: ObjectModel) -> Seq<char> {
    "Class autogenerated from "@ + file_name + ". DO NOT EDIT\nOriginal name: "@ + object.name
}

/// The comment above a generated enum.
pub open spec fn enum_comment(file_name: Seq<char>, object: ObjectModel) -> Seq<char> {
    "Enum autogenerated from "@ + file_name + ". DO NOT EDIT.\nOriginal name: "@ + object.name
}

/// The private field that holds the original object.
pub open spec fn self_field() -> FieldModel {
    FieldModel {
        name: "self"@,
        java_type: "Object"@,
        comment: None,
        visibility: Visibility::Private,
    }
}

/// The public field of the wrapper for one schema field: under its display
/// name, of the type's generated name, with the original name in a comment
/// where the field is renamed.
pub open spec fn wrapper_field(field: schema::FieldModel, object: ObjectModel) -> FieldModel {
    FieldModel {
        name: field.display_name(),
        java_type: field.field_type.java_name(object),
        comment: match field.rename {
            Some(_) => Some("Original name: "@ + field.name),
            None => None,
        },
        visibility: Visibility::Public,
    }
}

/// The fields of a class wrapper: the original object, then one for each
/// schema field, in order.
pub open spec fn class_fields(object: ObjectModel) -> Seq<FieldModel> {
    seq![self_field()] + Seq::new(
        object.fields.len(),
        |i: int| wrapper_field(object.fields[i], object),
    )
}

/// The methods of a class wrapper.
pub open spec fn class_methods(object: ObjectModel, includes: Seq<ObjectModel>) -> Seq<
    MethodModel,
> {
    seq![
        class_constructor::method(object),
        single_class_accessor::method(object),
        array_accessor::method(object),
        nested_array_accessor::method(),
        clear_inner_refs::method(object, includes),
        clear_inner_refs_array::method(),
    ] + field_setters::setters(object.fields, object)
}

/// The class wrapper of `object`.
pub open spec fn class_of(
    file_name: Seq<char>,
    object: ObjectModel,
    includes: Seq<ObjectModel>,
) -> ClassModel {
    ClassModel {
        name: wrapper_name(object),
        class_type: ClassType::Class,
        is_virtual: false,
        package: object.package,
        comment: Some(class_comment(file_name, object)),
        fields: class_fields(object),
        methods: class_methods(object, includes),
        includes: import_names(includes),
    }
}

/// The constants of an enum wrapper: the display name of each variant.
pub open spec fn enum_variants(object: ObjectModel) -> Seq<Seq<char>> {
    Seq::new(object.variants.len(), |i: int| object.variants[i].display_name())
}

/// The methods of an enum wrapper.
pub open spec fn enum_methods(object: ObjectModel) -> Seq<MethodModel> {
    seq![single_enum_accessor::method(object), array_accessor::method(object)]
}

/// The enum wrapper of `object`.
pub open spec fn enum_of(
    file_name: Seq<char>,
    object: ObjectModel,
    includes: Seq<ObjectModel>,
) -> EnumModel {
    EnumModel {
        name: wrapper_name(object),
        package: object.package,
        comment: Some(enum_comment(file_name, object)),
        variants: enum_variants(object),
        methods: enum_methods(object),
        includes: import_names(includes),
    }
}

fn wrapper_fields(object: &Object) -> (out: Vec<Field>)
    ensures
        out.deep_view() == class_fields(object.deep_view()),
{
    let mut out: Vec<Field> = Vec::new();
    out.push(
        Field {
            name: String::from_str("self"),
            java_type: String::from_str("Object"),
            comment: None,
            visibility: Visibility::Private,
        },
    );
    let mut i: usize = 0;
    while i < object.fields.len()
        invariant
            i <= object.fields.len(),
            out.len() == i + 1,
            out[0].deep_view() == self_field(),
            forall|k: int|
                0 <= k < i ==> #[trigger] out[k + 1].deep_view() == wrapper_field(
                    object.fields[k].deep_view(),
                    object.deep_view(),
                ),
        decreases object.fields.len() - i,
    {
        let field = &object.fields[i];
        let comment = match &field.rename {
            Some(_) => Some(append("Original name: ", field.name.as_str())),
            None => None,
        };
        out.push(
            Field {
                name: String::from_str(field.display_name()),
                java_type: field.field_type.java_name(object),
                comment,
                visibility: Visibility::Public,
            },
        );
        i += 1;
    }
    proof {
        let want = class_fields(object.deep_view());
        assert(out.deep_view().len() == want.len());
        assert forall|k: int| 0 <= k < want.len() implies out.deep_view()[k] == want[k] by {
            if k > 0 {
                assert(out[(k - 1) + 1].deep_view() == wrapper_field(
                    object.fields[k - 1].deep_view(),
                    object.deep_view(),
                ));
            }
        }
        assert(out.deep_view() =~= want);
    }
    out
}

fn wrapper_methods(object: &Object, includes: &Vec<Object>) -> (out: Vec<Method>)
    ensures
        out.deep_view() == class_methods(object.deep_view(), includes.deep_view()),
{
    let mut out: Vec<Method> = Vec::new();
    out.push(class_constructor::generate(object));
    out.push(single_class_accessor::generate(object));
    out.push(array_accessor::generate(object));
    out.push(nested_array_accessor::generate());
    let others = includes.as_slice();
    let fields = object.fields.as_slice();
    proof {
        assert(others.deep_view() =~= includes.deep_view());
        assert(fields.deep_view() =~= object.fields.deep_view());
    }
    out.push(clear_inner_refs::generate(object, others));
    out.push(clear_inner_refs_array::generate());
    let mut setters = field_setters::generate(fields, object);
    let ghost fixed = out@;
    let ghost added = setters;
    out.append(&mut setters);
    proof {
        let want = class_methods(object.deep_view(), includes.deep_view());
        assert(out@ =~= fixed + added@);
        assert(out.deep_view().len() == want.len());
        assert forall|k: int| 0 <= k < want.len() implies out.deep_view()[k] == want[k] by {
            if k >= 6 {
                assert(out@[k] == added@[k - 6]);
                assert(added.deep_view()[k - 6] == want[k]);
            } else {
                assert(out@[k] == fixed[k]);
            }
        }
        assert(out.deep_view() =~= want);
    }
    out
}

/// Assembles the class wrapper of a schema that has no variants.
pub fn build_class(file_name: &str, object: &Object, includes: &Vec<Object>) -> (out: Class)
    ensures
        out.deep_view() == class_of(file_name@, object.deep_view(), includes.deep_view()),
{
    let mut comment = String::from_str("Class autogenerated from ");
    comment.append(file_name);
    comment.append(". DO NOT EDIT\nOriginal name: ");
    comment.append(object.name.as_str());
    Class {
        name: append(object.display_name(), "Accessor"),
        class_type: ClassType::Class,
        is_virtual: false,
        package: object.package.clone(),
        comment: Some(comment),
        fields: wrapper_fields(object),
        methods: wrapper_methods(object, includes),
        includes: import_list(includes),
    }
}

fn variant_names(object: &Object) -> (out: Vec<String>)
    ensures
        out.deep_view() == enum_variants(object.deep_view()),
{
    let mut out: Vec<String> = Vec::new();
    let mut i: usize = 0;
    while i < object.variants.len()
        invariant
            i <= object.variants.len(),
            out.len() == i,
            forall|k: int|
                0 <= k < i ==> #[trigger] out[k]@ == object.variants[k].deep_view().display_name(),
        decreases object.variants.len() - i,
    {
        out.push(String::from_str(object.variants[i].display_name()));
        i += 1;
    }
    proof {
        assert(out.deep_view() =~= enum_variants(object.deep_view()));
    }
    out
}

/// Assembles the enum wrapper of a schema that has variants.
pub fn build_enum(file_name: &str, object: &Object, includes: &Vec<Object>) -> (out: Enum)
    ensures
        out.deep_view() == enum_of(file_name@, object.deep_view(), includes.deep_view()),
{
    let mut comment = String::from_str("Enum autogenerated from ");
    comment.append(file_name);
    comment.append(". DO NOT EDIT.\nOriginal name: ");
    comment.append(object.name.as_str());
    let mut methods: Vec<Method> = Vec::new();
    methods.push(single_enum_accessor::generate(object));
    methods.push(array_accessor::generate(object));
    proof {
        assert(methods.deep_view() =~= enum_methods(object.deep_view()));
    }
    Enum {
        name: append(object.display_name(), "Accessor"),
        package: object.package.clone(),
        comment: Some(comment),
        variants: variant_names(object),
        methods,
        includes: import_list(includes),
    }
}

/// What a schema compiles to: the wrapper's file in the output directory,
/// an enum where the schema has variants, a class where it has none.
pub open spec fn compiled(
    file_name: Seq<char>,
    output: Seq<char>,
    current: ObjectModel,
    includes: Seq<ObjectModel>,
) -> JavaSourceModel {
    JavaSourceModel {
        directory: output,
        file_name: current.display_name() + "Accessor.java"@,
        content: if current.variants.len() > 0 {
            enum_of(file_name, current, includes).source()
        } else {
            class_of(file_name, current, includes).source()
        },
    }
}

/// The models of resolved includes, or the error that stopped resolving.
pub open spec fn resolved(includes: Result<Vec<Object>, SourceError>) -> Result<
    Seq<ObjectModel>,
    SourceErrorModel,
> {
    match includes {
        Ok(list) => Ok(list.deep_view()),
        Err(error) => Err(error.deep_view()),
    }
}

/// The outcome for one parsed schema: an ambiguous one is refused before
/// anything else is looked at, then a failed include fails the file, else the
/// wrapper is compiled.
pub open spec fn file_outcome(
    file_name: Seq<char>,
    output: Seq<char>,
    current: ObjectModel,
    includes: Result<Seq<ObjectModel>, SourceErrorModel>,
) -> Result<JavaSourceModel, SourceErrorModel> {
    if current.is_ambiguous() {
        Err(SourceErrorModel::AmbiguousClassOrEnum)
    } else {
        match includes {
            Err(error) => Err(error),
            Ok(list) => Ok(compiled(file_name, output, current, list)),
        }
    }
}

/// Compiles one parsed schema with its resolved includes into the source of
/// its wrapper. `file_name` names the schema file in the wrapper's comment;
/// `output` is the directory the wrapper is meant for.
pub fn compile_file(
    file_name: &str,
    output: &str,
    current: &Object,
    includes: &Result<Vec<Object>, SourceError>,
) -> (out: Result<JavaSource, SourceError>)
    ensures
        match out {
            Ok(source) => file_outcome(
                file_name@,
                output@,
                current.deep_view(),
                resolved(*includes),
            ) == Ok::<JavaSourceModel, SourceErrorModel>(source.deep_view()),
            Err(error) => file_outcome(
                file_name@,
                output@,
                current.deep_view(),
                resolved(*includes),
            ) == Err::<JavaSourceModel, SourceErrorModel>(error.deep_view()),
        },
{
    if current.is_ambiguous() {
        return Err(SourceError::AmbiguousClassOrEnum);
    }
    match includes {
        Err(error) => Err(error.clone()),
        Ok(list) => {
            let content = if current.variants.len() > 0 {
                build_enum(file_name, current, list).source()
            } else {
                build_class(file_name, current, list).source()
            };
            Ok(
                JavaSource {
                    directory: String::from_str(output),
                    file_name: append(current.display_name(), "Accessor.java"),
                    content,
                },
            )
        },
    }
}

/// One entry of the schema tree as it was found on storage: a schema file
/// with what reading and parsing it gave, or a directory or entry that could
/// not be read, which holds the error in place of a schema.
#[derive(Debug)]
pub struct SchemaFile {
    /// The path of the entry, for the report of a failure.
    pub path: String,
    /// The file's name, for the comment in the wrapper.
    pub file_name: String,
    /// The directory that the wrapper is meant for.
    pub output: String,
    /// The parsed schema, or why there is none.
    pub schema: Result<Object, SourceError>,
    /// The parsed includes in order, or why the first that failed did.
    pub includes: Result<Vec<Object>, SourceError>,
}

/// Mathematical model of a [`SchemaFile`].
pub struct SchemaFileModel {
    pub path: Seq<char>,
    pub file_name: Seq<char>,
    pub output: Seq<char>,
    pub schema: Result<ObjectModel, SourceErrorModel>,
    pub includes: Result<Seq<ObjectModel>, SourceErrorModel>,
}

impl DeepView for SchemaFile {
    type V = SchemaFileModel;

    open spec fn deep_view(&self) -> SchemaFileModel {
        SchemaFileModel {
            path: self.path@,
            file_name: self.file_name@,
            output: self.output@,
            schema: match self.schema {
                Ok(object) => Ok(object.deep_view()),
                Err(error) => Err(error.deep_view()),
            },
            includes: resolved(self.includes),
        }
    }
}

impl SchemaFileModel {
    /// The outcome for this entry: the error of reading or parsing where
    /// there is one, else the outcome for the schema.
    pub open spec fn outcome(self) -> Result<JavaSourceModel, SourceErrorModel> {
        match self.schema {
            Err(error) => Err(error),
            Ok(object) => file_outcome(self.file_name, self.output, object, self.includes),
        }
    }
}

/// The failures among `entries`, each with its path, in order.
pub open spec fn failures(entries: Seq<SchemaFileModel>) -> Seq<(Seq<char>, SourceErrorModel)>
    decreases entries.len(),
{
    if entries.len() == 0 {
        Seq::empty()
    } else {
        let before = failures(entries.drop_last());
        match entries.last().outcome() {
            Err(error) => before.push((entries.last().path, error)),
            Ok(_) => before,
        }
    }
}

/// The sources of those of `entries` that compile, in order.
pub open spec fn sources(entries: Seq<SchemaFileModel>) -> Seq<JavaSourceModel>
    decreases entries.len(),
{
    if entries.len() == 0 {
        Seq::empty()
    } else {
        let before = sources(entries.drop_last());
        match entries.last().outcome() {
            Ok(source) => before.push(source),
            Err(_) => before,
        }
    }
}

/// Compiles every entry of a schema tree, given in the order of the walk.
/// The run succeeds with all sources only if no entry failed; else it fails
/// with every failure and hands out no source.
pub fn compile(entries: &Vec<SchemaFile>) -> (out: Result<
    Vec<JavaSource>,
    Vec<(String, SourceError)>,
>)
    ensures
        out is Ok <==> failures(entries.deep_view()).len() == 0,
        out is Ok ==> out->Ok_0.deep_view() == sources(entries.deep_view()),
        out is Err ==> out->Err_0.deep_view() == failures(entries.deep_view()),
{
    let mut failed: Vec<(String, SourceError)> = Vec::new();
    let mut completed: Vec<JavaSource> = Vec::new();
    let mut i: usize = 0;
    proof {
        assert(failed.deep_view() =~= failures(entries.deep_view().take(0)));
        assert(completed.deep_view() =~= sources(entries.deep_view().take(0)));
    }
    while i < entries.len()
        invariant
            i <= entries.len(),
            failed.deep_view() == failures(entries.deep_view().take(i as int)),
            completed.deep_view() == sources(entries.deep_view().take(i as int)),
        decreases entries.len() - i,
    {
        let entry = &entries[i];
        let ghost failed_before = failed.deep_view();
        let ghost completed_before = completed.deep_view();
        proof {
            let next = entries.deep_view().take(i + 1);
            assert(next.drop_last() =~= entries.deep_view().take(i as int));
            assert(next.last() == entry.deep_view());
        }
        let outcome = match &entry.schema {
            Err(error) => Err(error.clone()),
            Ok(object) => compile_file(
                entry.file_name.as_str(),
                entry.output.as_str(),
                object,
                &entry.includes,
            ),
        };
        match outcome {
            Ok(source) => {
                let ghost model = source.deep_view();
                completed.push(source);
                proof {
                    assert(completed.deep_view() =~= completed_before.push(model));
                }
            },
            Err(error) => {
                let ghost model = error.deep_view();
                failed.push((entry.path.clone(), error));
                proof {
                    assert(failed.deep_view() =~= failed_before.push((entry.path@, model)));
                }
            },
        }
        i += 1;
    }
    proof {
        assert(entries.deep_view().take(entries.len() as int) =~= entries.deep_view());
    }
    if failed.len() > 0 {
        Err(failed)
    } else {
        Ok(completed)
    }
}

/// A schema without variants compiles to a class whose fields are the
/// stored original object, then one field for each schema field in order,
/// under its display name and of its type's generated name.
pub proof fn law_class_fields(
    file_name: Seq<char>,
    output: Seq<char>,
    object: ObjectModel,
    includes: Seq<ObjectModel>,
    i: int,
)
    requires
        object.variants.len() == 0,
        0 <= i < object.fields.len(),
    ensures
        file_outcome(file_name, output, object, Ok(includes)) == Ok::<
            JavaSourceModel,
            SourceErrorModel,
        >(compiled(file_name, output, object, includes)),
        compiled(file_name, output, object, includes).content == class_of(
            file_name,
            object,
            includes,
        ).source(),
        class_of(file_name, object, includes).fields.len() == object.fields.len() + 1,
        class_of(file_name, object, includes).fields[0] == self_field(),
        class_of(file_name, object, includes).fields[i + 1].name
            == object.fields[i].display_name(),
        class_of(file_name, object, includes).fields[i + 1].java_type
            == object.fields[i].field_type.java_name(object),
{
}

/// A schema with only variants compiles to an enum whose constants are the
/// display names of the variants in order, and whose first method is the
/// accessor that switches over them.
pub proof fn law_enum_variants(
    file_name: Seq<char>,
    output: Seq<char>,
    object: ObjectModel,
    includes: Seq<ObjectModel>,
    i: int,
)
    requires
        object.is_enum_kind(),
        0 <= i < object.variants.len(),
    ensures
        file_outcome(file_name, output, object, Ok(includes)) == Ok::<
            JavaSourceModel,
            SourceErrorModel,
        >(compiled(file_name, output, object, includes)),
        compiled(file_name, output, object, includes).content == enum_of(
            file_name,
            object,
            includes,
        ).source(),
        enum_of(file_name, object, includes).variants.len() == object.variants.len(),
        enum_of(file_name, object, includes).variants[i] == object.variants[i].display_name(),
        enum_of(file_name, object, includes).methods[0] == single_enum_accessor::method(object),
{
}

/// A schema with both fields and variants is refused as ambiguous, whatever
/// its includes are.
pub proof fn law_ambiguous_is_refused(
    file_name: Seq<char>,
    output: Seq<char>,
    object: ObjectModel,
    includes: Result<Seq<ObjectModel>, SourceErrorModel>,
)
    requires
        object.fields.len() > 0,
        object.variants.len() > 0,
    ensures
        file_outcome(file_name, output, object, includes) == Err::<
            JavaSourceModel,
            SourceErrorModel,
        >(SourceErrorModel::AmbiguousClassOrEnum),
{
}

/// One entry that fails is enough for the run to report failures, and so to
/// hand out no source.
pub proof fn law_one_failure_fails_the_run(entries: Seq<SchemaFileModel>, i: int)
    requires
        0 <= i < entries.len(),
        entries[i].outcome() is Err,
    ensures
        failures(entries).len() > 0,
    decreases entries.len(),
{
    if i < entries.len() - 1 {
        assert(entries.drop_last()[i] == entries[i]);
        law_one_failure_fails_the_run(entries.drop_last(), i);
    }
}

/// Where no entry fails there is no failure, and the sources are the
/// outcomes of the entries, one for one and in order.
pub proof fn law_no_failure_gives_every_source(entries: Seq<SchemaFileModel>)
    requires
        forall|i: int| 0 <= i < entries.len() ==> (#[trigger] entries[i]).outcome() is Ok,
    ensures
        failures(entries).len() == 0,
        sources(entries).len() == entries.len(),
        forall|i: int|
            0 <= i < entries.len() ==> (#[trigger] entries[i]).outcome() == Ok::<
                JavaSourceModel,
                SourceErrorModel,
            >(sources(entries)[i]),
    decreases entries.len(),
{
    if entries.len() > 0 {
        let before = entries.drop_last();
        assert forall|i: int| 0 <= i < before.len() implies (#[trigger] before[i]).outcome() is Ok by {
            assert(before[i] == entries[i]);
        }
        law_no_failure_gives_every_source(before);
        assert(entries.last() == entries[entries.len() - 1]);
        assert forall|i: int| 0 <= i < entries.len() implies (#[trigger] entries[i]).outcome()
            == Ok::<JavaSourceModel, SourceErrorModel>(sources(entries)[i]) by {
            if i < entries.len() - 1 {
                assert(before[i] == entries[i]);
            }
        }
    }
}

} // verus!
