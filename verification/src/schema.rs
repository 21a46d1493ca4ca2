//! The schema model and the type algebra over it.
use vstd::prelude::*;
use vstd::string::*;

verus! {

/// The declared type of a schema field.
#[derive(Debug)]
pub enum Type {
    Bool,
    I32,
    I64,
    String,
    U8,
    I16,
    F32,
    F64,
    SelfObject,
    Object(String),
    Array(Box<Type>),
}

/// Mathematical model of a [`Type`].
pub enum TypeModel {
    Bool,
    I32,
    I64,
    Text,
    U8,
    I16,
    F32,
    F64,
    SelfObject,
    Object(Seq<char>),
    Array(Box<TypeModel>),
}

impl DeepView for Type {
    type V = TypeModel;

    open spec fn deep_view(&self) -> TypeModel
        decreases self,
    {
        match self {
            Type::Bool => TypeModel::Bool,
            Type::I32 => TypeModel::I32,
            Type::I64 => TypeModel::I64,
            Type::String => TypeModel::Text,
            Type::U8 => TypeModel::U8,
            Type::I16 => TypeModel::I16,
            Type::F32 => TypeModel::F32,
            Type::F64 => TypeModel::F64,
            Type::SelfObject => TypeModel::SelfObject,
            Type::Object(name) => TypeModel::Object(name@),
            Type::Array(inner) => TypeModel::Array(Box::new((**inner).deep_view())),
        }
    }
}

/// One field of a class-kind schema.
#[derive(Debug)]
pub struct Field {
    pub name: String,
    pub rename: Option<String>,
    pub field_type: Type,
    pub hierarchy: bool,
}

/// Mathematical model of a [`Field`].
pub struct FieldModel {
    pub name: Seq<char>,
    pub rename: Option<Seq<char>>,
    pub field_type: TypeModel,
    pub hierarchy: bool,
}

impl DeepView for Field {
    type V = FieldModel;

    open spec fn deep_view(&self) -> FieldModel {
        FieldModel {
            name: self.name@,
            rename: self.rename.deep_view(),
            field_type: self.field_type.deep_view(),
            hierarchy: self.hierarchy,
        }
    }
}

/// One variant of an enum-kind schema. The aliases are carried along and
/// read by no synthesizer.
#[derive(Debug)]
pub struct Variant {
    pub name: String,
    pub rename: Option<String>,
    pub aliases: Vec<String>,
}

/// Mathematical model of a [`Variant`].
pub struct VariantModel {
    pub name: Seq<char>,
    pub rename: Option<Seq<char>>,
    pub aliases: Seq<Seq<char>>,
}

impl DeepView for Variant {
    type V = VariantModel;

    open spec fn deep_view(&self) -> VariantModel {
        VariantModel {
            name: self.name@,
            rename: self.rename.deep_view(),
            aliases: self.aliases.deep_view(),
        }
    }
}

/// A schema: the description of one class or enum to wrap.
#[derive(Debug)]
pub struct Object {
    pub name: String,
    pub rename: Option<String>,
    pub package: String,
    pub includes: Vec<String>,
    pub variants: Vec<Variant>,
    pub fields: Vec<Field>,
}

/// Mathematical model of an [`Object`].
pub struct ObjectModel {
    pub name: Seq<char>,
    pub rename: Option<Seq<char>>,
    pub package: Seq<char>,
    pub includes: Seq<Seq<char>>,
    pub variants: Seq<VariantModel>,
    pub fields: Seq<FieldModel>,
}

impl DeepView for Object {
    type V = ObjectModel;

    open spec fn deep_view(&self) -> ObjectModel {
        ObjectModel {
            name: self.name@,
            rename: self.rename.deep_view(),
            package: self.package@,
            includes: self.includes.deep_view(),
            variants: self.variants.deep_view(),
            fields: self.fields.deep_view(),
        }
    }
}

/// The rename where there is one, else the name.
pub open spec fn shown(name: Seq<char>, rename: Option<Seq<char>>) -> Seq<char> {
    match rename {
        Some(r) => r,
        None => name,
    }
}

impl FieldModel {
    pub open spec fn display_name(self) -> Seq<char> {
        shown(self.name, self.rename)
    }
}

impl VariantModel {
    pub open spec fn display_name(self) -> Seq<char> {
        shown(self.name, self.rename)
    }
}

impl ObjectModel {
    pub open spec fn display_name(self) -> Seq<char> {
        shown(self.name, self.rename)
    }

    /// Both fields and variants are given: neither a class nor an enum.
    pub open spec fn is_ambiguous(self) -> bool {
        self.fields.len() > 0 && self.variants.len() > 0
    }

    /// Only variants are given.
    pub open spec fn is_enum_kind(self) -> bool {
        self.variants.len() > 0 && self.fields.len() == 0
    }

    /// No variant is given.
    pub open spec fn is_class_kind(self) -> bool {
        self.variants.len() == 0
    }
}

impl TypeModel {
    /// The name of the type in the generated source.
    pub open spec fn java_name(self, object: ObjectModel) -> Seq<char>
        decreases self,
    {
        match self {
            TypeModel::Bool => "boolean"@,
            TypeModel::I32 => "int"@,
            TypeModel::I64 => "long"@,
            TypeModel::Text => "String"@,
            TypeModel::U8 => "byte"@,
            TypeModel::I16 => "short"@,
            TypeModel::F32 => "float"@,
            TypeModel::F64 => "double"@,
            TypeModel::Object(name) => name + "Accessor"@,
            TypeModel::Array(inner) => inner.java_name(object) + "[]"@,
            TypeModel::SelfObject => object.name + "Accessor"@,
        }
    }

    /// The schema name that the innermost type refers to, if it refers to one.
    pub open spec fn ends_in_object(self, object: ObjectModel) -> Option<Seq<char>>
        decreases self,
    {
        match self {
            TypeModel::Object(name) => Some(name),
            TypeModel::SelfObject => Some(object.name),
            TypeModel::Array(inner) => inner.ends_in_object(object),
            _ => None,
        }
    }

    pub open spec fn is_array(self) -> bool {
        self is Array
    }

    /// An array whose items are arrays. Only these two levels are looked at.
    pub open spec fn is_nested_array(self) -> bool {
        match self {
            TypeModel::Array(inner) => inner.is_array(),
            _ => false,
        }
    }

    /// A scalar, a string, or an array of primitives.
    pub open spec fn is_primitive(self) -> bool
        decreases self,
    {
        match self {
            TypeModel::SelfObject => false,
            TypeModel::Object(_) => false,
            TypeModel::Array(inner) => inner.is_primitive(),
            _ => true,
        }
    }

    /// The expression that a value of this type is read or cast with, before
    /// the cast of a root read is put round it.
    pub open spec fn cast(self, object: ObjectModel) -> Seq<char>
        decreases self, 0nat,
    {
        match self {
            TypeModel::Object(name) => name + "Accessor.access(value)"@,
            TypeModel::SelfObject => object.name + "Accessor.access(value)"@,
            TypeModel::Array(inner) => inner.accessor(false, object) + "[]"@,
            _ => self.java_name(object),
        }
    }

    /// The expression that turns the reflected `value` of a field of this
    /// type into what the wrapper stores.
    pub open spec fn accessor(self, root: bool, object: ObjectModel) -> Seq<char>
        decreases self, 1nat,
    {
        let target = self.ends_in_object(object);
        if target is Some && self.is_nested_array() {
            "("@ + self.java_name(object) + ")"@ + target.unwrap()
                + "Accessor.accessArrayNested(value)"@
        } else if target is Some && self.is_array() {
            "("@ + self.java_name(object) + ")"@ + target.unwrap()
                + "Accessor.accessArray((Object[])value)"@
        } else if root && target is None {
            "("@ + self.cast(object) + ")value"@
        } else {
            self.cast(object)
        }
    }
}

impl Type {
    /// The name of the type in the generated source.
    pub fn java_name(&self, object: &Object) -> (out: String)
        ensures
            out@ == self.deep_view().java_name(object.deep_view()),
        decreases self,
    {
        match self {
            Type::Bool => String::from_str("boolean"),
            Type::I32 => String::from_str("int"),
            Type::I64 => String::from_str("long"),
            Type::String => String::from_str("String"),
            Type::U8 => String::from_str("byte"),
            Type::I16 => String::from_str("short"),
            Type::F32 => String::from_str("float"),
            Type::F64 => String::from_str("double"),
            Type::Object(name) => {
                let mut out = name.clone();
                out.append("Accessor");
                out
            },
            Type::Array(inner) => {
                let mut out = inner.java_name(object);
                out.append("[]");
                out
            },
            Type::SelfObject => {
                let mut out = object.name.clone();
                out.append("Accessor");
                out
            },
        }
    }

    /// The schema name that the innermost type refers to, if it refers to one.
    pub fn ends_in_object<'a>(&'a self, object: &'a Object) -> (out: Option<&'a str>)
        ensures
            out.deep_view() == self.deep_view().ends_in_object(object.deep_view()),
        decreases self,
    {
        match self {
            Type::Object(name) => Some(name.as_str()),
            Type::SelfObject => Some(object.name.as_str()),
            Type::Array(inner) => inner.ends_in_object(object),
            _ => None,
        }
    }

    /// Whether this is an array of arrays.
    pub fn is_nested_array(&self) -> (out: bool)
        ensures
            out == self.deep_view().is_nested_array(),
    {
        match self {
            Type::Array(inner) => inner.is_array(),
            _ => false,
        }
    }

    /// Whether this is an array, of whatever items.
    pub fn is_array(&self) -> (out: bool)
        ensures
            out == self.deep_view().is_array(),
    {
        match self {
            Type::Array(_) => true,
            _ => false,
        }
    }

    /// Whether this is a scalar, a string, or an array of such.
    pub fn is_primitive(&self) -> (out: bool)
        ensures
            out == self.deep_view().is_primitive(),
        decreases self,
    {
        match self {
            Type::SelfObject => false,
            Type::Object(_) => false,
            Type::Array(inner) => inner.is_primitive(),
            _ => true,
        }
    }

    /// The expression that turns the reflected `value` of a field of this
    /// type into what the wrapper stores.
    pub fn generate_accessor(&self, root: bool, object: &Object) -> (out: String)
        ensures
            out@ == self.deep_view().accessor(root, object.deep_view()),
        decreases self,
    {
        let target = self.ends_in_object(object);
        if let Some(name) = target {
            if self.is_nested_array() {
                let mut out = String::from_str("(");
                out.append(self.java_name(object).as_str());
                out.append(")");
                out.append(name);
                out.append("Accessor.accessArrayNested(value)");
                return out;
            }
            if self.is_array() {
                let mut out = String::from_str("(");
                out.append(self.java_name(object).as_str());
                out.append(")");
                out.append(name);
                out.append("Accessor.accessArray((Object[])value)");
                return out;
            }
        }
        let cast = match self {
            Type::Object(name) => {
                let mut out = name.clone();
                out.append("Accessor.access(value)");
                out
            },
            Type::SelfObject => {
                let mut out = object.name.clone();
                out.append("Accessor.access(value)");
                out
            },
            Type::Array(inner) => {
                let mut out = inner.generate_accessor(false, object);
                out.append("[]");
                out
            },
            other => other.java_name(object),
        };
        if root && target.is_none() {
            let mut out = String::from_str("(");
            out.append(cast.as_str());
            out.append(")value");
            out
        } else {
            cast
        }
    }
}

impl Field {
    /// The rename where there is one, else the name.
    pub fn display_name(&self) -> (out: &str)
        ensures
            out@ == self.deep_view().display_name(),
    {
        match &self.rename {
            Some(rename) => rename.as_str(),
            None => self.name.as_str(),
        }
    }
}

impl Variant {
    /// The rename where there is one, else the name.
    pub fn display_name(&self) -> (out: &str)
        ensures
            out@ == self.deep_view().display_name(),
    {
        match &self.rename {
            Some(rename) => rename.as_str(),
            None => self.name.as_str(),
        }
    }
}

impl Object {
    /// The rename where there is one, else the name.
    pub fn display_name(&self) -> (out: &str)
        ensures
            out@ == self.deep_view().display_name(),
    {
        match &self.rename {
            Some(rename) => rename.as_str(),
            None => self.name.as_str(),
        }
    }

    /// Whether both fields and variants are given.
    pub fn is_ambiguous(&self) -> (out: bool)
        ensures
            out == self.deep_view().is_ambiguous(),
    {
        self.fields.len() > 0 && self.variants.len() > 0
    }

    /// Whether only variants are given.
    pub fn is_enum_kind(&self) -> (out: bool)
        ensures
            out == self.deep_view().is_enum_kind(),
    {
        self.variants.len() > 0 && self.fields.len() == 0
    }

    /// Whether no variant is given.
    pub fn is_class_kind(&self) -> (out: bool)
        ensures
            out == self.deep_view().is_class_kind(),
    {
        self.variants.len() == 0
    }
}

/// A primitive type is read with its own generated name: below the root as
/// the bare name, at the root as a cast of the reflected value to it.
pub proof fn law_primitive_is_cast_to_its_name(field_type: TypeModel, object: ObjectModel)
    requires
        field_type.is_primitive(),
    ensures
        field_type.accessor(false, object) == field_type.java_name(object),
        field_type.accessor(true, object) == "("@ + field_type.java_name(object) + ")value"@,
    decreases field_type,
{
    lemma_primitive_ends_in_no_object(field_type, object);
    match field_type {
        TypeModel::Array(inner) => {
            law_primitive_is_cast_to_its_name(*inner, object);
        },
        _ => {},
    }
}

/// A type that ends in a schema is read through that schema's wrapper, with
/// no cast of the reflected value round the call, at the root or below it.
pub proof fn law_wrapper_is_read_by_delegation(field_type: TypeModel, object: ObjectModel)
    requires
        !field_type.is_primitive(),
    ensures
        field_type.ends_in_object(object) is Some,
        field_type.accessor(true, object) == field_type.accessor(false, object),
        !field_type.is_array() ==> field_type.accessor(true, object)
            == field_type.ends_in_object(object).unwrap() + "Accessor.access(value)"@,
        field_type.is_array() && !field_type.is_nested_array() ==> field_type.accessor(
            true,
            object,
        ) == "("@ + field_type.java_name(object) + ")"@ + field_type.ends_in_object(
            object,
        ).unwrap() + "Accessor.accessArray((Object[])value)"@,
        field_type.is_nested_array() ==> field_type.accessor(true, object) == "("@
            + field_type.java_name(object) + ")"@ + field_type.ends_in_object(object).unwrap()
            + "Accessor.accessArrayNested(value)"@,
{
    lemma_primitive_ends_in_no_object(field_type, object);
}

/// A type is primitive exactly when it ends in no schema: every chain of
/// arrays ends either in a scalar or string, or in a wrapper.
pub proof fn lemma_primitive_ends_in_no_object(field_type: TypeModel, object: ObjectModel)
    ensures
        field_type.is_primitive() <==> field_type.ends_in_object(object) is None,
    decreases field_type,
{
    match field_type {
        TypeModel::Array(inner) => {
            lemma_primitive_ends_in_no_object(*inner, object);
        },
        _ => {},
    }
}

} // verus!
