//! Generated classes.
use vstd::prelude::*;
use vstd::string::*;
use crate::java::emit::{emit_header, header};
use crate::java::field::{emit_fields, fields_source, Field, FieldModel};
use crate::java::method::{emit_methods, methods_block, Method, MethodModel};

verus! {

/// Whether a declaration is a class or an interface.
#[derive(Debug, Clone, Copy)]
pub enum ClassType {
    Class,
    Interface,
}

impl Default for ClassType {
    fn default() -> (out: ClassType)
        ensures
            out == ClassType::Class,
    {
        ClassType::Class
    }
}

impl ClassType {
    /// The keyword of the declaration, with the blank after it.
    pub open spec fn keyword_text(self) -> Seq<char> {
        match self {
            ClassType::Class => "class "@,
            ClassType::Interface => "interface "@,
        }
    }
}

/// A class declaration with all that stands in its file.
#[derive(Debug)]
pub struct Class {
    pub name: String,
    pub class_type: ClassType,
    pub is_virtual: bool,
    pub package: String,
    pub comment: Option<String>,
    pub fields: Vec<Field>,
    pub methods: Vec<Method>,
    pub includes: Vec<String>,
}

/// Mathematical model of a [`Class`].
pub struct ClassModel {
    pub name: Seq<char>,
    pub class_type: ClassType,
    pub is_virtual: bool,
    pub package: Seq<char>,
    pub comment: Option<Seq<char>>,
    pub fields: Seq<FieldModel>,
    pub methods: Seq<MethodModel>,
    pub includes: Seq<Seq<char>>,
}

impl DeepView for Class {
    type V = ClassModel;

    open spec fn deep_view(&self) -> ClassModel {
        ClassModel {
            name: self.name@,
            class_type: self.class_type,
            is_virtual: self.is_virtual,
            package: self.package@,
            comment: self.comment.deep_view(),
            fields: self.fields.deep_view(),
            methods: self.methods.deep_view(),
            includes: self.includes.deep_view(),
        }
    }
}

impl ClassModel {
    /// `virtual ` for a virtual class.
    pub open spec fn virtual_source(self) -> Seq<char> {
        if self.is_virtual {
            "virtual "@
        } else {
            Seq::empty()
        }
    }

    /// The text of the class's file.
    pub open spec fn source(self) -> Seq<char> {
        header(self.package, self.includes, self.comment) + "\npublic "@ + self.virtual_source()
            + self.class_type.keyword_text() + self.name + " {\n"@ + fields_source(self.fields)
            + methods_block(self.methods) + "}"@
    }
}

impl Class {
    /// The text of the class's file.
    pub fn source(&self) -> (out: String)
        ensures
            out@ == self.deep_view().source(),
    {
        let mut out = emit_header(self.package.as_str(), &self.includes, &self.comment);
        out.append("\npublic ");
        if self.is_virtual {
            out.append("virtual ");
        } else {
            out.append(String::new().as_str());
        }
        match self.class_type {
            ClassType::Class => out.append("class "),
            ClassType::Interface => out.append("interface "),
        }
        out.append(self.name.as_str());
        out.append(" {\n");
        out.append(emit_fields(&self.fields).as_str());
        out.append(emit_methods(&self.methods).as_str());
        out.append("}");
        out
    }
}

} // verus!
