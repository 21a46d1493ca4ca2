//! Generated enums.
use vstd::prelude::*;
use vstd::string::*;
use crate::java::emit::{emit_header, header};
use crate::java::method::{emit_methods, methods_block, Method, MethodModel};
use crate::text::{framed, join, join_with};

verus! {

/// An enum declaration with all that stands in its file.
#[derive(Debug)]
pub struct Enum {
    pub name: String,
    pub package: String,
    pub comment: Option<String>,
    pub variants: Vec<String>,
    pub methods: Vec<Method>,
    pub includes: Vec<String>,
}

/// Mathematical model of an [`Enum`].
pub struct EnumModel {
    pub name: Seq<char>,
    pub package: Seq<char>,
    pub comment: Option<Seq<char>>,
    pub variants: Seq<Seq<char>>,
    pub methods: Seq<MethodModel>,
    pub includes: Seq<Seq<char>>,
}

impl DeepView for Enum {
    type V = EnumModel;

    open spec fn deep_view(&self) -> EnumModel {
        EnumModel {
            name: self.name@,
            package: self.package@,
            comment: self.comment.deep_view(),
            variants: self.variants.deep_view(),
            methods: self.methods.deep_view(),
            includes: self.includes.deep_view(),
        }
    }
}

impl EnumModel {
    /// The constants, one on a line behind a tab, parted by commas.
    pub open spec fn variants_source(self) -> Seq<char> {
        join(framed(self.variants, "\t"@, Seq::empty()), ",\n"@)
    }

    /// The text of the enum's file.
    pub open spec fn source(self) -> Seq<char> {
        header(self.package, self.includes, self.comment) + "\npublic enum "@ + self.name
            + " {\n"@ + self.variants_source() + ";\n"@ + methods_block(self.methods) + "\n}"@
    }
}

impl Enum {
    fn emit_variants(&self) -> (out: String)
        ensures
            out@ == self.deep_view().variants_source(),
    {
        let mut parts: Vec<String> = Vec::new();
        let mut i: usize = 0;
        while i < self.variants.len()
            invariant
                i <= self.variants.len(),
                parts.len() == i,
                forall|k: int| 0 <= k < i ==> #[trigger] parts[k]@ == "\t"@ + self.variants[k]@,
            decreases self.variants.len() - i,
        {
            let mut part = String::from_str("\t");
            part.append(self.variants[i].as_str());
            parts.push(part);
            i += 1;
        }
        proof {
            let want = framed(self.variants.deep_view(), "\t"@, Seq::empty());
            assert forall|k: int| 0 <= k < want.len() implies parts.deep_view()[k] == want[k] by {
                assert(parts[k]@ + Seq::<char>::empty() =~= parts[k]@);
            }
            assert(parts.deep_view() =~= want);
        }
        join_with(&parts, ",\n")
    }

    /// The text of the enum's file.
    pub fn source(&self) -> (out: String)
        ensures
            out@ == self.deep_view().source(),
    {
        let mut out = emit_header(self.package.as_str(), &self.includes, &self.comment);
        out.append("\npublic enum ");
        out.append(self.name.as_str());
        out.append(" {\n");
        out.append(self.emit_variants().as_str());
        out.append(";\n");
        out.append(emit_methods(&self.methods).as_str());
        out.append("\n}");
        out
    }
}

} // verus!
