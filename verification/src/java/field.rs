//! Fields of a generated class.
use vstd::prelude::*;
use vstd::string::*;
use crate::java::visibility::Visibility;
use crate::text::{frame_lines, framed_lines};

verus! {

/// A field declaration.
#[derive(Debug)]
pub struct Field {
    pub name: String,
    pub java_type: String,
    pub comment: Option<String>,
    pub visibility: Visibility,
}

/// Mathematical model of a [`Field`].
pub struct FieldModel {
    pub name: Seq<char>,
    pub java_type: Seq<char>,
    pub comment: Option<Seq<char>>,
    pub visibility: Visibility,
}

impl DeepView for Field {
    type V = FieldModel;

    open spec fn deep_view(&self) -> FieldModel {
        FieldModel {
            name: self.name@,
            java_type: self.java_type@,
            comment: self.comment.deep_view(),
            visibility: self.visibility,
        }
    }
}

impl FieldModel {
    /// The comment lines above the declaration, each ended by a line feed
    /// and parted from the next by one more.
    pub open spec fn comment_source(self) -> Seq<char> {
        match self.comment {
            Some(comment) => framed_lines(comment, "\t// "@, "\n"@),
            None => Seq::empty(),
        }
    }

    /// The declaration with its comment, as one or more whole lines.
    pub open spec fn source(self) -> Seq<char> {
        self.comment_source() + "\t"@ + self.visibility.keyword_text() + " "@ + self.java_type
            + " "@ + self.name + ";\n"@
    }
}

impl Field {
    /// The declaration with its comment, as one or more whole lines.
    pub fn source(&self) -> (out: String)
        ensures
            out@ == self.deep_view().source(),
    {
        let mut out = match &self.comment {
            Some(comment) => frame_lines(comment.as_str(), "\t// ", "\n"),
            None => String::new(),
        };
        out.append("\t");
        out.append(self.visibility.keyword());
        out.append(" ");
        out.append(self.java_type.as_str());
        out.append(" ");
        out.append(self.name.as_str());
        out.append(";\n");
        out
    }
}

/// The declarations of all fields, in order.
pub open spec fn fields_source(fields: Seq<FieldModel>) -> Seq<char>
    decreases fields.len(),
{
    if fields.len() == 0 {
        Seq::empty()
    } else {
        fields_source(fields.drop_last()) + fields.last().source()
    }
}

/// The declarations of all fields, in order.
pub fn emit_fields(fields: &Vec<Field>) -> (out: String)
    ensures
        out@ == fields_source(fields.deep_view()),
{
    let mut out = String::new();
    let mut i: usize = 0;
    while i < fields.len()
        invariant
            i <= fields.len(),
            out@ == fields_source(fields.deep_view().take(i as int)),
        decreases fields.len() - i,
    {
        proof {
            let next = fields.deep_view().take(i + 1);
            assert(next.drop_last() =~= fields.deep_view().take(i as int));
            assert(next.last() == fields[i as int].deep_view());
        }
        let piece = fields[i].source();
        out.append(piece.as_str());
        i += 1;
    }
    proof {
        assert(fields.deep_view().take(fields.len() as int) =~= fields.deep_view());
    }
    out
}

} // verus!
