//! Methods of a generated class or enum.
use vstd::prelude::*;
use vstd::string::*;
use crate::java::visibility::Visibility;
use crate::text::{frame_lines, framed_lines, join, join_with};

verus! {

/// One parameter of a method.
#[derive(Debug)]
pub struct Argument {
    pub name: String,
    pub java_type: String,
}

/// Mathematical model of an [`Argument`].
pub struct ArgumentModel {
    pub name: Seq<char>,
    pub java_type: Seq<char>,
}

impl DeepView for Argument {
    type V = ArgumentModel;

    open spec fn deep_view(&self) -> ArgumentModel {
        ArgumentModel { name: self.name@, java_type: self.java_type@ }
    }
}

impl ArgumentModel {
    /// The parameter as it stands between the brackets of a signature.
    pub open spec fn source(self) -> Seq<char> {
        self.java_type + " "@ + self.name
    }
}

/// The parameter list of a method that takes one argument.
pub fn one_argument(name: &str, java_type: &str) -> (out: Vec<Argument>)
    ensures
        out.deep_view() == seq![ArgumentModel { name: name@, java_type: java_type@ }],
{
    let mut out: Vec<Argument> = Vec::new();
    out.push(Argument { name: String::from_str(name), java_type: String::from_str(java_type) });
    proof {
        assert(out.deep_view() =~= seq![ArgumentModel { name: name@, java_type: java_type@ }]);
    }
    out
}

/// A method or constructor with its body as text.
#[derive(Debug)]
pub struct Method {
    pub name: String,
    pub arguments: Vec<Argument>,
    pub return_type: Option<String>,
    pub is_constructor: bool,
    pub visibility: Visibility,
    pub is_static: bool,
    pub exceptions: Vec<String>,
    pub body: String,
}

/// Mathematical model of a [`Method`].
pub struct MethodModel {
    pub name: Seq<char>,
    pub arguments: Seq<ArgumentModel>,
    pub return_type: Option<Seq<char>>,
    pub is_constructor: bool,
    pub visibility: Visibility,
    pub is_static: bool,
    pub exceptions: Seq<Seq<char>>,
    pub body: Seq<char>,
}

impl DeepView for Method {
    type V = MethodModel;

    open spec fn deep_view(&self) -> MethodModel {
        MethodModel {
            name: self.name@,
            arguments: self.arguments.deep_view(),
            return_type: self.return_type.deep_view(),
            is_constructor: self.is_constructor,
            visibility: self.visibility,
            is_static: self.is_static,
            exceptions: self.exceptions.deep_view(),
            body: self.body@,
        }
    }
}

impl MethodModel {
    /// ` static` for a static method.
    pub open spec fn static_source(self) -> Seq<char> {
        if self.is_static {
            " static"@
        } else {
            Seq::empty()
        }
    }

    /// The return type after a blank, `void` where none is given; nothing
    /// for a constructor.
    pub open spec fn return_source(self) -> Seq<char> {
        if self.is_constructor {
            Seq::empty()
        } else {
            match self.return_type {
                Some(name) => " "@ + name,
                None => " "@ + "void"@,
            }
        }
    }

    /// The parameters as they stand in the signature, one text each.
    pub open spec fn argument_sources(self) -> Seq<Seq<char>> {
        Seq::new(self.arguments.len(), |i: int| self.arguments[i].source())
    }

    /// The `throws` clause, or nothing where no exception is declared.
    pub open spec fn throws_source(self) -> Seq<char> {
        if self.exceptions.len() > 0 {
            " throws "@ + join(self.exceptions, ", "@)
        } else {
            Seq::empty()
        }
    }

    /// The whole method: a blank line, the signature, the body indented by
    /// two tabs, and the closing bracket on a line of its own.
    pub open spec fn source(self) -> Seq<char> {
        "\n\t"@ + self.visibility.keyword_text() + self.static_source() + self.return_source()
            + " "@ + self.name + "("@ + join(self.argument_sources(), ", "@) + ")"@
            + self.throws_source() + " {"@ + framed_lines(self.body, "\t\t"@, Seq::empty())
            + "\n\t}\n"@
    }
}

impl Method {
    fn emit_return(&self) -> (out: String)
        ensures
            out@ == self.deep_view().return_source(),
    {
        if self.is_constructor {
            String::new()
        } else {
            let mut out = String::from_str(" ");
            match &self.return_type {
                Some(name) => out.append(name.as_str()),
                None => out.append("void"),
            }
            out
        }
    }

    fn emit_arguments(&self) -> (out: String)
        ensures
            out@ == join(self.deep_view().argument_sources(), ", "@),
    {
        let mut parts: Vec<String> = Vec::new();
        let mut i: usize = 0;
        while i < self.arguments.len()
            invariant
                i <= self.arguments.len(),
                parts.len() == i,
                forall|k: int|
                    0 <= k < i ==> #[trigger] parts[k]@ == self.arguments[k].deep_view().source(),
            decreases self.arguments.len() - i,
        {
            let mut part = self.arguments[i].java_type.clone();
            part.append(" ");
            part.append(self.arguments[i].name.as_str());
            parts.push(part);
            i += 1;
        }
        proof {
            assert(parts.deep_view() =~= self.deep_view().argument_sources());
        }
        join_with(&parts, ", ")
    }

    fn emit_throws(&self) -> (out: String)
        ensures
            out@ == self.deep_view().throws_source(),
    {
        if self.exceptions.len() > 0 {
            let mut out = String::from_str(" throws ");
            out.append(join_with(&self.exceptions, ", ").as_str());
            out
        } else {
            String::new()
        }
    }

    /// The source text of the method, as it stands inside a class or enum.
    pub fn source(&self) -> (out: String)
        ensures
            out@ == self.deep_view().source(),
    {
        let mut out = String::from_str("\n\t");
        out.append(self.visibility.keyword());
        if self.is_static {
            out.append(" static");
        } else {
            out.append(String::new().as_str());
        }
        out.append(self.emit_return().as_str());
        out.append(" ");
        out.append(self.name.as_str());
        out.append("(");
        out.append(self.emit_arguments().as_str());
        out.append(")");
        out.append(self.emit_throws().as_str());
        out.append(" {");
        proof {
            reveal_strlit("");
            assert(""@ =~= Seq::<char>::empty());
        }
        out.append(frame_lines(self.body.as_str(), "\t\t", "").as_str());
        out.append("\n\t}\n");
        out
    }
}

/// The source of all methods, in order.
pub open spec fn methods_source(methods: Seq<MethodModel>) -> Seq<char>
    decreases methods.len(),
{
    if methods.len() == 0 {
        Seq::empty()
    } else {
        methods_source(methods.drop_last()) + methods.last().source()
    }
}

/// The methods after a blank line, or nothing where there is no method.
pub open spec fn methods_block(methods: Seq<MethodModel>) -> Seq<char> {
    if methods.len() == 0 {
        Seq::empty()
    } else {
        "\n"@ + methods_source(methods)
    }
}

/// The methods after a blank line, or nothing where there is no method.
pub fn emit_methods(methods: &Vec<Method>) -> (out: String)
    ensures
        out@ == methods_block(methods.deep_view()),
{
    if methods.len() == 0 {
        return String::new();
    }
    let mut body = String::new();
    let mut i: usize = 0;
    while i < methods.len()
        invariant
            i <= methods.len(),
            body@ == methods_source(methods.deep_view().take(i as int)),
        decreases methods.len() - i,
    {
        proof {
            let next = methods.deep_view().take(i + 1);
            assert(next.drop_last() =~= methods.deep_view().take(i as int));
            assert(next.last() == methods[i as int].deep_view());
        }
        let piece = methods[i].source();
        body.append(piece.as_str());
        i += 1;
    }
    proof {
        assert(methods.deep_view().take(methods.len() as int) =~= methods.deep_view());
    }
    let mut out = String::from_str("\n");
    out.append(body.as_str());
    out
}

} // verus!
