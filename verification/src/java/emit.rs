//! What the source of a class and of an enum have in common: the package
//! line, the imports and the comment above the declaration.
use vstd::prelude::*;
use vstd::string::*;
use crate::text::{frame_lines, framed_lines};

verus! {

/// One import line for each include, in order.
pub open spec fn imports(includes: Seq<Seq<char>>) -> Seq<char>
    decreases includes.len(),
{
    if includes.len() == 0 {
        Seq::empty()
    } else {
        imports(includes.drop_last()) + "import "@ + includes.last() + ";\n"@
    }
}

/// The import lines after a blank line, or nothing where nothing is
/// imported.
pub open spec fn import_block(includes: Seq<Seq<char>>) -> Seq<char> {
    if includes.len() == 0 {
        Seq::empty()
    } else {
        "\n"@ + imports(includes)
    }
}

/// The comment after a blank line, each of its lines behind `// `; the last
/// of them is not ended.
pub open spec fn comment_block(comment: Option<Seq<char>>) -> Seq<char> {
    match comment {
        Some(text) => "\n"@ + framed_lines(text, "// "@, Seq::empty()),
        None => Seq::empty(),
    }
}

/// Everything above the declaration.
pub open spec fn header(
    package: Seq<char>,
    includes: Seq<Seq<char>>,
    comment: Option<Seq<char>>,
) -> Seq<char> {
    "package "@ + package + ";\n"@ + import_block(includes) + comment_block(comment)
}

fn emit_imports(includes: &Vec<String>) -> (out: String)
    ensures
        out@ == import_block(includes.deep_view()),
{
    if includes.len() == 0 {
        return String::new();
    }
    let mut lines = String::new();
    let mut i: usize = 0;
    while i < includes.len()
        invariant
            i <= includes.len(),
            lines@ == imports(includes.deep_view().take(i as int)),
        decreases includes.len() - i,
    {
        proof {
            let next = includes.deep_view().take(i + 1);
            assert(next.drop_last() =~= includes.deep_view().take(i as int));
            assert(next.last() == includes[i as int]@);
        }
        lines.append("import ");
        lines.append(includes[i].as_str());
        lines.append(";\n");
        i += 1;
    }
    proof {
        assert(includes.deep_view().take(includes.len() as int) =~= includes.deep_view());
    }
    let mut out = String::from_str("\n");
    out.append(lines.as_str());
    out
}

fn emit_comment(comment: &Option<String>) -> (out: String)
    ensures
        out@ == comment_block(comment.deep_view()),
{
    match comment {
        Some(text) => {
            proof {
                reveal_strlit("");
                assert(""@ =~= Seq::<char>::empty());
            }
            let mut out = String::from_str("\n");
            out.append(frame_lines(text.as_str(), "// ", "").as_str());
            out
        },
        None => String::new(),
    }
}

/// Everything above the declaration.
pub fn emit_header(package: &str, includes: &Vec<String>, comment: &Option<String>) -> (out:
    String)
    ensures
        out@ == header(package@, includes.deep_view(), comment.deep_view()),
{
    let mut out = String::from_str("package ");
    out.append(package);
    out.append(";\n");
    out.append(emit_imports(includes).as_str());
    out.append(emit_comment(comment).as_str());
    out
}

} // verus!
