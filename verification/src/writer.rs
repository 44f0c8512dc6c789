//! The emission writer: lines of text at a level of indentation.

use vstd::prelude::*;
use vstd::string::*;

verus! {

/// The indentation of a level: four spaces for each.
pub open spec fn indentation(level: nat) -> Seq<char>
    decreases level,
{
    if level == 0 {
        Seq::empty()
    } else {
        indentation((level - 1) as nat) + "    "@
    }
}

/// One line: the indentation, the content and a line feed.
pub open spec fn line(content: Seq<char>, level: nat) -> Seq<char> {
    indentation(level) + content + "\n"@
}

/// The indentation of a level, as a string.
pub fn indent_text(indents: usize) -> (r: String)
    ensures
        r@ == indentation(indents as nat),
{
    let mut r = String::new();
    let mut i: usize = 0;
    while i < indents
        invariant
            i <= indents,
            r@ == indentation(i as nat),
        decreases indents - i,
    {
        r.append("    ");
        i = i + 1;
    }
    r
}

/// One line, as a string.
pub fn line_text(content: &str, indents: usize) -> (r: String)
    ensures
        r@ == line(content@, indents as nat),
{
    let mut r = indent_text(indents);
    r.append(content);
    r.append("\n");
    r
}

/// Appends one line to `out`.
pub fn write_line(out: &mut String, content: &str, indents: usize)
    ensures
        final(out)@ == old(out)@ + line(content@, indents as nat),
{
    out.append(line_text(content, indents).as_str());
}

} // verus!
