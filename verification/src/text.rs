//! Small text operations with exact contracts.

use vstd::prelude::*;
use vstd::string::*;

verus! {

/// The character sequences of a list of strings.
pub open spec fn lines_view(lines: Seq<String>) -> Seq<Seq<char>> {
    lines.map_values(|line: String| line@)
}

/// The lines written one after another with `separator` between neighbours.
pub open spec fn joined(lines: Seq<Seq<char>>, separator: Seq<char>) -> Seq<char>
    decreases lines.len(),
{
    if lines.len() == 0 {
        Seq::<char>::empty()
    } else if lines.len() == 1 {
        lines[0]
    } else {
        joined(lines.drop_last(), separator) + separator + lines.last()
    }
}

/// `text` without the run of `unwanted` characters at its end.
pub open spec fn without_trailing(text: Seq<char>, unwanted: char) -> Seq<char>
    decreases text.len(),
{
    if text.len() > 0 && text.last() == unwanted {
        without_trailing(text.drop_last(), unwanted)
    } else {
        text
    }
}

/// Joins `lines` with a line feed between neighbours.
pub fn join_lines(lines: &Vec<String>) -> (text: String)
    ensures
        text@ == joined(lines_view(lines@), "\n"@),
{
    let mut text = String::new();
    let mut i: usize = 0;
    while i < lines.len()
        invariant
            i <= lines.len(),
            text@ == joined(lines_view(lines@).take(i as int), "\n"@),
        decreases lines.len() - i,
    {
        let ghost before = lines_view(lines@).take(i as int);
        let ghost after = lines_view(lines@).take(i as int + 1);
        assert(after.drop_last() =~= before);
        assert(after.last() == lines@[i as int]@);
        if i > 0 {
            text.append("\n");
        }
        text.append(lines[i].as_str());
        assert(text@ =~= joined(after, "\n"@));
        i = i + 1;
    }
    assert(lines_view(lines@).take(i as int) =~= lines_view(lines@));
    text
}

/// Copies `text` without the slashes at its end.
pub fn trim_trailing_slashes(text: &str) -> (trimmed: String)
    ensures
        trimmed@ == without_trailing(text@, '/'),
{
    let mut end: usize = text.unicode_len();
    assert(text@.take(end as int) =~= text@);
    while end > 0 && text.get_char(end - 1) == '/'
        invariant
            end <= text@.len(),
            without_trailing(text@, '/') == without_trailing(text@.take(end as int), '/'),
        decreases end,
    {
        assert(text@.take(end as int).drop_last() =~= text@.take(end as int - 1));
        end = end - 1;
    }
    String::from_str(text.substring_char(0, end))
}

} // verus!
