//! Text helpers shared by the other modules: joining, replacing dots and
//! copying, each stated over sequences of characters.

use vstd::prelude::*;
use vstd::string::StringExecFns;

verus! {

/// std's `String::push` appends the one character to the end of the text
/// and leaves what was there as it is.
pub assume_specification[ String::push ](s: &mut String, ch: char)
    ensures
        final(s)@ == old(s)@.push(ch),
;

/// The parts written one after another with `sep` between neighbours.
pub open spec fn joined(parts: Seq<Seq<char>>, sep: Seq<char>) -> Seq<char>
    decreases parts.len(),
{
    if parts.len() == 0 {
        Seq::empty()
    } else if parts.len() == 1 {
        parts[0]
    } else {
        joined(parts.drop_last(), sep) + sep + parts.last()
    }
}

/// The character that stands for `c` in a file name: a dot becomes an underscore.
pub open spec fn safe_char(c: char) -> char {
    if c == '.' {
        '_'
    } else {
        c
    }
}

/// `s` with every dot replaced by an underscore.
pub open spec fn sanitized(s: Seq<char>) -> Seq<char> {
    Seq::new(s.len(), |i: int| safe_char(s[i]))
}

/// Joins `parts` with `sep` between neighbours.
pub fn join(parts: &Vec<String>, sep: &str) -> (out: String)
    ensures
        out@ == joined(parts.deep_view(), sep@),
{
    let mut out = String::new();
    let ghost views = parts.deep_view();
    let mut i: usize = 0;
    while i < parts.len()
        invariant
            i <= parts.len(),
            views == parts.deep_view(),
            out@ == joined(views.take(i as int), sep@),
        decreases parts.len() - i,
    {
        proof {
            assert(views.take(i as int + 1).drop_last() == views.take(i as int));
            assert(views.take(i as int + 1).last() == parts[i as int]@);
        }
        if i > 0 {
            out.append(sep);
        }
        out.append(parts[i].as_str());
        i += 1;
    }
    proof {
        assert(views.take(parts.len() as int) == views);
    }
    out
}

/// Copies `s`, writing an underscore for every dot.
pub fn sanitize(s: &str) -> (out: String)
    ensures
        out@ == sanitized(s@),
{
    let mut out = String::new();
    for c in it: s.chars()
        invariant
            it.seq() == s@,
            out@ == sanitized(s@.take(it.index() as int)),
    {
        if c == '.' {
            out.push('_');
        } else {
            out.push(c);
        }
        proof {
            assert(out@ == sanitized(s@.take(it.index() as int + 1)));
        }
    }
    proof {
        assert(s@.take(s@.len() as int) == s@);
    }
    out
}

/// The characters of a text that may be absent.
pub open spec fn optional_view(text: Option<String>) -> Option<Seq<char>> {
    match text {
        Some(s) => Some(s@),
        None => None,
    }
}

/// Copies a text that may be absent.
pub fn copy_optional(text: &Option<String>) -> (copy: Option<String>)
    ensures
        optional_view(copy) == optional_view(*text),
{
    match text {
        Some(s) => Some(s.clone()),
        None => None,
    }
}

} // verus!
