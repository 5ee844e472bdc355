//! A strongly typed embedded DSL for building HTML documents with inline CSS.
//!
//! The library models an HTML document as a tree of nodes: leaf text nodes,
//! void elements (which never carry children) and container elements (which
//! hold an ordered sequence of child nodes). Elements carry an ordered
//! attribute list and at most one style block. Serialization is a pure
//! depth-first traversal whose exact output is pinned down by spec functions.

use vstd::prelude::*;
use vstd::string::StrSliceExecFns;

pub mod attr;
pub mod css;
pub mod nodes;

verus! {

/// The Unicode `White_Space` code points.
pub open spec fn spec_is_whitespace(c: char) -> bool {
    c == '\u{0009}' || c == '\u{000A}' || c == '\u{000B}' || c == '\u{000C}' || c == '\u{000D}'
        || c == '\u{0020}' || c == '\u{0085}' || c == '\u{00A0}' || c == '\u{1680}'
        || c == '\u{2000}' || c == '\u{2001}' || c == '\u{2002}' || c == '\u{2003}'
        || c == '\u{2004}' || c == '\u{2005}' || c == '\u{2006}' || c == '\u{2007}'
        || c == '\u{2008}' || c == '\u{2009}' || c == '\u{200A}' || c == '\u{2028}'
        || c == '\u{2029}' || c == '\u{202F}' || c == '\u{205F}' || c == '\u{3000}'
}

fn is_whitespace(c: char) -> (r: bool)
    ensures
        r == spec_is_whitespace(c),
{
    c == '\u{0009}' || c == '\u{000A}' || c == '\u{000B}' || c == '\u{000C}' || c == '\u{000D}'
        || c == '\u{0020}' || c == '\u{0085}' || c == '\u{00A0}' || c == '\u{1680}'
        || c == '\u{2000}' || c == '\u{2001}' || c == '\u{2002}' || c == '\u{2003}'
        || c == '\u{2004}' || c == '\u{2005}' || c == '\u{2006}' || c == '\u{2007}'
        || c == '\u{2008}' || c == '\u{2009}' || c == '\u{200A}' || c == '\u{2028}'
        || c == '\u{2029}' || c == '\u{202F}' || c == '\u{205F}' || c == '\u{3000}'
}

/// Relies on std's String::push: it appends the given character to the string.
#[verifier::external_body]
pub(crate) fn push_char(s: &mut String, c: char)
    ensures
        final(s)@ == old(s)@.push(c),
{
    s.push(c)
}

/// A name with every whitespace character dropped, all others kept in order.
pub open spec fn spec_remove_whitespace(s: Seq<char>) -> Seq<char> {
    s.filter(|c: char| !spec_is_whitespace(c))
}

/// Drops every whitespace character of a name, keeping all others in order.
///
/// Multi-word wire names are written with interior whitespace in some
/// sources; the serialized form must carry the name without it.
pub fn remove_whitespace(string: &str) -> (r: String)
    ensures
        r@ == spec_remove_whitespace(string@),
{
    let n = string.unicode_len();
    let mut out = String::new();
    proof {
        reveal(Seq::filter);
        assert(string@.take(0int) =~= Seq::<char>::empty());
        assert(out@ == spec_remove_whitespace(string@.take(0int)));
    }
    let mut i: usize = 0;
    while i < n
        invariant
            n == string@.len(),
            i <= n,
            out@ == spec_remove_whitespace(string@.take(i as int)),
        decreases n - i,
    {
        let c = string.get_char(i);
        if !is_whitespace(c) {
            push_char(&mut out, c);
        }
        proof {
            reveal(Seq::filter);
            assert(string@.take(i + 1int).drop_last() =~= string@.take(i as int));
            assert(string@.take(i + 1int).last() == c);
            assert(out@ == spec_remove_whitespace(string@.take(i + 1int)));
        }
        i = i + 1;
    }
    proof {
        assert(string@.take(n as int) =~= string@);
    }
    out
}

} // verus!
