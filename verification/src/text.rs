//! Plain-text helpers: the white-space test that decides whether clipboard
//! content is worth recording, and the short display label shown for an entry.

use vstd::prelude::*;

verus! {

/// How many characters of an entry are shown before the label is cut short.
pub const PREVIEW_LIMIT: usize = 50;

/// A character that trimming removes: the Unicode white-space set.
pub open spec fn is_space(c: char) -> bool {
    ||| c == ' '
    ||| c == '\t'
    ||| c == '\n'
    ||| c == '\r'
    ||| c == '\u{000b}'
    ||| c == '\u{000c}'
    ||| c == '\u{0085}'
    ||| c == '\u{00a0}'
    ||| c == '\u{1680}'
    ||| c == '\u{2000}'
    ||| c == '\u{2001}'
    ||| c == '\u{2002}'
    ||| c == '\u{2003}'
    ||| c == '\u{2004}'
    ||| c == '\u{2005}'
    ||| c == '\u{2006}'
    ||| c == '\u{2007}'
    ||| c == '\u{2008}'
    ||| c == '\u{2009}'
    ||| c == '\u{200a}'
    ||| c == '\u{2028}'
    ||| c == '\u{2029}'
    ||| c == '\u{202f}'
    ||| c == '\u{205f}'
    ||| c == '\u{3000}'
}

/// Text that trims to nothing: every character is white space.
pub open spec fn spec_blank(s: Seq<char>) -> bool {
    forall|i: int| 0 <= i < s.len() ==> is_space(s[i])
}

fn is_space_char(c: char) -> (r: bool)
    ensures
        r == is_space(c),
{
    c == ' ' || c == '\t' || c == '\n' || c == '\r' || c == '\u{000b}' || c == '\u{000c}'
        || c == '\u{0085}' || c == '\u{00a0}' || c == '\u{1680}' || c == '\u{2000}'
        || c == '\u{2001}' || c == '\u{2002}' || c == '\u{2003}' || c == '\u{2004}'
        || c == '\u{2005}' || c == '\u{2006}' || c == '\u{2007}' || c == '\u{2008}'
        || c == '\u{2009}' || c == '\u{200a}' || c == '\u{2028}' || c == '\u{2029}'
        || c == '\u{202f}' || c == '\u{205f}' || c == '\u{3000}'
}

/// True exactly when the text is empty or all white space.
pub fn is_blank(s: &str) -> (r: bool)
    ensures
        r == spec_blank(s@),
{
    let n = s.unicode_len();
    let mut i: usize = 0;
    while i < n
        invariant
            i <= n,
            n == s@.len(),
            forall|j: int| 0 <= j < i ==> is_space(s@[j]),
        decreases n - i,
    {
        let c = s.get_char(i);
        if !is_space_char(c) {
            return false;
        }
        i += 1;
    }
    true
}

/// How a character is shown in an entry's label: line breaks become a visible mark.
pub open spec fn display_char(c: char) -> char {
    if c == '\n' {
        '\u{21b5}'
    } else {
        c
    }
}

/// The label shown for stored content: the text with line breaks made visible,
/// cut to the first `PREVIEW_LIMIT` characters with an ellipsis when longer.
pub open spec fn spec_preview(s: Seq<char>) -> Seq<char> {
    if s.len() > PREVIEW_LIMIT {
        s.take(PREVIEW_LIMIT as int).map_values(|c: char| display_char(c)) + "..."@
    } else {
        s.map_values(|c: char| display_char(c))
    }
}

/// Relies on String::push: appends exactly the given character.
#[verifier::external_body]
fn push_char(s: &mut String, c: char)
    ensures
        final(s)@ == old(s)@.push(c),
{
    s.push(c)
}

/// Builds the display label for one history entry.
pub fn preview_label(s: &str) -> (r: String)
    ensures
        r@ == spec_preview(s@),
{
    let n = s.unicode_len();
    let k = if n > PREVIEW_LIMIT {
        PREVIEW_LIMIT
    } else {
        n
    };
    let mut out = String::new();
    let mut i: usize = 0;
    while i < k
        invariant
            i <= k,
            k <= n,
            n == s@.len(),
            out@ == s@.take(i as int).map_values(|c: char| display_char(c)),
        decreases k - i,
    {
        let c = s.get_char(i);
        let d = if c == '\n' {
            '\u{21b5}'
        } else {
            c
        };
        push_char(&mut out, d);
        proof {
            assert(out@ =~= s@.take(i + 1).map_values(|c: char| display_char(c)));
        }
        i += 1;
    }
    if n > PREVIEW_LIMIT {
        out.append("...");
        proof {
            assert(out@ =~= spec_preview(s@));
        }
    } else {
        proof {
            assert(s@.take(n as int) =~= s@);
            assert(out@ =~= spec_preview(s@));
        }
    }
    out
}

} // verus!
