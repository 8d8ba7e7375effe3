//! Small text builders shared by the emitters: decimal numbers and
//! documentation comments.

use vstd::prelude::*;

verus! {

/// The decimal digit `d` as a one-character literal.
pub open spec fn digit_text(d: nat) -> Seq<char> {
    if d == 0 { "0"@ }
    else if d == 1 { "1"@ }
    else if d == 2 { "2"@ }
    else if d == 3 { "3"@ }
    else if d == 4 { "4"@ }
    else if d == 5 { "5"@ }
    else if d == 6 { "6"@ }
    else if d == 7 { "7"@ }
    else if d == 8 { "8"@ }
    else { "9"@ }
}

/// The decimal rendering of `n`, most significant digit first.
pub open spec fn decimal(n: nat) -> Seq<char>
    decreases n,
{
    if n < 10 {
        digit_text(n)
    } else {
        decimal(n / 10) + digit_text(n % 10)
    }
}

fn digit_str(d: usize) -> (r: &'static str)
    requires
        d < 10,
    ensures
        r@ == digit_text(d as nat),
{
    if d == 0 { "0" }
    else if d == 1 { "1" }
    else if d == 2 { "2" }
    else if d == 3 { "3" }
    else if d == 4 { "4" }
    else if d == 5 { "5" }
    else if d == 6 { "6" }
    else if d == 7 { "7" }
    else if d == 8 { "8" }
    else { "9" }
}

/// Appends the decimal rendering of `n`.
pub fn push_decimal(s: &mut String, n: usize)
    ensures
        final(s)@ == old(s)@ + decimal(n as nat),
    decreases n,
{
    if n >= 10 {
        push_decimal(s, n / 10);
    }
    s.append(digit_str(n % 10));
    assert(final(s)@ =~= old(s)@ + decimal(n as nat));
}

/// Documentation text with every line break followed by a fresh comment
/// marker.
pub open spec fn doc_body(t: Seq<char>) -> Seq<char>
    decreases t.len(),
{
    if t.len() == 0 {
        Seq::empty()
    } else {
        doc_body(t.drop_last()) + if t.last() == '\n' {
            "\n/// "@
        } else {
            seq![t.last()]
        }
    }
}

/// Documentation rendered as a comment block: nothing when there is none,
/// else `/// ` lines ended by a line break.
pub open spec fn doc_text(docs: Option<String>) -> Seq<char> {
    match docs {
        Some(t) => "/// "@ + doc_body(t@) + "\n"@,
        None => Seq::empty(),
    }
}

/// Appends the comment block of `docs`.
pub fn add_docs(s: &mut String, docs: &Option<String>)
    ensures
        final(s)@ == old(s)@ + doc_text(*docs),
{
    match docs {
        None => {
            assert(final(s)@ =~= old(s)@ + doc_text(*docs));
        },
        Some(t) => {
            s.append("/// ");
            let text = t.as_str();
            let len = text.unicode_len();
            let mut i: usize = 0;
            while i < len
                invariant
                    i <= len,
                    len == text@.len(),
                    text@ == t@,
                    s@ == old(s)@ + "/// "@ + doc_body(text@.subrange(0, i as int)),
                decreases len - i,
            {
                let c = text.get_char(i);
                assert(text@.subrange(0, i + 1).drop_last() =~= text@.subrange(0, i as int));
                if c == '\n' {
                    s.append("\n/// ");
                } else {
                    let one = text.substring_char(i, i + 1);
                    assert(one@ =~= seq![c]);
                    s.append(one);
                }
                assert(s@ =~= old(s)@ + "/// "@ + doc_body(text@.subrange(0, i + 1)));
                i = i + 1;
            }
            assert(text@.subrange(0, len as int) =~= t@);
            s.append("\n");
            assert(s@ =~= old(s)@ + doc_text(*docs));
        },
    }
}

} // verus!
