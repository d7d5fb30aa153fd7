//! Text helpers shared by the catalog and the templates.

use vstd::prelude::*;
use vstd::string::*;

verus! {

/// The texts that a vector of strings holds, in order.
pub open spec fn texts(items: Seq<String>) -> Seq<Seq<char>> {
    Seq::new(items.len(), |i: int| items[i]@)
}

/// The texts that a slice of string literals holds, in order.
pub open spec fn literals(items: Seq<&'static str>) -> Seq<Seq<char>> {
    Seq::new(items.len(), |i: int| items[i]@)
}

/// `parts` written one after another with `sep` between neighbours.
pub open spec fn joined(parts: Seq<Seq<char>>, sep: Seq<char>) -> Seq<char>
    decreases parts.len(),
{
    if parts.len() == 0 {
        Seq::empty()
    } else if parts.len() == 1 {
        parts[0]
    } else {
        joined(parts.drop_last(), sep) + sep + parts.last()
    }
}

/// The length of a joined text: the parts and one separator between each two.
pub open spec fn joined_len(parts: Seq<Seq<char>>, sep_len: nat) -> nat
    decreases parts.len(),
{
    if parts.len() == 0 {
        0
    } else if parts.len() == 1 {
        parts[0].len()
    } else {
        joined_len(parts.drop_last(), sep_len) + sep_len + parts.last().len()
    }
}

/// A joined text is as long as its parts and separators together.
pub proof fn lemma_joined_len(parts: Seq<Seq<char>>, sep: Seq<char>)
    ensures
        joined(parts, sep).len() == joined_len(parts, sep.len()),
    decreases parts.len(),
{
    if parts.len() > 1 {
        lemma_joined_len(parts.drop_last(), sep);
    }
}

/// `std`'s equality of string slices: true exactly when both hold the same
/// characters in the same order.
#[verifier::external_body]
pub(crate) fn same_text(a: &str, b: &str) -> (same: bool)
    ensures
        same == (a@ == b@),
{
    a == b
}

/// Joins `parts` with `sep` between neighbours.
pub fn join(parts: &Vec<String>, sep: &str) -> (text: String)
    ensures
        text@ == joined(texts(parts@), sep@),
{
    let mut text = String::new();
    let mut i: usize = 0;
    while i < parts.len()
        invariant
            i <= parts.len(),
            text@ == joined(texts(parts@).take(i as int), sep@),
        decreases parts.len() - i,
    {
        let ghost before = texts(parts@).take(i as int);
        let ghost after = texts(parts@).take(i + 1);
        proof {
            assert(after.drop_last() =~= before);
            assert(after.last() == parts@[i as int]@);
        }
        if i > 0 {
            text.append(sep);
        }
        text.append(parts[i].as_str());
        proof {
            if i == 0 {
                assert(text@ =~= after[0]);
            }
        }
        i = i + 1;
    }
    proof {
        assert(texts(parts@).take(parts.len() as int) =~= texts(parts@));
    }
    text
}

/// Whether `c` is white space: one of the characters that Unicode gives
/// the property `White_Space`.
pub open spec fn white(c: char) -> bool {
    let code = c as u32;
    ||| 0x0009 <= code <= 0x000D
    ||| code == 0x0020
    ||| code == 0x0085
    ||| code == 0x00A0
    ||| code == 0x1680
    ||| 0x2000 <= code <= 0x200A
    ||| code == 0x2028
    ||| code == 0x2029
    ||| code == 0x202F
    ||| code == 0x205F
    ||| code == 0x3000
}

/// Tells whether `c` is white space.
pub fn is_white(c: char) -> (yes: bool)
    ensures
        yes == white(c),
{
    let code = c as u32;
    (0x0009 <= code && code <= 0x000D) || code == 0x0020 || code == 0x0085 || code == 0x00A0
        || code == 0x1680 || (0x2000 <= code && code <= 0x200A) || code == 0x2028 || code
        == 0x2029 || code == 0x202F || code == 0x205F || code == 0x3000
}

/// `std`'s `String::push`: appends one character.
#[verifier::external_body]
pub(crate) fn push_char(text: &mut String, c: char)
    ensures
        final(text)@ == old(text)@.push(c),
{
    text.push(c)
}

/// `text` without the white space at its end.
pub open spec fn trimmed(text: Seq<char>) -> Seq<char>
    decreases text.len(),
{
    if text.len() > 0 && white(text.last()) {
        trimmed(text.drop_last())
    } else {
        text
    }
}

/// Returns `text` without the white space at its end.
pub fn trim_end(text: &str) -> (kept: String)
    ensures
        kept@ == trimmed(text@),
{
    let mut kept = String::new();
    let mut held = String::new();
    for c in it: text.chars()
        invariant
            it.seq() == text@,
            kept@ == trimmed(text@.take(it.index())),
            kept@ + held@ == text@.take(it.index()),
    {
        proof {
            assert(text@.take(it.index() + 1).drop_last() =~= text@.take(it.index()));
            assert(text@.take(it.index() + 1).last() == c);
            assert(text@.take(it.index() + 1) =~= text@.take(it.index()).push(c));
        }
        if is_white(c) {
            push_char(&mut held, c);
            proof {
                assert(kept@ + held@ =~= text@.take(it.index() + 1));
            }
        } else {
            kept.append(held.as_str());
            push_char(&mut kept, c);
            held = String::new();
            proof {
                assert(kept@ + held@ =~= text@.take(it.index() + 1));
                assert(kept@ =~= text@.take(it.index() + 1));
            }
        }
    }
    proof {
        assert(text@.take(text@.len() as int) =~= text@);
    }
    kept
}

/// Copies each of `items` into a string of its own.
pub fn owned_all(items: &[&'static str]) -> (out: Vec<String>)
    ensures
        texts(out@) == literals(items@),
{
    let mut out: Vec<String> = Vec::new();
    let mut i: usize = 0;
    while i < items.len()
        invariant
            i <= items.len(),
            out.len() == i,
            forall|k: int| 0 <= k < i ==> (#[trigger] out@[k])@ == items@[k]@,
        decreases items.len() - i,
    {
        out.push(String::from_str(items[i]));
        i = i + 1;
    }
    proof {
        assert(texts(out@) =~= literals(items@));
    }
    out
}

} // verus!
