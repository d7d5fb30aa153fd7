//! Usage notes in rendered text.
//!
//! A template tells which optional fields it consumed by writing notes into
//! its output. A note is the name of a field between the characters
//! [`NOTE_OPEN`] and [`NOTE_CLOSE`], and a template writes it in the branch
//! that reads the field. Notes are no part of an artifact: once a template is
//! rendered they are lifted out of the text and recorded.
//!
//! The two characters are kept for notes. A text that a caller hands over
//! for a field may hold neither: it would be taken for a note, or end one.

use vstd::prelude::*;
use vstd::string::*;
use crate::text::{push_char, texts};

verus! {

/// The character that opens a usage note.
pub const NOTE_OPEN: char = '\u{1}';

/// The character that closes a usage note.
pub const NOTE_CLOSE: char = '\u{2}';

/// Whether `text` holds a character that is kept for usage notes.
pub open spec fn reserved(text: Seq<char>) -> bool {
    text.contains(NOTE_OPEN) || text.contains(NOTE_CLOSE)
}

/// Tells whether `text` holds a character that is kept for usage notes.
pub fn holds_reserved(text: &str) -> (held: bool)
    ensures
        held == reserved(text@),
{
    for c in it: text.chars()
        invariant
            it.seq() == text@,
            forall|k: int|
                0 <= k < it.index() ==> text@[k] != NOTE_OPEN && text@[k] != NOTE_CLOSE,
    {
        if c == NOTE_OPEN || c == NOTE_CLOSE {
            proof {
                assert(text@[it.index()] == c);
            }
            return true;
        }
    }
    false
}

/// How far a text has been read: the text outside notes, the names of the
/// notes that were closed, and the name of the note that is open, if one is.
pub ghost struct Scan {
    pub body: Seq<char>,
    pub names: Seq<Seq<char>>,
    pub open: Option<Seq<char>>,
}

/// Reads `raw` from left to right. Outside a note [`NOTE_OPEN`] opens one and
/// any other character belongs to the text. Inside a note [`NOTE_CLOSE`]
/// closes it and any other character belongs to its name.
pub open spec fn scan(raw: Seq<char>) -> Scan
    decreases raw.len(),
{
    if raw.len() == 0 {
        Scan { body: Seq::empty(), names: Seq::empty(), open: None }
    } else {
        let before = scan(raw.drop_last());
        let c = raw.last();
        match before.open {
            None => if c == NOTE_OPEN {
                Scan { open: Some(Seq::empty()), ..before }
            } else {
                Scan { body: before.body.push(c), ..before }
            },
            Some(name) => if c == NOTE_CLOSE {
                Scan { names: before.names.push(name), open: None, ..before }
            } else {
                Scan { open: Some(name.push(c)), ..before }
            },
        }
    }
}

/// `raw` without its notes.
pub open spec fn body(raw: Seq<char>) -> Seq<char> {
    scan(raw).body
}

/// The names of the notes of `raw`, in order. A note that the text leaves
/// open counts with the name that it has so far.
pub open spec fn names(raw: Seq<char>) -> Seq<Seq<char>> {
    match scan(raw).open {
        None => scan(raw).names,
        Some(name) => scan(raw).names.push(name),
    }
}

/// What is lifted out of a rendered text: the text itself and the names of
/// its notes.
#[derive(Debug)]
pub struct Lifted {
    /// The text without its notes.
    pub text: String,
    /// The names of the notes, in order.
    pub names: Vec<String>,
}

/// A text that opens no note is its own body and has no notes.
pub proof fn lemma_plain_text(raw: Seq<char>)
    requires
        !raw.contains(NOTE_OPEN),
    ensures
        body(raw) == raw,
        names(raw) == Seq::<Seq<char>>::empty(),
        scan(raw).open is None,
    decreases raw.len(),
{
    if raw.len() > 0 {
        let front = raw.drop_last();
        assert forall|c: char| front.contains(c) implies raw.contains(c) by {
            let k = choose|k: int| 0 <= k < front.len() && front[k] == c;
            assert(raw[k] == c);
        }
        lemma_plain_text(front);
        assert(raw[raw.len() - 1] == raw.last());
        assert(raw.last() != NOTE_OPEN);
        assert(front.push(raw.last()) =~= raw);
    }
}

/// Lifts the usage notes out of `raw`.
pub fn lift(raw: &str) -> (lifted: Lifted)
    ensures
        lifted.text@ == body(raw@),
        texts(lifted.names@) == names(raw@),
{
    let mut text = String::new();
    let mut found: Vec<String> = Vec::new();
    let mut name = String::new();
    let mut inside = false;
    for c in it: raw.chars()
        invariant
            it.seq() == raw@,
            text@ == scan(raw@.take(it.index())).body,
            texts(found@) == scan(raw@.take(it.index())).names,
            inside == (scan(raw@.take(it.index())).open is Some),
            inside ==> scan(raw@.take(it.index())).open == Some(name@),
    {
        proof {
            assert(raw@.take(it.index() + 1).drop_last() =~= raw@.take(it.index()));
            assert(raw@.take(it.index() + 1).last() == c);
        }
        if inside {
            if c == NOTE_CLOSE {
                let ghost before = texts(found@);
                found.push(name);
                name = String::new();
                inside = false;
                proof {
                    assert(texts(found@) =~= before.push(
                        scan(raw@.take(it.index())).open->0,
                    ));
                }
            } else {
                push_char(&mut name, c);
            }
        } else {
            if c == NOTE_OPEN {
                name = String::new();
                inside = true;
            } else {
                push_char(&mut text, c);
            }
        }
    }
    proof {
        assert(raw@.take(raw@.len() as int) =~= raw@);
    }
    if inside {
        let ghost before = texts(found@);
        let ghost last = name@;
        found.push(name);
        proof {
            assert(texts(found@) =~= before.push(last));
        }
    }
    Lifted { text, names: found }
}

} // verus!
