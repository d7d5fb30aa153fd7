//! Register lists, wrapped into lines.
//!
//! A log transport names the registers that it takes for itself. Each name
//! becomes a token, and the tokens are packed onto lines from left to right:
//! a token joins the current line while the line stays within the cap, and
//! opens a new line otherwise. Tokens keep their order and are never split.

use vstd::prelude::*;
use vstd::string::*;
use crate::text::{join, joined, joined_len, lemma_joined_len, literals, texts};

verus! {

/// The widest that a line of more than one token may be, in characters,
/// the indent not counted.
pub const LINE_CAP: usize = 96;

/// The token that stands for one register.
pub open spec fn token(reg: Seq<char>) -> Seq<char> {
    "!"@ + reg + ";"@
}

/// The tokens of a list of registers, in order.
pub open spec fn tokens(regs: Seq<Seq<char>>) -> Seq<Seq<char>> {
    Seq::new(regs.len(), |i: int| token(regs[i]))
}

/// The width of a line that holds `group`: its tokens and one space between
/// each two.
pub open spec fn width(group: Seq<Seq<char>>) -> nat {
    joined_len(group, 1)
}

/// Whether `next` may join a line that holds `group`.
pub open spec fn fits(group: Seq<Seq<char>>, next: Seq<char>) -> bool {
    width(group) + next.len() < LINE_CAP
}

/// The greedy packing of `items`: each token goes onto the last line if it
/// fits there, and onto a new line if it does not.
pub open spec fn packed(items: Seq<Seq<char>>) -> Seq<Seq<Seq<char>>>
    decreases items.len(),
{
    if items.len() == 0 {
        Seq::empty()
    } else {
        let before = packed(items.drop_last());
        if before.len() > 0 && fits(before.last(), items.last()) {
            before.drop_last().push(before.last().push(items.last()))
        } else {
            before.push(seq![items.last()])
        }
    }
}

/// The width of a line is the length of its tokens joined by single spaces.
pub proof fn lemma_width_is_joined_len(group: Seq<Seq<char>>)
    ensures
        width(group) == joined(group, " "@).len(),
{
    reveal_strlit(" ");
    assert(" "@.len() == 1);
    lemma_joined_len(group, " "@);
}

/// The text of the line that holds `group`.
pub open spec fn line(group: Seq<Seq<char>>) -> Seq<char> {
    "    "@ + joined(group, " "@)
}

/// The lines that `items` wrap into.
pub open spec fn wrapped(items: Seq<Seq<char>>) -> Seq<Seq<char>> {
    Seq::new(packed(items).len(), |i: int| line(packed(items)[i]))
}

/// The groups of `groups` one after another.
pub open spec fn unpacked(groups: Seq<Seq<Seq<char>>>) -> Seq<Seq<char>>
    decreases groups.len(),
{
    if groups.len() == 0 {
        Seq::empty()
    } else {
        unpacked(groups.drop_last()) + groups.last()
    }
}

/// Packing loses nothing and changes no order: the lines, read one after
/// another, give back the tokens. No line is empty.
pub proof fn lemma_packed_keeps_tokens(items: Seq<Seq<char>>)
    ensures
        unpacked(packed(items)) == items,
        forall|k: int| 0 <= k < packed(items).len() ==> (#[trigger] packed(items)[k]).len() > 0,
        items.len() == 0 <==> packed(items).len() == 0,
    decreases items.len(),
{
    if items.len() > 0 {
        let before = packed(items.drop_last());
        lemma_packed_keeps_tokens(items.drop_last());
        if before.len() > 0 && fits(before.last(), items.last()) {
            let after = before.drop_last().push(before.last().push(items.last()));
            assert(after.drop_last() =~= before.drop_last());
            assert(unpacked(before) == unpacked(before.drop_last()) + before.last());
            assert(unpacked(after) =~= unpacked(before).push(items.last()));
            assert(items =~= items.drop_last().push(items.last()));
        } else {
            let after = before.push(seq![items.last()]);
            assert(after.drop_last() =~= before);
            assert(unpacked(after) =~= unpacked(before).push(items.last()));
            assert(items =~= items.drop_last().push(items.last()));
        }
    }
}

/// A line breaks neither too late nor too early. Not too late: a line of
/// more than one token is at most `LINE_CAP` characters wide. Not too
/// early: the first token of each following line would have made the line
/// before it wider than that.
pub proof fn lemma_packed_breaks_exactly(items: Seq<Seq<char>>)
    ensures
        forall|k: int|
            0 <= k < packed(items).len() && (#[trigger] packed(items)[k]).len() > 1 ==> width(
                packed(items)[k],
            ) <= LINE_CAP,
        forall|k: int|
            0 < k < packed(items).len() ==> width(packed(items)[k - 1]) + 1 + (
            #[trigger] packed(items)[k])[0].len() > LINE_CAP,
    decreases items.len(),
{
    if items.len() > 0 {
        let before = packed(items.drop_last());
        let next = items.last();
        lemma_packed_breaks_exactly(items.drop_last());
        lemma_packed_keeps_tokens(items.drop_last());
        let after = packed(items);
        if before.len() > 0 && fits(before.last(), next) {
            let grown = before.last().push(next);
            assert(grown.drop_last() =~= before.last());
            assert(width(grown) == width(before.last()) + 1 + next.len());
            assert forall|k: int| 0 <= k < after.len() && (#[trigger] after[k]).len() > 1 implies width(
                after[k],
            ) <= LINE_CAP by {
                if k < after.len() - 1 {
                    assert(after[k] == before[k]);
                }
            }
            assert forall|k: int| 0 < k < after.len() implies width(after[k - 1]) + 1 + (
            #[trigger] after[k])[0].len() > LINE_CAP by {
                assert(after[k - 1] == before[k - 1]);
                if k < after.len() - 1 {
                    assert(after[k] == before[k]);
                } else {
                    assert(after[k][0] == before[k][0]);
                }
            }
        } else {
            assert forall|k: int| 0 <= k < after.len() && (#[trigger] after[k]).len() > 1 implies width(
                after[k],
            ) <= LINE_CAP by {
                if k < after.len() - 1 {
                    assert(after[k] == before[k]);
                }
            }
            assert forall|k: int| 0 < k < after.len() implies width(after[k - 1]) + 1 + (
            #[trigger] after[k])[0].len() > LINE_CAP by {
                assert(after[k - 1] == before[k - 1]);
                if k < after.len() - 1 {
                    assert(after[k] == before[k]);
                }
            }
        }
    }
}

/// Whether `groups` packs `items` as asked: nothing is lost or reordered, no
/// line is empty, no line of more than one token is wider than `LINE_CAP`,
/// and no line ends before a token that it had room for.
pub open spec fn exact(items: Seq<Seq<char>>, groups: Seq<Seq<Seq<char>>>) -> bool {
    &&& unpacked(groups) == items
    &&& forall|k: int| 0 <= k < groups.len() ==> (#[trigger] groups[k]).len() > 0
    &&& forall|k: int|
        0 <= k < groups.len() && (#[trigger] groups[k]).len() > 1 ==> width(groups[k])
            <= LINE_CAP
    &&& forall|k: int|
        0 < k < groups.len() ==> width(groups[k - 1]) + 1 + (#[trigger] groups[k])[0].len()
            > LINE_CAP
}

/// The greedy packing packs as asked.
pub proof fn lemma_packed_is_exact(items: Seq<Seq<char>>)
    ensures
        exact(items, packed(items)),
{
    lemma_packed_keeps_tokens(items);
    lemma_packed_breaks_exactly(items);
}

/// The greedy packing is the only one that packs as asked.
pub proof fn lemma_exact_is_packed(items: Seq<Seq<char>>, groups: Seq<Seq<Seq<char>>>)
    requires
        exact(items, groups),
    ensures
        groups == packed(items),
    decreases items.len(),
{
    if groups.len() == 0 {
        assert(items.len() == 0);
        assert(groups =~= packed(items));
    } else {
        let last = groups.last();
        let front = groups.drop_last();
        assert(groups[groups.len() - 1].len() > 0);
        assert(unpacked(groups) == unpacked(front) + last);
        let next = items.last();
        assert(last.last() == next);
        if last.len() == 1 {
            assert(unpacked(front) =~= items.drop_last());
            assert forall|k: int| 0 <= k < front.len() implies (#[trigger] front[k]).len()
                > 0 by {
                assert(front[k] == groups[k]);
            }
            assert forall|k: int| 0 <= k < front.len() && (#[trigger] front[k]).len()
                > 1 implies width(front[k]) <= LINE_CAP by {
                assert(front[k] == groups[k]);
            }
            assert forall|k: int| 0 < k < front.len() implies width(front[k - 1]) + 1 + (
            #[trigger] front[k])[0].len() > LINE_CAP by {
                assert(front[k] == groups[k]);
                assert(front[k - 1] == groups[k - 1]);
            }
            lemma_exact_is_packed(items.drop_last(), front);
            assert(last =~= seq![next]);
            if front.len() > 0 {
                let at = groups.len() - 1;
                assert(groups[at][0] == next);
                assert(groups[at - 1] == front.last());
                assert(!fits(front.last(), next));
            }
            assert(groups =~= front.push(seq![next]));
        } else {
            let shorter = last.drop_last();
            let rest = front.push(shorter);
            assert(rest.drop_last() =~= front);
            assert(unpacked(rest) == unpacked(front) + shorter);
            assert(unpacked(rest) =~= items.drop_last());
            assert(width(last) == width(shorter) + 1 + next.len());
            assert(width(groups[groups.len() - 1]) <= LINE_CAP);
            assert forall|k: int| 0 <= k < rest.len() implies (#[trigger] rest[k]).len() > 0 by {
                if k < front.len() {
                    assert(rest[k] == groups[k]);
                }
            }
            assert forall|k: int| 0 <= k < rest.len() && (#[trigger] rest[k]).len()
                > 1 implies width(rest[k]) <= LINE_CAP by {
                if k < front.len() {
                    assert(rest[k] == groups[k]);
                }
            }
            assert forall|k: int| 0 < k < rest.len() implies width(rest[k - 1]) + 1 + (
            #[trigger] rest[k])[0].len() > LINE_CAP by {
                assert(rest[k - 1] == groups[k - 1]);
                if k < front.len() {
                    assert(rest[k] == groups[k]);
                } else {
                    assert(rest[k][0] == groups[k][0]);
                }
            }
            lemma_exact_is_packed(items.drop_last(), rest);
            assert(fits(shorter, next));
            assert(shorter.push(next) =~= last);
            assert(groups =~= rest.drop_last().push(rest.last().push(next)));
        }
    }
}

/// Forms the token of each register.
pub fn reg_tokens(regs: &[&'static str]) -> (out: Vec<String>)
    ensures
        texts(out@) == tokens(literals(regs@)),
{
    let mut out: Vec<String> = Vec::new();
    let mut i: usize = 0;
    while i < regs.len()
        invariant
            i <= regs.len(),
            out.len() == i,
            forall|k: int| 0 <= k < i ==> (#[trigger] out@[k])@ == token(regs@[k]@),
        decreases regs.len() - i,
    {
        let mut item = String::from_str("!");
        item.append(regs[i]);
        item.append(";");
        out.push(item);
        i = i + 1;
    }
    proof {
        assert(texts(out@) =~= tokens(literals(regs@)));
    }
    out
}

/// Packs `items` onto lines of at most `LINE_CAP` characters, a token that
/// alone is wider on a line of its own.
pub fn pack(items: &Vec<String>) -> (groups: Vec<Vec<String>>)
    ensures
        groups.len() == packed(texts(items@)).len(),
        forall|k: int|
            0 <= k < groups.len() ==> texts((#[trigger] groups@[k])@) == packed(texts(items@))[k],
{
    let ghost all = texts(items@);
    let mut groups: Vec<Vec<String>> = Vec::new();
    let mut current: Vec<String> = Vec::new();
    let mut used: usize = 0;
    let mut i: usize = 0;
    while i < items.len()
        invariant
            i <= items.len(),
            all == texts(items@),
            i == 0 <==> current.len() == 0,
            i == 0 ==> groups.len() == 0,
            i > 0 ==> groups.len() + 1 == packed(all.take(i as int)).len(),
            i > 0 ==> texts(current@) == packed(all.take(i as int)).last(),
            forall|k: int|
                0 <= k < groups.len() ==> texts((#[trigger] groups@[k])@) == packed(
                    all.take(i as int),
                )[k],
            i > 0 ==> used == width(texts(current@)),
        decreases items.len() - i,
    {
        let ghost before = packed(all.take(i as int));
        let ghost after = packed(all.take(i + 1));
        let ghost next = all[i as int];
        proof {
            assert(all.take(i + 1).drop_last() =~= all.take(i as int));
            assert(all.take(i + 1).last() == next);
            assert(next == items@[i as int]@);
        }
        let size = items[i].as_str().unicode_len();
        let item = items[i].clone();
        if i > 0 && size < LINE_CAP && used < LINE_CAP - size {
            let ghost held = texts(current@);
            current.push(item);
            used = used + size + 1;
            proof {
                assert(texts(current@) =~= held.push(next));
                assert(texts(current@).drop_last() =~= held);
                assert(after.last() == held.push(next));
                assert forall|k: int| 0 <= k < groups.len() implies texts(
                    (#[trigger] groups@[k])@,
                ) == after[k] by {
                    assert(after[k] == before[k]);
                }
            }
        } else {
            if i > 0 {
                let ghost held = texts(current@);
                let ghost closed = groups@;
                groups.push(current);
                current = Vec::new();
                proof {
                    assert forall|k: int| 0 <= k < groups.len() implies texts(
                        (#[trigger] groups@[k])@,
                    ) == after[k] by {
                        if k < closed.len() {
                            assert(groups@[k] == closed[k]);
                        }
                        assert(after[k] == before[k]);
                    }
                }
            }
            current.push(item);
            used = size;
            proof {
                assert(texts(current@) =~= seq![next]);
            }
        }
        i = i + 1;
    }
    proof {
        assert(all.take(items.len() as int) =~= all);
    }
    if i > 0 {
        let ghost closed = groups@;
        groups.push(current);
        proof {
            assert forall|k: int| 0 <= k < groups.len() implies texts((#[trigger] groups@[k])@)
                == packed(all)[k] by {
                if k < closed.len() {
                    assert(groups@[k] == closed[k]);
                }
            }
        }
    }
    groups
}

/// Wraps `items` into indented lines, the tokens of a line one space apart.
/// No tokens give no lines.
pub fn wrap(items: &Vec<String>) -> (lines: Vec<String>)
    ensures
        texts(lines@) == wrapped(texts(items@)),
{
    let groups = pack(items);
    let mut lines: Vec<String> = Vec::new();
    let mut i: usize = 0;
    while i < groups.len()
        invariant
            i <= groups.len(),
            lines.len() == i,
            groups.len() == packed(texts(items@)).len(),
            forall|k: int|
                0 <= k < groups.len() ==> texts((#[trigger] groups@[k])@) == packed(
                    texts(items@),
                )[k],
            forall|k: int| 0 <= k < i ==> (#[trigger] lines@[k])@ == line(packed(texts(items@))[k]),
        decreases groups.len() - i,
    {
        let mut text = String::from_str("    ");
        let body = join(&groups[i], " ");
        text.append(body.as_str());
        lines.push(text);
        i = i + 1;
    }
    proof {
        assert(texts(lines@) =~= wrapped(texts(items@)));
    }
    lines
}

/// The register list of a log transport as one text: the wrapped lines of
/// its tokens, separated by line feeds.
pub fn reg_lines(regs: &[&'static str]) -> (text: String)
    ensures
        text@ == joined(wrapped(tokens(literals(regs@))), "\n"@),
{
    let items = reg_tokens(regs);
    let lines = wrap(&items);
    join(&lines, "\n")
}

} // verus!
