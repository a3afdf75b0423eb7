//! Scope texts: lists of scope names written with a space between them.

use vstd::prelude::*;
use vstd::string::{StrSliceExecFns, StringExecFns};

verus! {

/// How many characters stand before the first space of a text, or in the
/// whole text where it holds no space.
pub open spec fn run_length(text: Seq<char>) -> nat
    decreases text.len(),
{
    if text.len() == 0 || text[0] == ' ' {
        0
    } else {
        1 + run_length(text.drop_first())
    }
}

/// The leading run of a text lies within the text.
pub proof fn lemma_run_length_bound(text: Seq<char>)
    ensures
        run_length(text) <= text.len(),
    decreases text.len(),
{
    if text.len() > 0 && text[0] != ' ' {
        lemma_run_length_bound(text.drop_first());
    }
}

/// The names in a scope text: its longest runs of characters other than a
/// space, in the order in which they stand. Spaces in a row, and spaces at
/// either end, separate nothing.
pub open spec fn names(text: Seq<char>) -> Seq<Seq<char>>
    decreases text.len(),
{
    if text.len() == 0 {
        Seq::empty()
    } else if text[0] == ' ' {
        names(text.drop_first())
    } else {
        proof {
            lemma_run_length_bound(text);
        }
        seq![text.take(run_length(text) as int)] + names(text.skip(run_length(text) as int))
    }
}

/// The scope text of a list of names: the names in order, one space between
/// neighbours.
pub open spec fn joined(list: Seq<Seq<char>>) -> Seq<char>
    decreases list.len(),
{
    if list.len() == 0 {
        Seq::empty()
    } else if list.len() == 1 {
        list[0]
    } else {
        joined(list.drop_last()) + seq![' '] + list.last()
    }
}

/// Whether a text can stand in a scope text as one name: it holds at least
/// one character and no space.
pub open spec fn is_name(text: Seq<char>) -> bool {
    text.len() > 0 && forall|k: int| 0 <= k < text.len() ==> text[k] != ' '
}

/// A run of characters without a space, closed by a space or by the end of the
/// text, is the leading run of what starts with it.
proof fn lemma_run_length(text: Seq<char>, from: int, to: int)
    requires
        0 <= from <= to <= text.len(),
        forall|k: int| from <= k < to ==> text[k] != ' ',
        to == text.len() || text[to] == ' ',
    ensures
        run_length(text.skip(from)) == to - from,
    decreases to - from,
{
    if from < to {
        assert(text.skip(from).drop_first() =~= text.skip(from + 1));
        lemma_run_length(text, from + 1, to);
    }
}

/// The leading run of a text ends where the text ends, whatever follows the
/// space after it.
proof fn lemma_run_length_before_space(head: Seq<char>, tail: Seq<char>)
    ensures
        run_length(head + seq![' '] + tail) == run_length(head),
    decreases head.len(),
{
    let whole = head + seq![' '] + tail;
    if head.len() > 0 && head[0] != ' ' {
        assert(whole.drop_first() =~= head.drop_first() + seq![' '] + tail);
        lemma_run_length_before_space(head.drop_first(), tail);
    }
}

/// The names of two texts with a space between them are the names of the
/// first followed by the names of the second.
proof fn lemma_names_around_space(head: Seq<char>, tail: Seq<char>)
    ensures
        names(head + seq![' '] + tail) == names(head) + names(tail),
    decreases head.len(),
{
    let whole = head + seq![' '] + tail;
    if head.len() == 0 {
        assert(whole.drop_first() =~= tail);
    } else if head[0] == ' ' {
        assert(whole.drop_first() =~= head.drop_first() + seq![' '] + tail);
        lemma_names_around_space(head.drop_first(), tail);
    } else {
        let n = run_length(head) as int;
        lemma_run_length_before_space(head, tail);
        lemma_run_length_bound(head);
        assert(whole.take(n) =~= head.take(n));
        assert(whole.skip(n) =~= head.skip(n) + seq![' '] + tail);
        lemma_names_around_space(head.skip(n), tail);
    }
}

/// A list of names written as one scope text is read back as the same
/// list.
pub proof fn lemma_names_of_joined(list: Seq<Seq<char>>)
    requires
        forall|i: int| 0 <= i < list.len() ==> is_name(#[trigger] list[i]),
    ensures
        names(joined(list)) == list,
    decreases list.len(),
{
    if list.len() > 0 {
        let last = list.last();
        lemma_run_length(last, 0, last.len() as int);
        assert(last.take(last.len() as int) =~= last);
        assert(last.skip(last.len() as int) =~= Seq::<char>::empty());
        assert(names(Seq::<char>::empty()) =~= Seq::<Seq<char>>::empty());
        if list.len() > 1 {
            lemma_names_of_joined(list.drop_last());
            lemma_names_around_space(joined(list.drop_last()), last);
        }
    }
}

/// Splits a scope text into the names it holds.
pub fn split(text: &str) -> (r: Vec<String>)
    ensures
        r.deep_view() == names(text@),
{
    let n = text.unicode_len();
    let mut out: Vec<String> = Vec::new();
    let mut i: usize = 0;
    assert(text@.skip(0) =~= text@);
    while i < n
        invariant
            n == text@.len(),
            i <= n,
            out.deep_view() + names(text@.skip(i as int)) == names(text@),
        decreases n - i,
    {
        let ghost rest = text@.skip(i as int);
        if text.get_char(i) == ' ' {
            assert(rest.drop_first() =~= text@.skip(i + 1));
            i = i + 1;
        } else {
            let start = i;
            while i < n && text.get_char(i) != ' '
                invariant
                    n == text@.len(),
                    start <= i <= n,
                    forall|k: int| start <= k < i ==> text@[k] != ' ',
                decreases n - i,
            {
                i = i + 1;
            }
            let name = text.substring_char(start, i).to_owned();
            proof {
                lemma_run_length(text@, start as int, i as int);
                assert(rest.take(i - start) =~= text@.subrange(start as int, i as int));
                assert(rest.skip(i - start) =~= text@.skip(i as int));
            }
            out.push(name);
        }
    }
    out
}

/// Writes a list of names as one scope text.
pub fn join(list: &Vec<String>) -> (r: String)
    ensures
        r@ == joined(list.deep_view()),
{
    let mut out = String::new();
    let mut i: usize = 0;
    while i < list.len()
        invariant
            i <= list.len(),
            out@ == joined(list.deep_view().take(i as int)),
        decreases list.len() - i,
    {
        let ghost done = list.deep_view().take(i as int);
        let ghost next = list.deep_view().take(i + 1);
        assert(next.drop_last() =~= done);
        if i > 0 {
            out.append(" ");
            proof {
                reveal_strlit(" ");
            }
        }
        out.append(list[i].as_str());
        i = i + 1;
    }
    assert(list.deep_view().take(list.len() as int) =~= list.deep_view());
    out
}

} // verus!
