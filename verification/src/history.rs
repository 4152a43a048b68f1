//! The history of used descriptors: an ordered list of texts, kept in a
//! line-oriented file.
//!
//! A used entry that the history does not hold is appended; one that it
//! holds moves to the front.

use vstd::prelude::*;
use vstd::string::{StrSliceExecFns, StringExecFns};
use crate::text::{trim, trimmed};

verus! {

/// The entries of a history as plain texts.
pub open spec fn entries(history: Seq<String>) -> Seq<Seq<char>> {
    history.map_values(|entry: String| entry@)
}

/// The index of the first occurrence of `entry` in `history`, or the length
/// of `history` where it does not occur.
pub open spec fn first_index(history: Seq<Seq<char>>, entry: Seq<char>) -> int
    decreases history.len(),
{
    if history.len() == 0 {
        0
    } else if history[0] == entry {
        0
    } else {
        1 + first_index(history.drop_first(), entry)
    }
}

/// The history after `entry` was used.
pub open spec fn used(history: Seq<Seq<char>>, entry: Seq<char>) -> Seq<Seq<char>> {
    let i = first_index(history, entry);
    if i == history.len() {
        history.push(entry)
    } else {
        seq![entry] + history.remove(i)
    }
}

/// `first_index` is the one index at which `entry` stands with no
/// occurrence before it, and the length where there is none.
pub proof fn lemma_first_index(history: Seq<Seq<char>>, entry: Seq<char>)
    ensures
        0 <= first_index(history, entry) <= history.len(),
        first_index(history, entry) < history.len() ==> history[first_index(history, entry)]
            == entry,
        forall|j: int| 0 <= j < first_index(history, entry) ==> history[j] != entry,
        first_index(history, entry) < history.len() <==> history.contains(entry),
    decreases history.len(),
{
    if history.len() > 0 && history[0] != entry {
        let rest = history.drop_first();
        lemma_first_index(rest, entry);
        let k = first_index(rest, entry);
        assert forall|j: int| 0 <= j < 1 + k implies history[j] != entry by {
            if j > 0 {
                assert(rest[j - 1] == history[j]);
            }
        }
        if history.contains(entry) {
            let w = choose|w: int| 0 <= w < history.len() && history[w] == entry;
            assert(rest[w - 1] == entry);
        }
    }
}

/// An index at which `entry` stands with no occurrence before it is the
/// first index.
pub proof fn lemma_first_index_is(history: Seq<Seq<char>>, entry: Seq<char>, i: int)
    requires
        0 <= i <= history.len(),
        i < history.len() ==> history[i] == entry,
        forall|j: int| 0 <= j < i ==> history[j] != entry,
    ensures
        first_index(history, entry) == i,
{
    lemma_first_index(history, entry);
}

/// Records that `entry` was used: a new entry goes to the end, a known one
/// moves from its first place to the front.
pub fn record_use(history: &mut Vec<String>, entry: String)
    ensures
        entries(final(history)@) == used(entries(old(history)@), entry@),
{
    let n = history.len();
    let mut i: usize = 0;
    while i < n && !(history[i] == entry)
        invariant
            n == history.len(),
            i <= n,
            *history == *old(history),
            forall|j: int| 0 <= j < i ==> entries(history@)[j] != entry@,
        decreases n - i,
    {
        i += 1;
    }
    proof {
        lemma_first_index_is(entries(history@), entry@, i as int);
    }
    if i == n {
        history.push(entry);
    } else {
        let known = history.remove(i);
        history.insert(0, known);
    }
}

/// The index of the first line feed in `text`, or its length where it has
/// none.
pub open spec fn line_end(text: Seq<char>) -> int
    decreases text.len(),
{
    if text.len() == 0 {
        0
    } else if text[0] == '\n' {
        0
    } else {
        1 + line_end(text.drop_first())
    }
}

/// The lines of `text`: the runs between line feeds, without an empty run
/// after the last line feed.
pub open spec fn lines(text: Seq<char>) -> Seq<Seq<char>>
    decreases text.len(),
{
    if text.len() == 0 {
        Seq::empty()
    } else {
        let end = line_end(text);
        if 0 <= end < text.len() {
            seq![text.subrange(0, end)] + lines(text.subrange(end + 1, text.len() as int))
        } else {
            seq![text]
        }
    }
}

/// The entries that a stored text holds: its lines, each trimmed.
pub open spec fn loaded(text: Seq<char>) -> Seq<Seq<char>> {
    lines(text).map_values(|line: Seq<char>| trimmed(line))
}

/// The entries that a store holds; a store that could not be read holds
/// none.
pub open spec fn loaded_from(source: Option<Seq<char>>) -> Seq<Seq<char>> {
    match source {
        Some(text) => loaded(text),
        None => Seq::empty(),
    }
}

/// The text that stores `history`: each entry followed by a line feed.
pub open spec fn persisted(history: Seq<Seq<char>>) -> Seq<char>
    decreases history.len(),
{
    if history.len() == 0 {
        Seq::empty()
    } else {
        persisted(history.drop_last()) + history.last() + seq!['\n']
    }
}

/// `line_end` is the one index at which a line feed stands with none before
/// it, and the length where there is none.
pub proof fn lemma_line_end(text: Seq<char>)
    ensures
        0 <= line_end(text) <= text.len(),
        line_end(text) < text.len() ==> text[line_end(text)] == '\n',
        forall|j: int| 0 <= j < line_end(text) ==> text[j] != '\n',
    decreases text.len(),
{
    if text.len() > 0 && text[0] != '\n' {
        let rest = text.drop_first();
        lemma_line_end(rest);
        let k = line_end(rest);
        assert forall|j: int| 0 <= j < 1 + k implies text[j] != '\n' by {
            if j > 0 {
                assert(rest[j - 1] == text[j]);
            }
        }
    }
}

/// Splitting goes line by line: a text that starts with `line`, which holds
/// no line feed, and a line feed, has `line` as its first line and the lines
/// of the rest after it.
pub proof fn lemma_lines_step(line: Seq<char>, rest: Seq<char>)
    requires
        !line.contains('\n'),
    ensures
        lines(line + seq!['\n'] + rest) == seq![line] + lines(rest),
{
    let text = line + seq!['\n'] + rest;
    lemma_line_end(text);
    let end = line_end(text);
    assert(text[line.len() as int] == '\n');
    assert(text.subrange(0, end) =~= line);
    assert(text.subrange(end + 1, text.len() as int) =~= rest);
}

/// The lines of a stored history are its entries, where no entry holds a
/// line feed.
pub proof fn lemma_lines_of_persisted(history: Seq<Seq<char>>)
    requires
        forall|i: int| 0 <= i < history.len() ==> !(#[trigger] history[i]).contains('\n'),
    ensures
        lines(persisted(history)) == history,
    decreases history.len(),
{
    if history.len() > 0 {
        let first = history[0];
        let rest = history.drop_first();
        assert forall|i: int| 0 <= i < rest.len() implies !(#[trigger] rest[i]).contains(
            '\n',
        ) by {
            assert(rest[i] == history[i + 1]);
        }
        lemma_lines_of_persisted(rest);
        lemma_persisted_front(history);
        lemma_lines_step(first, persisted(rest));
    }
}

/// The stored text starts with the first entry and its line feed.
pub proof fn lemma_persisted_front(history: Seq<Seq<char>>)
    requires
        history.len() > 0,
    ensures
        persisted(history) == history[0] + seq!['\n'] + persisted(history.drop_first()),
    decreases history.len(),
{
    if history.len() == 1 {
        assert(persisted(history.drop_last()) =~= Seq::<char>::empty());
        assert(persisted(history) =~= history[0] + seq!['\n'] + persisted(
            history.drop_first(),
        ));
    } else {
        let init = history.drop_last();
        lemma_persisted_front(init);
        assert(init.drop_first() =~= history.drop_first().drop_last());
        assert(persisted(history) =~= history[0] + seq!['\n'] + persisted(
            history.drop_first(),
        ));
    }
}

/// A line feed with none before it ends the first line.
pub proof fn lemma_lines_split(text: Seq<char>, end: int)
    requires
        0 <= end < text.len(),
        text[end] == '\n',
        forall|j: int| 0 <= j < end ==> text[j] != '\n',
    ensures
        lines(text) == seq![text.subrange(0, end)] + lines(
            text.subrange(end + 1, text.len() as int),
        ),
{
    lemma_line_end(text);
}

/// A text without a line feed is one line, and an empty text none.
pub proof fn lemma_lines_last(text: Seq<char>)
    requires
        forall|j: int| 0 <= j < text.len() ==> text[j] != '\n',
    ensures
        lines(text) == if text.len() == 0 {
            Seq::<Seq<char>>::empty()
        } else {
            seq![text]
        },
{
    lemma_line_end(text);
}

/// The view of a store that may be missing.
pub open spec fn source_of(source: Option<&str>) -> Option<Seq<char>> {
    match source {
        Some(text) => Some(text@),
        None => None,
    }
}

/// Reads the history out of the text of its store, one trimmed entry per
/// line in the order of the lines; a store that could not be read (`None`)
/// gives an empty history.
pub fn load(source: Option<&str>) -> (history: Vec<String>)
    ensures
        entries(history@) == loaded_from(source_of(source)),
{
    let mut history: Vec<String> = Vec::new();
    let text = match source {
        Some(text) => text,
        None => {
            return history;
        },
    };
    let n = text.unicode_len();
    let mut start: usize = 0;
    let mut i: usize = 0;
    assert(text@.subrange(0, n as int) =~= text@);
    while i < n
        invariant
            n == text@.len(),
            start <= i <= n,
            forall|j: int| start <= j < i ==> text@[j] != '\n',
            loaded(text@) == entries(history@) + loaded(text@.subrange(start as int, n as int)),
        decreases n - i,
    {
        if text.get_char(i) == '\n' {
            let line = text.substring_char(start, i);
            proof {
                let rest = text@.subrange(start as int, n as int);
                lemma_lines_split(rest, i - start);
                assert(rest.subrange(0, i - start) =~= line@);
                assert(rest.subrange(i - start + 1, rest.len() as int) =~= text@.subrange(
                    i + 1,
                    n as int,
                ));
                assert(loaded(rest) =~= seq![trimmed(line@)] + loaded(
                    text@.subrange(i + 1, n as int),
                ));
            }
            history.push(String::from_str(trim(line)));
            start = i + 1;
        }
        i += 1;
    }
    let last = text.substring_char(start, n);
    proof {
        lemma_lines_last(last@);
    }
    if start < n {
        history.push(String::from_str(trim(last)));
    }
    history
}

/// Writes the history as the text of its store: one line per entry, in
/// order.
pub fn persist(history: &Vec<String>) -> (text: String)
    ensures
        text@ == persisted(entries(history@)),
{
    let mut text = String::new();
    let n = history.len();
    let mut i: usize = 0;
    while i < n
        invariant
            n == history.len(),
            i <= n,
            text@ == persisted(entries(history@).take(i as int)),
        decreases n - i,
    {
        proof {
            reveal_strlit("\n");
            let next = entries(history@).take(i + 1);
            assert(next.drop_last() =~= entries(history@).take(i as int));
        }
        text.append(history[i].as_str());
        text.append("\n");
        i += 1;
    }
    assert(entries(history@).take(n as int) =~= entries(history@));
    text
}

/// Using an entry a second time changes nothing more, where the history
/// held the entry already or was empty.
pub proof fn lemma_use_twice(history: Seq<Seq<char>>, entry: Seq<char>)
    requires
        history.contains(entry) || history.len() == 0,
    ensures
        used(used(history, entry), entry) == used(history, entry),
{
    lemma_first_index(history, entry);
    let once = used(history, entry);
    lemma_first_index_is(once, entry, 0);
}

/// Using the entry that stands first leaves the history as it is.
pub proof fn lemma_use_first(history: Seq<Seq<char>>, entry: Seq<char>)
    requires
        history.len() > 0,
        history[0] == entry,
    ensures
        used(history, entry) == history,
{
}

/// Using an entry that the history does not hold makes it one longer, with
/// the new entry last and the others as they were.
pub proof fn lemma_use_new(history: Seq<Seq<char>>, entry: Seq<char>)
    requires
        !history.contains(entry),
    ensures
        used(history, entry).len() == history.len() + 1,
        used(history, entry).last() == entry,
        used(history, entry).drop_last() == history,
{
    lemma_first_index(history, entry);
}

/// Using an entry that the history holds takes it out of its first place
/// and puts it in front: the length stays, the entries before that place
/// move one back, and those after it stay where they were.
pub proof fn lemma_use_known(history: Seq<Seq<char>>, entry: Seq<char>)
    requires
        history.contains(entry),
    ensures
        used(history, entry).len() == history.len(),
        used(history, entry)[0] == entry,
        forall|j: int|
            0 <= j < first_index(history, entry) ==> used(history, entry)[j + 1] == history[j],
        forall|j: int|
            first_index(history, entry) < j < history.len() ==> used(history, entry)[j]
                == history[j],
        used(history, entry).to_multiset() == history.to_multiset(),
{
    lemma_first_index(history, entry);
    let i = first_index(history, entry);
    let out = used(history, entry);
    assert(out =~= history.remove(i).insert(0, entry));
    assert(history =~= history.remove(i).insert(i, entry));
    vstd::seq_lib::to_multiset_insert(history.remove(i), 0, entry);
    vstd::seq_lib::to_multiset_insert(history.remove(i), i, entry);
}

/// A history without duplicates stays without duplicates when an entry is
/// used.
pub proof fn lemma_use_keeps_distinct(history: Seq<Seq<char>>, entry: Seq<char>)
    requires
        history.no_duplicates(),
    ensures
        used(history, entry).no_duplicates(),
{
    lemma_first_index(history, entry);
    let i = first_index(history, entry);
    let out = used(history, entry);
    if i < history.len() {
        assert forall|a: int, b: int| 0 <= a < out.len() && 0 <= b < out.len() && a != b implies out[a]
            != out[b] by {
            let pa = if a == 0 { i } else if a <= i { a - 1 } else { a };
            let pb = if b == 0 { i } else if b <= i { b - 1 } else { b };
            assert(out[a] == history[pa]);
            assert(out[b] == history[pb]);
        }
    }
}

/// Reading back what was stored gives the same entries in the same order,
/// where no entry holds a line feed and trimming changes none of them.
pub proof fn lemma_persist_then_load(history: Seq<Seq<char>>)
    requires
        forall|i: int| 0 <= i < history.len() ==> !(#[trigger] history[i]).contains('\n'),
        forall|i: int| 0 <= i < history.len() ==> trimmed(#[trigger] history[i]) == history[i],
    ensures
        loaded_from(Some(persisted(history))) == history,
{
    lemma_lines_of_persisted(history);
}

/// Using an entry, storing the history and reading it back gives the
/// history as it was after the use, where neither `entry` nor an entry of
/// `history` holds a line feed or is changed by trimming.
pub proof fn lemma_use_persist_load(history: Seq<Seq<char>>, entry: Seq<char>)
    requires
        !entry.contains('\n'),
        trimmed(entry) == entry,
        forall|i: int| 0 <= i < history.len() ==> !(#[trigger] history[i]).contains('\n'),
        forall|i: int| 0 <= i < history.len() ==> trimmed(#[trigger] history[i]) == history[i],
    ensures
        loaded_from(Some(persisted(used(history, entry)))) == used(history, entry),
{
    lemma_first_index(history, entry);
    lemma_persist_then_load(used(history, entry));
}

} // verus!
