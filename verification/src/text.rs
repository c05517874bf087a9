//! Reading text as a sequence of characters.

use vstd::prelude::*;

verus! {

/// The characters of `text`, in order.
pub fn chars_of(text: &str) -> (out: Vec<char>)
    ensures
        out@ == text@,
{
    let mut out: Vec<char> = Vec::new();
    let chars = text.chars();
    for c in it: chars
        invariant
            it.seq() == text@,
            out@ == it.seq().take(it.index()),
    {
        out.push(c);
    }
    out
}

/// The characters of a text that may be absent.
pub open spec fn chars_if_any(text: Option<&str>) -> Option<Seq<char>> {
    match text {
        Some(t) => Some(t@),
        None => None,
    }
}

/// Whether two texts hold the same characters.
pub fn text_eq(a: &str, b: &str) -> (same: bool)
    ensures
        same == (a@ == b@),
{
    let x = chars_of(a);
    let y = chars_of(b);
    if x.len() != y.len() {
        return false;
    }
    let mut i: usize = 0;
    while i < x.len()
        invariant
            i <= x.len(),
            x.len() == y.len(),
            x@ == a@,
            y@ == b@,
            x@.take(i as int) == y@.take(i as int),
        decreases x.len() - i,
    {
        if x[i] != y[i] {
            return false;
        }
        assert(x@.take(i + 1) == x@.take(i as int).push(x@[i as int]));
        assert(y@.take(i + 1) == y@.take(i as int).push(y@[i as int]));
        i += 1;
    }
    assert(x@ == x@.take(i as int) && y@ == y@.take(i as int));
    true
}

/// The pieces into which the occurrences of `sep` cut `text`: one more piece
/// than there are occurrences, empty pieces included, in order.
pub open spec fn split_on(text: Seq<char>, sep: char) -> Seq<Seq<char>>
    decreases text.len(),
{
    if text.len() == 0 {
        seq![Seq::empty()]
    } else {
        let before = split_on(text.drop_last(), sep);
        if text.last() == sep {
            before.push(Seq::empty())
        } else {
            before.drop_last().push(before.last().push(text.last()))
        }
    }
}

/// Whether `sep` occurs nowhere in `text`.
pub open spec fn is_free_of(text: Seq<char>, sep: char) -> bool {
    forall|i: int| 0 <= i < text.len() ==> text[i] != sep
}

/// A text in which the separator does not occur is one piece.
pub proof fn lemma_split_on_one_piece(text: Seq<char>, sep: char)
    requires
        is_free_of(text, sep),
    ensures
        split_on(text, sep) == seq![text],
    decreases text.len(),
{
    if text.len() > 0 {
        lemma_split_on_one_piece(text.drop_last(), sep);
        assert(Seq::<char>::empty().push(text.last()) == seq![text.last()]);
        assert(text.drop_last().push(text.last()) == text);
        assert(seq![text.drop_last()].drop_last().push(text) == seq![text]);
    } else {
        assert(text == Seq::<char>::empty());
    }
}

/// A separator followed by a text in which it does not occur adds that text
/// as one more piece.
pub proof fn lemma_split_on_one_more_piece(head: Seq<char>, tail: Seq<char>, sep: char)
    requires
        is_free_of(tail, sep),
    ensures
        split_on(head + seq![sep] + tail, sep) == split_on(head, sep).push(tail),
    decreases tail.len(),
{
    let text = head + seq![sep] + tail;
    if tail.len() == 0 {
        assert(text.drop_last() == head);
        assert(tail == Seq::<char>::empty());
    } else {
        lemma_split_on_one_more_piece(head, tail.drop_last(), sep);
        let before = split_on(head, sep).push(tail.drop_last());
        assert(text.drop_last() == head + seq![sep] + tail.drop_last());
        assert(text.last() == tail.last());
        assert(before.drop_last() == split_on(head, sep));
        assert(tail.drop_last().push(tail.last()) == tail);
    }
}

/// The pieces put together again, with `sep` between neighbours.
pub open spec fn join_with(pieces: Seq<Seq<char>>, sep: char) -> Seq<char>
    decreases pieces.len(),
{
    if pieces.len() == 0 {
        Seq::empty()
    } else if pieces.len() == 1 {
        pieces[0]
    } else {
        join_with(pieces.drop_last(), sep) + seq![sep] + pieces.last()
    }
}

/// The pieces of a text hold no separator, and joined by the separator they
/// are the text.
pub proof fn lemma_split_on_cuts_at_every_sep(text: Seq<char>, sep: char)
    ensures
        split_on(text, sep).len() >= 1,
        forall|i: int|
            0 <= i < split_on(text, sep).len() ==> is_free_of(#[trigger] split_on(text, sep)[i], sep),
        join_with(split_on(text, sep), sep) == text,
    decreases text.len(),
{
    let pieces = split_on(text, sep);
    if text.len() == 0 {
        assert(pieces[0] == Seq::<char>::empty());
    } else {
        let before = split_on(text.drop_last(), sep);
        lemma_split_on_cuts_at_every_sep(text.drop_last(), sep);
        assert(text.drop_last().push(text.last()) == text);
        if text.last() == sep {
            assert(pieces.drop_last() == before);
            assert(join_with(pieces, sep) == join_with(before, sep) + seq![sep] + Seq::<char>::empty());
        } else {
            let last = before.last().push(text.last());
            assert(pieces.last() == last);
            assert forall|i: int| 0 <= i < pieces.len() implies is_free_of(
                #[trigger] pieces[i],
                sep,
            ) by {
                if i < pieces.len() - 1 {
                    assert(pieces[i] == before[i]);
                } else {
                    assert(is_free_of(before[i], sep));
                }
            }
            if before.len() == 1 {
                assert(join_with(before, sep) == before[0]);
                assert(join_with(pieces, sep) == last);
            } else {
                assert(pieces.drop_last() == before.drop_last());
                assert(join_with(pieces, sep) == join_with(before.drop_last(), sep) + seq![sep]
                    + last);
                assert(join_with(before, sep) == join_with(before.drop_last(), sep) + seq![sep]
                    + before.last());
            }
        }
    }
}

/// Pieces that hold no separator are the pieces of what they join to.
pub proof fn lemma_split_on_undoes_join(pieces: Seq<Seq<char>>, sep: char)
    requires
        pieces.len() >= 1,
        forall|i: int| 0 <= i < pieces.len() ==> is_free_of(#[trigger] pieces[i], sep),
    ensures
        split_on(join_with(pieces, sep), sep) == pieces,
    decreases pieces.len(),
{
    if pieces.len() == 1 {
        lemma_split_on_one_piece(pieces[0], sep);
        assert(seq![pieces[0]] == pieces);
    } else {
        let front = pieces.drop_last();
        assert forall|i: int| 0 <= i < front.len() implies is_free_of(#[trigger] front[i], sep) by {
            assert(front[i] == pieces[i]);
        }
        lemma_split_on_undoes_join(front, sep);
        lemma_split_on_one_more_piece(join_with(front, sep), pieces.last(), sep);
        assert(front.push(pieces.last()) == pieces);
    }
}

/// The characters of each piece, piece by piece.
pub open spec fn piece_views(pieces: Seq<Vec<char>>) -> Seq<Seq<char>> {
    pieces.map_values(|p: Vec<char>| p@)
}

/// Cuts `text` at every occurrence of `sep`.
pub fn split(text: &Vec<char>, sep: char) -> (pieces: Vec<Vec<char>>)
    ensures
        piece_views(pieces@) == split_on(text@, sep),
{
    let mut done: Vec<Vec<char>> = Vec::new();
    let mut current: Vec<char> = Vec::new();
    let mut i: usize = 0;
    while i < text.len()
        invariant
            i <= text.len(),
            piece_views(done@).push(current@) == split_on(text@.take(i as int), sep),
        decreases text.len() - i,
    {
        let c = text[i];
        let ghost before = split_on(text@.take(i as int), sep);
        let ghost done_before = done@;
        proof {
            assert(text@.take(i + 1).drop_last() == text@.take(i as int));
            assert(before.drop_last() == piece_views(done@));
            assert(before.last() == current@);
        }
        if c == sep {
            done.push(current);
            current = Vec::new();
            assert(piece_views(done@) == before);
        } else {
            current.push(c);
        }
        i += 1;
    }
    assert(text@.take(i as int) == text@);
    let ghost before = piece_views(done@).push(current@);
    done.push(current);
    assert(piece_views(done@) == before);
    done
}

} // verus!
