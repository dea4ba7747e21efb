//! Splitting and joining of text on a separator character.
//!
//! The wire protocol is made of words separated by single spaces. This module
//! defines what splitting and joining mean on sequences of characters, proves
//! that the two are inverse to each other, and gives the executable versions.

use vstd::prelude::*;

verus! {

/// The separator of the words of a protocol line.
pub const SPACE: char = ' ';

/// `s` holds no occurrence of `sep`.
pub open spec fn free_of(s: Seq<char>, sep: char) -> bool {
    forall|i: int| 0 <= i < s.len() ==> s[i] != sep
}

/// Every piece in `ws` is free of `sep`.
pub open spec fn all_free_of(ws: Seq<Seq<char>>, sep: char) -> bool {
    forall|i: int| 0 <= i < ws.len() ==> free_of(#[trigger] ws[i], sep)
}

/// The pieces of `s` between the occurrences of `sep`.
///
/// There is one piece more than there are separators: the empty text has one
/// empty piece, and two separators in a row delimit an empty piece.
pub open spec fn split(s: Seq<char>, sep: char) -> Seq<Seq<char>>
    decreases s.len(),
{
    if s.len() == 0 {
        seq![Seq::<char>::empty()]
    } else {
        let before = split(s.drop_last(), sep);
        if s.last() == sep {
            before.push(Seq::<char>::empty())
        } else {
            before.drop_last().push(before.last().push(s.last()))
        }
    }
}

/// The pieces of `ws` in order, with one `sep` between neighbours.
pub open spec fn join(ws: Seq<Seq<char>>, sep: char) -> Seq<char>
    decreases ws.len(),
{
    if ws.len() == 0 {
        Seq::<char>::empty()
    } else if ws.len() == 1 {
        ws[0]
    } else {
        join(ws.drop_last(), sep).push(sep) + ws.last()
    }
}

/// The texts that a vector of strings holds.
pub open spec fn views(v: Seq<String>) -> Seq<Seq<char>> {
    Seq::new(v.len(), |i: int| v[i]@)
}

/// The texts that a vector of string slices holds.
pub open spec fn slice_views(v: Seq<&str>) -> Seq<Seq<char>> {
    Seq::new(v.len(), |i: int| v[i]@)
}

/// Splitting always yields at least one piece.
pub proof fn lemma_split_nonempty(s: Seq<char>, sep: char)
    ensures
        split(s, sep).len() >= 1,
    decreases s.len(),
{
    if s.len() > 0 {
        lemma_split_nonempty(s.drop_last(), sep);
    }
}

/// No piece that splitting yields holds the separator.
pub proof fn lemma_split_pieces_free(s: Seq<char>, sep: char)
    ensures
        all_free_of(split(s, sep), sep),
    decreases s.len(),
{
    if s.len() > 0 {
        lemma_split_nonempty(s.drop_last(), sep);
        lemma_split_pieces_free(s.drop_last(), sep);
    }
}

/// A text without the separator is its own single piece.
pub proof fn lemma_split_free(s: Seq<char>, sep: char)
    requires
        free_of(s, sep),
    ensures
        split(s, sep) == seq![s],
    decreases s.len(),
{
    if s.len() > 0 {
        lemma_split_free(s.drop_last(), sep);
        assert(s.drop_last().push(s.last()) =~= s);
        assert(seq![s.drop_last()].drop_last().push(s) =~= seq![s]);
    } else {
        assert(s =~= Seq::<char>::empty());
    }
}

/// Splitting `a`, a separator and `b` yields the pieces of `a`, then those of `b`.
pub proof fn lemma_split_concat(a: Seq<char>, b: Seq<char>, sep: char)
    ensures
        split(a.push(sep) + b, sep) == split(a, sep) + split(b, sep),
    decreases b.len(),
{
    let whole = a.push(sep) + b;
    lemma_split_nonempty(a, sep);
    if b.len() == 0 {
        assert(whole =~= a.push(sep));
        assert(whole.drop_last() =~= a);
        assert(split(a, sep).push(Seq::<char>::empty()) =~= split(a, sep) + split(b, sep));
    } else {
        lemma_split_concat(a, b.drop_last(), sep);
        lemma_split_nonempty(b.drop_last(), sep);
        assert(whole.drop_last() =~= a.push(sep) + b.drop_last());
        assert(whole.last() == b.last());
        let left = split(a, sep);
        let right = split(b.drop_last(), sep);
        if b.last() == sep {
            assert((left + right).push(Seq::<char>::empty()) =~= left + right.push(
                Seq::<char>::empty(),
            ));
        } else {
            assert((left + right).drop_last().push((left + right).last().push(b.last())) =~= left
                + right.drop_last().push(right.last().push(b.last())));
        }
    }
}

/// Joining one more piece appends a separator and the piece.
pub proof fn lemma_join_push(ws: Seq<Seq<char>>, w: Seq<char>, sep: char)
    ensures
        join(ws.push(w), sep) == if ws.len() == 0 {
            w
        } else {
            join(ws, sep).push(sep) + w
        },
{
    assert(ws.push(w).drop_last() =~= ws);
}

/// Joining the pieces of a text gives the text back.
pub proof fn lemma_join_split(s: Seq<char>, sep: char)
    ensures
        join(split(s, sep), sep) == s,
    decreases s.len(),
{
    if s.len() == 0 {
        assert(join(split(s, sep), sep) =~= s);
    } else {
        let before = split(s.drop_last(), sep);
        lemma_split_nonempty(s.drop_last(), sep);
        lemma_join_split(s.drop_last(), sep);
        if s.last() == sep {
            lemma_join_push(before, Seq::<char>::empty(), sep);
            assert(join(before, sep).push(sep) + Seq::<char>::empty() =~= s);
        } else {
            let grown = before.last().push(s.last());
            lemma_join_push(before.drop_last(), grown, sep);
            lemma_join_push(before.drop_last(), before.last(), sep);
            assert(before.drop_last().push(before.last()) =~= before);
            if before.len() == 1 {
                assert(grown =~= s);
            } else {
                assert(join(before.drop_last(), sep).push(sep) + grown =~= (join(
                    before.drop_last(),
                    sep,
                ).push(sep) + before.last()).push(s.last()));
                assert(s.drop_last().push(s.last()) =~= s);
            }
        }
    }
}

/// Splitting the join of pieces that hold no separator gives the pieces back.
pub proof fn lemma_split_join(ws: Seq<Seq<char>>, sep: char)
    requires
        ws.len() >= 1,
        all_free_of(ws, sep),
    ensures
        split(join(ws, sep), sep) == ws,
    decreases ws.len(),
{
    if ws.len() == 1 {
        lemma_split_free(ws[0], sep);
        assert(seq![ws[0]] =~= ws);
    } else {
        let front = ws.drop_last();
        assert(all_free_of(front, sep)) by {
            assert forall|i: int| 0 <= i < front.len() implies free_of(#[trigger] front[i], sep) by {
                assert(front[i] == ws[i]);
            }
        }
        lemma_split_join(front, sep);
        lemma_split_concat(join(front, sep), ws.last(), sep);
        lemma_split_free(ws.last(), sep);
        assert(front + seq![ws.last()] =~= ws);
    }
}

/// Splitting the join of separator-free pieces and one last, arbitrary text
/// gives the pieces back, followed by the pieces of the last text.
pub proof fn lemma_split_join_tail(front: Seq<Seq<char>>, tail: Seq<char>, sep: char)
    requires
        front.len() >= 1,
        all_free_of(front, sep),
    ensures
        split(join(front.push(tail), sep), sep) == front + split(tail, sep),
{
    lemma_join_push(front, tail, sep);
    lemma_split_join(front, sep);
    lemma_split_concat(join(front, sep), tail, sep);
}

/// Appending a character to a `String` (`String::push` of the standard
/// library): the text grows by exactly that character at its end.
pub assume_specification[ String::push ](s: &mut String, c: char)
    ensures
        final(s)@ == old(s)@.push(c),
;

/// The characters of `s`, in order.
pub fn chars_of(s: &str) -> (v: Vec<char>)
    ensures
        v@ == s@,
{
    let mut v: Vec<char> = Vec::new();
    for c in it: s.chars()
        invariant
            v@ == it.seq().take(it.index()),
            it.seq() == s@,
    {
        v.push(c);
    }
    v
}

/// Whether two texts are the same, character by character.
pub fn same_text(a: &str, b: &str) -> (r: bool)
    ensures
        r == (a@ == b@),
{
    let x = chars_of(a);
    let y = chars_of(b);
    if x.len() != y.len() {
        return false;
    }
    let mut i: usize = 0;
    while i < x.len()
        invariant
            x@ == a@,
            y@ == b@,
            x.len() == y.len(),
            i <= x.len(),
            x@.take(i as int) == y@.take(i as int),
        decreases x.len() - i,
    {
        if x[i] != y[i] {
            return false;
        }
        assert(x@.take(i + 1) =~= x@.take(i as int).push(x@[i as int]));
        assert(y@.take(i + 1) =~= y@.take(i as int).push(y@[i as int]));
        i += 1;
    }
    assert(x@ =~= x@.take(x.len() as int));
    assert(y@ =~= y@.take(y.len() as int));
    true
}

/// Splits the first `end` characters of `v` at each `sep`.
pub fn split_chars(v: &Vec<char>, end: usize, sep: char) -> (pieces: Vec<String>)
    requires
        end <= v.len(),
    ensures
        views(pieces@) == split(v@.take(end as int), sep),
{
    let mut pieces: Vec<String> = Vec::new();
    let mut current = String::new();
    let mut i: usize = 0;
    proof {
        assert(views(pieces@).push(current@) =~= split(v@.take(0), sep));
    }
    while i < end
        invariant
            i <= end <= v.len(),
            views(pieces@).push(current@) == split(v@.take(i as int), sep),
        decreases end - i,
    {
        let c = v[i];
        proof {
            let grown = v@.take(i + 1);
            assert(grown.drop_last() =~= v@.take(i as int));
            assert(grown.last() == c);
            assert(views(pieces@).push(current@).drop_last() =~= views(pieces@));
        }
        if c == sep {
            let ghost before = views(pieces@);
            pieces.push(current);
            current = String::new();
            proof {
                assert(views(pieces@) =~= before.push(pieces@.last()@));
            }
        } else {
            current.push(c);
        }
        i += 1;
    }
    let ghost before = views(pieces@);
    pieces.push(current);
    proof {
        assert(views(pieces@) =~= before.push(pieces@.last()@));
    }
    pieces
}

/// Splits `s` at each `sep`.
pub fn split_text(s: &str, sep: char) -> (pieces: Vec<String>)
    ensures
        views(pieces@) == split(s@, sep),
        pieces.len() >= 1,
{
    let v = chars_of(s);
    proof {
        assert(v@.take(v.len() as int) =~= v@);
        lemma_split_nonempty(s@, sep);
    }
    split_chars(&v, v.len(), sep)
}

/// Joins the pieces from index `from` on, with one `sep` between neighbours.
pub fn join_from(pieces: &Vec<String>, from: usize, sep: char) -> (s: String)
    requires
        from <= pieces.len(),
    ensures
        s@ == join(views(pieces@).skip(from as int), sep),
{
    let mut s = String::new();
    let mut i: usize = from;
    let ghost all = views(pieces@);
    proof {
        assert(all.subrange(from as int, i as int) =~= Seq::<Seq<char>>::empty());
    }
    while i < pieces.len()
        invariant
            from <= i <= pieces.len(),
            all == views(pieces@),
            s@ == join(all.subrange(from as int, i as int), sep),
        decreases pieces.len() - i,
    {
        proof {
            lemma_join_push(all.subrange(from as int, i as int), all[i as int], sep);
            assert(all.subrange(from as int, i as int).push(all[i as int]) =~= all.subrange(
                from as int,
                i + 1,
            ));
        }
        if i > from {
            s.push(sep);
        }
        s.append(pieces[i].as_str());
        i += 1;
    }
    proof {
        assert(all.subrange(from as int, pieces.len() as int) =~= all.skip(from as int));
    }
    s
}

/// Joins string slices with one `sep` between neighbours.
pub fn join_words(words: &Vec<&str>, sep: char) -> (s: String)
    ensures
        s@ == join(slice_views(words@), sep),
{
    let mut s = String::new();
    let mut i: usize = 0;
    let ghost all = slice_views(words@);
    proof {
        assert(all.take(0) =~= Seq::<Seq<char>>::empty());
    }
    while i < words.len()
        invariant
            i <= words.len(),
            all == slice_views(words@),
            s@ == join(all.take(i as int), sep),
        decreases words.len() - i,
    {
        proof {
            lemma_join_push(all.take(i as int), all[i as int], sep);
            assert(all.take(i as int).push(all[i as int]) =~= all.take(i + 1));
        }
        if i > 0 {
            s.push(sep);
        }
        s.append(words[i]);
        i += 1;
    }
    proof {
        assert(all.take(words.len() as int) =~= all);
    }
    s
}

} // verus!
