//! Texts as sequences of characters: joining them and finding one inside another.

use vstd::prelude::*;
use vstd::string::*;

verus! {

/// The texts of a sequence of strings, in order.
pub open spec fn texts(strings: Seq<String>) -> Seq<Seq<char>> {
    Seq::new(strings.len(), |i: int| strings[i]@)
}

/// The text of an optional string.
pub open spec fn text_of(line: Option<String>) -> Option<Seq<char>> {
    match line {
        Some(s) => Some(s@),
        None => None,
    }
}

/// `parts` written one after another with `sep` between each two neighbours.
pub open spec fn joined(parts: Seq<Seq<char>>, sep: Seq<char>) -> Seq<char>
    decreases parts.len(),
{
    if parts.len() == 0 {
        Seq::empty()
    } else if parts.len() == 1 {
        parts[0]
    } else {
        joined(parts.drop_last(), sep) + sep + parts.last()
    }
}

/// `piece` stands in `text` at offset `at`.
pub open spec fn occurs_at(text: Seq<char>, piece: Seq<char>, at: int) -> bool {
    &&& 0 <= at
    &&& at + piece.len() <= text.len()
    &&& text.subrange(at, at + piece.len()) == piece
}

/// `piece` stands somewhere in `text`.
pub open spec fn contains_text(text: Seq<char>, piece: Seq<char>) -> bool {
    exists|at: int| occurs_at(text, piece, at)
}

/// A text put together from three pieces contains the middle one.
pub proof fn lemma_middle_is_contained(before: Seq<char>, piece: Seq<char>, after: Seq<char>)
    ensures
        occurs_at(before + piece + after, piece, before.len() as int),
        contains_text(before + piece + after, piece),
{
    let whole = before + piece + after;
    let at = before.len() as int;
    assert(whole.subrange(at, at + piece.len()) =~= piece);
}

/// What a text contains, every longer text that starts with it contains too.
pub proof fn lemma_contained_in_extension(text: Seq<char>, piece: Seq<char>, more: Seq<char>)
    requires
        contains_text(text, piece),
    ensures
        contains_text(text + more, piece),
{
    let at = choose|at: int| occurs_at(text, piece, at);
    assert((text + more).subrange(at, at + piece.len()) =~= text.subrange(at, at + piece.len()));
    assert(occurs_at(text + more, piece, at));
}

/// What a text contains, every longer text that ends with it contains too.
pub proof fn lemma_contained_after_prefix(before: Seq<char>, text: Seq<char>, piece: Seq<char>)
    requires
        contains_text(text, piece),
    ensures
        contains_text(before + text, piece),
{
    let at = choose|at: int| occurs_at(text, piece, at);
    let shifted = before.len() + at;
    assert((before + text).subrange(shifted, shifted + piece.len()) =~= text.subrange(
        at,
        at + piece.len(),
    ));
    assert(occurs_at(before + text, piece, shifted));
}

/// What stands in a piece of a text stands in the text.
pub proof fn lemma_contained_in_whole(text: Seq<char>, part: Seq<char>, piece: Seq<char>)
    requires
        contains_text(text, part),
        contains_text(part, piece),
    ensures
        contains_text(text, piece),
{
    let outer = choose|at: int| occurs_at(text, part, at);
    let inner = choose|at: int| occurs_at(part, piece, at);
    let at = outer + inner;
    assert(text.subrange(at, at + piece.len()) =~= text.subrange(
        outer,
        outer + part.len(),
    ).subrange(inner, inner + piece.len()));
    assert(occurs_at(text, piece, at));
}

/// Every text contains itself.
pub proof fn lemma_contains_itself(text: Seq<char>)
    ensures
        contains_text(text, text),
{
    assert(text.subrange(0, text.len() as int) =~= text);
    assert(occurs_at(text, text, 0));
}

/// A joined text contains each of the parts it was joined from.
pub proof fn lemma_joined_contains_part(parts: Seq<Seq<char>>, sep: Seq<char>, i: int)
    requires
        0 <= i < parts.len(),
    ensures
        contains_text(joined(parts, sep), parts[i]),
    decreases parts.len(),
{
    if parts.len() == 1 {
        lemma_contains_itself(parts[0]);
    } else if i == parts.len() - 1 {
        lemma_middle_is_contained(joined(parts.drop_last(), sep) + sep, parts.last(), Seq::empty());
        assert(joined(parts, sep) =~= joined(parts.drop_last(), sep) + sep + parts.last()
            + Seq::<char>::empty());
    } else {
        lemma_joined_contains_part(parts.drop_last(), sep, i);
        assert(parts.drop_last()[i] == parts[i]);
        lemma_contained_in_extension(joined(parts.drop_last(), sep), parts[i], sep + parts.last());
        assert(joined(parts, sep) =~= joined(parts.drop_last(), sep) + (sep + parts.last()));
    }
}

/// Joins `parts` with `sep` between each two neighbours.
pub fn join(parts: &Vec<String>, sep: &str) -> (line: String)
    ensures
        line@ == joined(texts(parts@), sep@),
{
    let mut line = String::new();
    let mut i: usize = 0;
    while i < parts.len()
        invariant
            i <= parts.len(),
            line@ == joined(texts(parts@).take(i as int), sep@),
        decreases parts.len() - i,
    {
        proof {
            let done = texts(parts@).take(i as int);
            let next = texts(parts@).take(i + 1);
            assert(next.drop_last() =~= done);
            assert(next.last() == parts[i as int]@);
        }
        if i > 0 {
            line.append(sep);
        }
        line.append(parts[i].as_str());
        proof {
            if i == 0 {
                assert(line@ =~= parts[0]@);
            }
        }
        i += 1;
    }
    assert(texts(parts@).take(parts.len() as int) =~= texts(parts@));
    line
}

} // verus!
