//! Building text from pieces.

use vstd::prelude::*;
use vstd::string::StringExecFns;

verus! {

/// The pieces in order, each followed by `tail`.
pub open spec fn each_followed(pieces: Seq<Seq<char>>, tail: Seq<char>) -> Seq<char>
    decreases pieces.len(),
{
    if pieces.len() == 0 {
        Seq::empty()
    } else {
        each_followed(pieces.drop_last(), tail) + pieces.last() + tail
    }
}

/// The pieces in order, with `separator` between neighbours.
pub open spec fn separated(pieces: Seq<Seq<char>>, separator: Seq<char>) -> Seq<char>
    decreases pieces.len(),
{
    if pieces.len() == 0 {
        Seq::empty()
    } else if pieces.len() == 1 {
        pieces[0]
    } else {
        separated(pieces.drop_last(), separator) + separator + pieces.last()
    }
}

/// `String::push` of std: the character is appended at the end.
#[verifier::external_body]
pub(crate) fn push_char(s: &mut String, c: char)
    ensures
        final(s)@ == old(s)@.push(c),
{
    s.push(c)
}

/// Appends the pieces in order, each followed by `tail`.
pub(crate) fn push_each_followed(text: &mut String, pieces: &Vec<String>, tail: &str)
    ensures
        final(text)@ == old(text)@ + each_followed(pieces.deep_view(), tail@),
{
    let ghost all = pieces.deep_view();
    let ghost start = text@;
    let mut i: usize = 0;
    assert(text@ =~= start + each_followed(all.take(0), tail@));
    while i < pieces.len()
        invariant
            all == pieces.deep_view(),
            0 <= i <= pieces.len(),
            text@ == start + each_followed(all.take(i as int), tail@),
        decreases pieces.len() - i,
    {
        text.append(pieces[i].as_str());
        text.append(tail);
        proof {
            let next = all.take(i + 1);
            assert(next.drop_last() =~= all.take(i as int));
            assert(next.last() == pieces[i as int]@);
            assert(text@ =~= start + each_followed(next, tail@));
        }
        i += 1;
    }
    proof {
        assert(all.take(pieces.len() as int) =~= all);
    }
}

/// Appends the pieces in order, with `separator` between neighbours.
pub(crate) fn push_separated(text: &mut String, pieces: &Vec<String>, separator: &str)
    ensures
        final(text)@ == old(text)@ + separated(pieces.deep_view(), separator@),
{
    let ghost all = pieces.deep_view();
    let ghost start = text@;
    let mut i: usize = 0;
    assert(text@ =~= start + separated(all.take(0), separator@));
    while i < pieces.len()
        invariant
            all == pieces.deep_view(),
            0 <= i <= pieces.len(),
            text@ == start + separated(all.take(i as int), separator@),
        decreases pieces.len() - i,
    {
        if i > 0 {
            text.append(separator);
        }
        text.append(pieces[i].as_str());
        proof {
            let next = all.take(i + 1);
            assert(next.drop_last() =~= all.take(i as int));
            assert(next.last() == pieces[i as int]@);
            if i == 0 {
                assert(next[0] == pieces[0]@);
            }
            assert(text@ =~= start + separated(next, separator@));
        }
        i += 1;
    }
    proof {
        assert(all.take(pieces.len() as int) =~= all);
    }
}

} // verus!
