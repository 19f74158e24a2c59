//! Naming of command cases: a method name in snake case becomes a tag in
//! capitalised-word form.

use vstd::prelude::*;
use crate::text::push_char;

verus! {

/// The upper-case form of an ASCII lower-case letter; any other character
/// is left as it is.
pub open spec fn ascii_upper(c: char) -> char {
    if 'a' <= c && c <= 'z' {
        ((c as u32) - 32) as char
    } else {
        c
    }
}

/// Number of characters of `s` before its first underscore (all of them
/// when it has none).
pub open spec fn segment_len(s: Seq<char>) -> int
    decreases s.len(),
{
    if s.len() == 0 || s[0] == '_' {
        0
    } else {
        1 + segment_len(s.skip(1))
    }
}

/// What one underscore-delimited segment contributes to a tag: the segment
/// with its first character in upper case. An empty segment contributes
/// nothing.
pub open spec fn cased_segment(seg: Seq<char>) -> Seq<char> {
    if seg.len() == 0 {
        Seq::empty()
    } else {
        seq![ascii_upper(seg[0])] + seg.skip(1)
    }
}

/// The tag of a name: its underscore-delimited segments, each capitalised,
/// joined with the underscores removed.
pub open spec fn cased(s: Seq<char>) -> Seq<char>
    decreases s.len(),
{
    let k = segment_len(s);
    if 0 <= k < s.len() {
        cased_segment(s.take(k)) + cased(s.skip(k + 1))
    } else {
        cased_segment(s)
    }
}

fn to_upper(c: char) -> (r: char)
    ensures
        r == ascii_upper(c),
{
    if 'a' <= c && c <= 'z' {
        ((c as u8) - 32) as char
    } else {
        c
    }
}

/// `segment_len` is the position of the first underscore, or the length
/// where there is none.
pub proof fn lemma_segment_len(s: Seq<char>)
    ensures
        0 <= segment_len(s) <= s.len(),
        forall|j: int| 0 <= j < segment_len(s) ==> s[j] != '_',
        segment_len(s) < s.len() ==> s[segment_len(s)] == '_',
    decreases s.len(),
{
    if s.len() == 0 || s[0] == '_' {
    } else {
        let t = s.skip(1);
        lemma_segment_len(t);
        assert forall|j: int| 0 <= j < segment_len(s) implies s[j] != '_' by {
            if j > 0 {
                assert(s[j] == t[j - 1]);
            }
        }
        if segment_len(s) < s.len() {
            assert(s[segment_len(s)] == t[segment_len(t)]);
        }
    }
}

/// A position before which no underscore stands, and which is the end of
/// `s` or holds an underscore, is `segment_len(s)`.
pub proof fn lemma_segment_len_is(s: Seq<char>, k: int)
    requires
        0 <= k <= s.len(),
        forall|j: int| 0 <= j < k ==> s[j] != '_',
        k < s.len() ==> s[k] == '_',
    ensures
        segment_len(s) == k,
{
    lemma_segment_len(s);
    let m = segment_len(s);
    if m < k {
        assert(s[m] == '_');
    } else if k < m {
        assert(s[k] != '_');
    }
}

/// A tag holds no underscore.
pub proof fn lemma_cased_has_no_underscore(s: Seq<char>)
    ensures
        forall|i: int| 0 <= i < cased(s).len() ==> cased(s)[i] != '_',
    decreases s.len(),
{
    lemma_segment_len(s);
    let k = segment_len(s);
    let head = cased_segment(s.take(k));
    assert forall|i: int| 0 <= i < head.len() implies head[i] != '_' by {
        if i > 0 {
            assert(head[i] == s[i]);
        } else {
            assert(s.take(k)[0] == s[0]);
        }
    }
    if k < s.len() {
        let tail = cased(s.skip(k + 1));
        lemma_cased_has_no_underscore(s.skip(k + 1));
        assert forall|i: int| 0 <= i < cased(s).len() implies cased(s)[i] != '_' by {
            if i >= head.len() {
                assert(cased(s)[i] == tail[i - head.len()]);
            } else {
                assert(cased(s)[i] == head[i]);
            }
        }
    } else {
        assert(s.take(k) =~= s);
    }
}

/// The names without a tag are the names that hold nothing but underscores.
pub proof fn lemma_cased_empty(s: Seq<char>)
    ensures
        cased(s).len() == 0 <==> (forall|i: int| 0 <= i < s.len() ==> s[i] == '_'),
    decreases s.len(),
{
    lemma_segment_len(s);
    let k = segment_len(s);
    if k < s.len() {
        let rest = s.skip(k + 1);
        lemma_cased_empty(rest);
        if k == 0 {
            if forall|i: int| 0 <= i < rest.len() ==> rest[i] == '_' {
                assert forall|i: int| 0 <= i < s.len() implies s[i] == '_' by {
                    if i > 0 {
                        assert(s[i] == rest[i - 1]);
                    }
                }
            } else {
                let i = choose|i: int| 0 <= i < rest.len() && rest[i] != '_';
                assert(s[i + 1] == rest[i]);
            }
        } else {
            assert(s[0] != '_');
        }
    } else if s.len() > 0 {
        assert(s[0] != '_');
    }
}

/// Tags are built segment by segment: the tag of two names joined by an
/// underscore is the tag of the first followed by the tag of the second.
pub proof fn lemma_cased_join(a: Seq<char>, b: Seq<char>)
    ensures
        cased(a + seq!['_'] + b) == cased(a) + cased(b),
    decreases a.len(),
{
    let whole = a + seq!['_'] + b;
    lemma_segment_len(a);
    let k = segment_len(a);
    assert forall|j: int| 0 <= j < k implies whole[j] != '_' by {
        assert(whole[j] == a[j]);
    }
    if k == a.len() {
        assert(whole[k] == '_');
        lemma_segment_len_is(whole, k);
        assert(whole.take(k) =~= a);
        assert(whole.skip(k + 1) =~= b);
    } else {
        assert(whole[k] == a[k]);
        lemma_segment_len_is(whole, k);
        let rest = a.skip(k + 1);
        lemma_cased_join(rest, b);
        assert(whole.take(k) =~= a.take(k));
        assert(whole.skip(k + 1) =~= rest + seq!['_'] + b);
        assert(cased_segment(a.take(k)) + (cased(rest) + cased(b)) =~= (cased_segment(a.take(k))
            + cased(rest)) + cased(b));
    }
}

/// The tag of the command case for the method `input`: each
/// underscore-delimited segment with its first character in ASCII upper
/// case, the segments joined and the underscores removed. A name that holds
/// nothing but underscores has the empty tag.
pub fn change_casing(input: &str) -> (tag: String)
    ensures
        tag@ == cased(input@),
{
    let mut tag = String::new();
    let mut fresh = true;
    let ghost start: int = 0;
    for c in it: input.chars()
        invariant
            it.seq() == input@,
            0 <= start <= it.index(),
            start > 0 ==> input@[start - 1] == '_',
            forall|j: int| start <= j < it.index() ==> input@[j] != '_',
            fresh == (start == it.index()),
            tag@ == (if start > 0 {
                cased(input@.take(start - 1))
            } else {
                Seq::<char>::empty()
            }) + cased_segment(input@.subrange(start, it.index())),
    {
        let ghost i = it.index();
        let ghost seg = input@.subrange(start, i);
        if c == '_' {
            proof {
                lemma_segment_len_is(seg, seg.len() as int);
                if start > 0 {
                    lemma_cased_join(input@.take(start - 1), seg);
                    assert(input@.take(i) =~= input@.take(start - 1) + seq!['_'] + seg);
                } else {
                    assert(input@.take(i) =~= seg);
                }
                assert(tag@ =~= cased(input@.take(i)));
                start = i + 1;
                assert(input@.subrange(start, i + 1) =~= Seq::<char>::empty());
            }
            fresh = true;
        } else {
            if fresh {
                push_char(&mut tag, to_upper(c));
            } else {
                push_char(&mut tag, c);
            }
            proof {
                let longer = input@.subrange(start, i + 1);
                if fresh {
                    assert(cased_segment(longer) =~= seq![ascii_upper(c)]);
                } else {
                    assert(cased_segment(longer) =~= cased_segment(seg).push(c));
                }
            }
            fresh = false;
        }
    }
    proof {
        let n = input@.len() as int;
        let seg = input@.subrange(start, n);
        lemma_segment_len_is(seg, seg.len() as int);
        if start > 0 {
            lemma_cased_join(input@.take(start - 1), seg);
            assert(input@ =~= input@.take(start - 1) + seq!['_'] + seg);
        } else {
            assert(input@ =~= seg);
        }
    }
    tag
}

} // verus!
