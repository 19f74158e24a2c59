//! Internal names: `arg_0`, `arg_1`, ... for the arguments of a command
//! case, and the names that generated code keeps for itself.

use vstd::prelude::*;
use vstd::string::StringExecFns;
use crate::text::push_char;

verus! {

/// The character that stands for the decimal digit `d`.
pub open spec fn digit(d: nat) -> char {
    ((('0' as u32) as nat + d) as u32) as char
}

/// The decimal digits of `n`, most significant first, without leading zeros.
pub open spec fn decimal(n: nat) -> Seq<char>
    decreases n,
{
    if n < 10 {
        seq![digit(n)]
    } else {
        decimal(n / 10).push(digit(n % 10))
    }
}

/// The internal name of the argument at position `i` of a command case.
pub open spec fn alias(i: nat) -> Seq<char> {
    "arg_"@ + decimal(i)
}

/// The name under which a dispatcher binds the response sender of a command
/// case.
pub open spec fn response_slot() -> Seq<char> {
    "resp"@
}

/// The name under which a facade wrapper holds the sender of the pair it
/// makes, as long as no parameter stands in its way.
pub open spec fn sender_slot() -> Seq<char> {
    "__brug_s"@
}

/// The name under which a facade wrapper holds the receiver of the pair it
/// makes, as long as no parameter stands in its way.
pub open spec fn receiver_slot() -> Seq<char> {
    "__brug_r"@
}

/// The two names that a facade wrapper keeps for its pair.
pub open spec fn pair_slots() -> Seq<Seq<char>> {
    seq![sender_slot(), receiver_slot()]
}

/// `n` underscores.
pub open spec fn underscores(n: nat) -> Seq<char> {
    Seq::new(n, |i: int| '_')
}

/// The length of the longest of the names; 0 where there is none.
pub open spec fn longest(names: Seq<Seq<char>>) -> nat
    decreases names.len(),
{
    if names.len() == 0 {
        0
    } else {
        let before = longest(names.drop_last());
        if names.last().len() > before {
            names.last().len()
        } else {
            before
        }
    }
}

/// One of the internal names is one of the names that are taken.
pub open spec fn meet(internal: Seq<Seq<char>>, taken: Seq<Seq<char>>) -> bool {
    exists|i: int, j: int|
        #![trigger internal[i], taken[j]]
        0 <= i < internal.len() && 0 <= j < taken.len() && internal[i] == taken[j]
}

/// What is added to each of the internal names to keep them clear of the
/// names that are taken. Nothing, as long as none of them is taken. Else as
/// many underscores as the longest taken name has characters, so that each
/// internal name becomes longer than every name that is taken.
pub open spec fn guard(internal: Seq<Seq<char>>, taken: Seq<Seq<char>>) -> Seq<char> {
    if meet(internal, taken) {
        underscores(longest(taken))
    } else {
        Seq::empty()
    }
}

/// No two of the names are the same.
pub open spec fn distinct(names: Seq<Seq<char>>) -> bool {
    forall|i: int, j: int| 0 <= i < j < names.len() ==> names[i] != names[j]
}

/// No name is longer than the longest.
pub proof fn lemma_longest(names: Seq<Seq<char>>, j: int)
    requires
        0 <= j < names.len(),
    ensures
        names[j].len() <= longest(names),
    decreases names.len(),
{
    if j < names.len() - 1 {
        lemma_longest(names.drop_last(), j);
    }
}

/// With its guard added, an internal name is none of the names that are
/// taken.
pub proof fn lemma_guard_keeps_clear(
    internal: Seq<Seq<char>>,
    taken: Seq<Seq<char>>,
    i: int,
    j: int,
)
    requires
        0 <= i < internal.len(),
        0 <= j < taken.len(),
        internal[i].len() > 0,
    ensures
        internal[i] + guard(internal, taken) != taken[j],
{
    if meet(internal, taken) {
        lemma_longest(taken, j);
        assert((internal[i] + guard(internal, taken)).len() > taken[j].len());
    } else {
        assert(internal[i] + guard(internal, taken) =~= internal[i]);
        if internal[i] == taken[j] {
            assert(meet(internal, taken));
        }
    }
}

/// Names that differ still differ when the same is added to both.
pub proof fn lemma_guard_keeps_apart(a: Seq<char>, b: Seq<char>, pad: Seq<char>)
    requires
        a != b,
    ensures
        a + pad != b + pad,
{
    if a + pad == b + pad {
        assert(a.len() == b.len()) by {
            assert((a + pad).len() == (b + pad).len());
        }
        assert(a =~= (a + pad).take(a.len() as int));
        assert(b =~= (b + pad).take(b.len() as int));
    }
}

/// A decimal rendering is never empty, and has two digits or more from ten
/// on.
pub proof fn lemma_decimal_len(n: nat)
    ensures
        decimal(n).len() >= 1,
        n >= 10 ==> decimal(n).len() >= 2,
    decreases n,
{
    if n >= 10 {
        lemma_decimal_len(n / 10);
    }
}

/// Different numbers have different decimal renderings.
pub proof fn lemma_decimal_injective(a: nat, b: nat)
    requires
        decimal(a) == decimal(b),
    ensures
        a == b,
    decreases a,
{
    lemma_decimal_len(a);
    lemma_decimal_len(b);
    if a < 10 && b < 10 {
        assert(decimal(a)[0] == digit(a));
        assert(decimal(b)[0] == digit(b));
    } else if a >= 10 && b >= 10 {
        let da = decimal(a / 10);
        let db = decimal(b / 10);
        assert(decimal(a).last() == digit(a % 10));
        assert(decimal(b).last() == digit(b % 10));
        assert(decimal(a).drop_last() =~= da);
        assert(decimal(b).drop_last() =~= db);
        lemma_decimal_injective(a / 10, b / 10);
    } else {
        assert(decimal(a).len() != decimal(b).len());
    }
}

/// Arguments at different positions have different internal names.
pub proof fn lemma_alias_injective(i: nat, j: nat)
    requires
        alias(i) == alias(j),
    ensures
        i == j,
{
    let p = "arg_"@;
    assert(alias(i).skip(p.len() as int) =~= decimal(i));
    assert(alias(j).skip(p.len() as int) =~= decimal(j));
    lemma_decimal_injective(i, j);
}

/// No internal argument name is the name of the response slot.
pub proof fn lemma_alias_not_response(i: nat)
    ensures
        alias(i) != response_slot(),
{
    reveal_strlit("arg_");
    reveal_strlit("resp");
    assert(alias(i)[0] == 'a');
    assert(response_slot()[0] == 'r');
}

fn digit_char(d: u8) -> (c: char)
    requires
        d < 10,
    ensures
        c == digit(d as nat),
{
    (48u8 + d) as char
}

fn push_decimal(s: &mut String, n: usize)
    ensures
        final(s)@ == old(s)@ + decimal(n as nat),
    decreases n,
{
    if n >= 10 {
        push_decimal(s, n / 10);
    }
    push_char(s, digit_char((n % 10) as u8));
    assert(s@ =~= old(s)@ + decimal(n as nat));
}

fn meets(internal: &Vec<String>, taken: &Vec<String>) -> (found: bool)
    ensures
        found == meet(internal.deep_view(), taken.deep_view()),
{
    let ghost names = internal.deep_view();
    let ghost others = taken.deep_view();
    let mut i: usize = 0;
    while i < internal.len()
        invariant
            names == internal.deep_view(),
            others == taken.deep_view(),
            0 <= i <= internal.len(),
            forall|a: int, b: int| 0 <= a < i && 0 <= b < others.len() ==> names[a] != others[b],
        decreases internal.len() - i,
    {
        let mut j: usize = 0;
        while j < taken.len()
            invariant
                names == internal.deep_view(),
                others == taken.deep_view(),
                0 <= i < internal.len(),
                0 <= j <= taken.len(),
                forall|a: int, b: int|
                    0 <= a < i && 0 <= b < others.len() ==> names[a] != others[b],
                forall|b: int| 0 <= b < j ==> names[i as int] != others[b],
            decreases taken.len() - j,
        {
            if internal[i] == taken[j] {
                assert(names[i as int] == others[j as int]);
                return true;
            }
            j += 1;
        }
        i += 1;
    }
    false
}

fn longest_of(names: &Vec<String>) -> (length: usize)
    ensures
        length == longest(names.deep_view()),
{
    let ghost all = names.deep_view();
    let mut length: usize = 0;
    let mut i: usize = 0;
    while i < names.len()
        invariant
            all == names.deep_view(),
            0 <= i <= names.len(),
            length == longest(all.take(i as int)),
        decreases names.len() - i,
    {
        let here = names[i].as_str().unicode_len();
        proof {
            let next = all.take(i + 1);
            assert(next.drop_last() =~= all.take(i as int));
            assert(next.last() == names[i as int]@);
        }
        if here > length {
            length = here;
        }
        i += 1;
    }
    proof {
        assert(all.take(names.len() as int) =~= all);
    }
    length
}

fn underscores_of(n: usize) -> (text: String)
    ensures
        text@ == underscores(n as nat),
{
    let mut text = String::new();
    let mut i: usize = 0;
    while i < n
        invariant
            0 <= i <= n,
            text@ == underscores(i as nat),
        decreases n - i,
    {
        push_char(&mut text, '_');
        assert(text@ =~= underscores((i + 1) as nat));
        i += 1;
    }
    text
}

/// What is to be added to each of the internal names to keep them clear of
/// the names that are taken.
pub fn guard_of(internal: &Vec<String>, taken: &Vec<String>) -> (pad: String)
    ensures
        pad@ == guard(internal.deep_view(), taken.deep_view()),
{
    if meets(internal, taken) {
        underscores_of(longest_of(taken))
    } else {
        String::new()
    }
}

/// The internal name of the argument at position `i`.
pub fn alias_name(i: usize) -> (name: String)
    ensures
        name@ == alias(i as nat),
{
    let mut name = String::new();
    name.append("arg_");
    push_decimal(&mut name, i);
    assert(name@ =~= alias(i as nat));
    name
}

} // verus!
