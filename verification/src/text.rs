//! Small text helpers: comparing, joining, and writing numbers in decimal.

use vstd::prelude::*;
use vstd::string::{StrSliceExecFns, StringExecFns};

verus! {

/// The character of the decimal digit `d`.
pub open spec fn digit_char(d: nat) -> char {
    if d == 0 {
        '0'
    } else if d == 1 {
        '1'
    } else if d == 2 {
        '2'
    } else if d == 3 {
        '3'
    } else if d == 4 {
        '4'
    } else if d == 5 {
        '5'
    } else if d == 6 {
        '6'
    } else if d == 7 {
        '7'
    } else if d == 8 {
        '8'
    } else {
        '9'
    }
}

/// `n` in decimal, without leading zeros.
pub open spec fn decimal(n: nat) -> Seq<char>
    decreases n,
{
    if n < 10 {
        seq![digit_char(n)]
    } else {
        decimal(n / 10).push(digit_char(n % 10))
    }
}

/// Two different numbers never read the same in decimal.
pub proof fn decimal_is_injective(a: nat, b: nat)
    requires
        decimal(a) == decimal(b),
    ensures
        a == b,
    decreases a,
{
    let x = decimal(a);
    let y = decimal(b);
    assert(x.last() == y.last());
    if a >= 10 && b >= 10 {
        assert(x.drop_last() =~= decimal(a / 10));
        assert(y.drop_last() =~= decimal(b / 10));
        decimal_is_injective(a / 10, b / 10);
    } else if a >= 10 {
        decimal_is_nonempty(a / 10);
    } else if b >= 10 {
        decimal_is_nonempty(b / 10);
    }
}

/// Every number takes at least one digit, and every character of it is a digit.
pub proof fn decimal_is_nonempty(n: nat)
    ensures
        decimal(n).len() >= 1,
        forall|i: int| 0 <= i < decimal(n).len() ==> '0' <= #[trigger] decimal(n)[i] <= '9',
    decreases n,
{
    if n >= 10 {
        decimal_is_nonempty(n / 10);
    }
}

/// The decimal digit `d`, as text.
fn digit_text(d: u64) -> (r: &'static str)
    requires
        d < 10,
    ensures
        r@ == seq![digit_char(d as nat)],
{
    proof {
        reveal_strlit("0");
        reveal_strlit("1");
        reveal_strlit("2");
        reveal_strlit("3");
        reveal_strlit("4");
        reveal_strlit("5");
        reveal_strlit("6");
        reveal_strlit("7");
        reveal_strlit("8");
        reveal_strlit("9");
    }
    if d == 0 {
        "0"
    } else if d == 1 {
        "1"
    } else if d == 2 {
        "2"
    } else if d == 3 {
        "3"
    } else if d == 4 {
        "4"
    } else if d == 5 {
        "5"
    } else if d == 6 {
        "6"
    } else if d == 7 {
        "7"
    } else if d == 8 {
        "8"
    } else {
        "9"
    }
}

/// Write `n` in decimal.
pub fn decimal_text(n: u64) -> (r: String)
    ensures
        r@ == decimal(n as nat),
    decreases n,
{
    if n < 10 {
        digit_text(n).to_owned()
    } else {
        let mut s = decimal_text(n / 10);
        s.append(digit_text(n % 10));
        s
    }
}

/// Whether two texts are the same, character for character.
pub fn same_text(a: &str, b: &str) -> (r: bool)
    ensures
        r == (a@ == b@),
{
    a.to_owned() == b.to_owned()
}

/// `a` followed by `b`.
pub fn join2(a: &str, b: &str) -> (r: String)
    ensures
        r@ == a@ + b@,
{
    let mut s = a.to_owned();
    s.append(b);
    s
}

/// `a`, `b` and `c`, one after the other.
pub fn join3(a: &str, b: &str, c: &str) -> (r: String)
    ensures
        r@ == a@ + b@ + c@,
{
    let mut s = a.to_owned();
    s.append(b);
    s.append(c);
    s
}

/// Whether `a` sorts before or at `b`, comparing character by character.
pub open spec fn text_le(a: Seq<char>, b: Seq<char>) -> bool
    decreases a.len(),
{
    if a.len() == 0 {
        true
    } else if b.len() == 0 {
        false
    } else if a[0] != b[0] {
        a[0] < b[0]
    } else {
        text_le(a.drop_first(), b.drop_first())
    }
}

/// The order of texts is total.
pub proof fn text_le_is_total(a: Seq<char>, b: Seq<char>)
    ensures
        text_le(a, b) || text_le(b, a),
    decreases a.len(),
{
    if a.len() > 0 && b.len() > 0 && a[0] == b[0] {
        text_le_is_total(a.drop_first(), b.drop_first());
    }
}

/// The order of texts is transitive.
pub proof fn text_le_is_transitive(a: Seq<char>, b: Seq<char>, c: Seq<char>)
    requires
        text_le(a, b),
        text_le(b, c),
    ensures
        text_le(a, c),
    decreases a.len(),
{
    if a.len() > 0 && b.len() > 0 && c.len() > 0 && a[0] == b[0] && b[0] == c[0] {
        text_le_is_transitive(a.drop_first(), b.drop_first(), c.drop_first());
    }
}

/// Two texts that sort before or at each other are the same text.
pub proof fn text_le_is_antisymmetric(a: Seq<char>, b: Seq<char>)
    requires
        text_le(a, b),
        text_le(b, a),
    ensures
        a == b,
    decreases a.len(),
{
    if a.len() > 0 && b.len() > 0 {
        text_le_is_antisymmetric(a.drop_first(), b.drop_first());
        assert(a =~= seq![a[0]] + a.drop_first());
    }
}

/// Whether `a` sorts before or at `b`.
pub fn sorts_before(a: &str, b: &str) -> (r: bool)
    ensures
        r == text_le(a@, b@),
{
    let n = a.unicode_len();
    let m = b.unicode_len();
    let mut i: usize = 0;
    proof {
        assert(a@.skip(0) =~= a@);
        assert(b@.skip(0) =~= b@);
    }
    while i < n && i < m
        invariant
            n == a@.len(),
            m == b@.len(),
            i <= n,
            i <= m,
            text_le(a@, b@) == text_le(a@.skip(i as int), b@.skip(i as int)),
        decreases n - i,
    {
        let x = a.get_char(i);
        let y = b.get_char(i);
        proof {
            assert(a@.skip(i as int).drop_first() =~= a@.skip(i + 1));
            assert(b@.skip(i as int).drop_first() =~= b@.skip(i + 1));
        }
        if x != y {
            return x < y;
        }
        i = i + 1;
    }
    i == n
}

/// The order of texts, as a relation.
pub open spec fn text_order() -> spec_fn(Seq<char>, Seq<char>) -> bool {
    |a: Seq<char>, b: Seq<char>| text_le(a, b)
}

/// The order of texts is a total order.
pub proof fn text_order_is_total()
    ensures
        vstd::relations::total_ordering(text_order()),
{
    let leq = text_order();
    assert forall|a: Seq<char>| #[trigger] leq(a, a) by {
        text_le_is_total(a, a);
    }
    assert forall|a: Seq<char>, b: Seq<char>| #[trigger] leq(a, b) && #[trigger] leq(b, a) implies a
        == b by {
        text_le_is_antisymmetric(a, b);
    }
    assert forall|a: Seq<char>, b: Seq<char>, c: Seq<char>| #[trigger]
        leq(a, b) && #[trigger] leq(b, c) implies leq(a, c) by {
        text_le_is_transitive(a, b, c);
    }
    assert forall|a: Seq<char>, b: Seq<char>| #[trigger] leq(a, b) || #[trigger] leq(b, a) by {
        text_le_is_total(a, b);
    }
}

/// Texts as a sequence of mathematical values.
pub open spec fn text_views(texts: Seq<String>) -> Seq<Seq<char>> {
    texts.map_values(|t: String| t@)
}

/// Whether a list holds a text.
pub fn holds_text(texts: &Vec<String>, text: &str) -> (r: bool)
    ensures
        r == text_views(texts@).contains(text@),
{
    let mut i: usize = 0;
    while i < texts.len()
        invariant
            i <= texts@.len(),
            forall|j: int| 0 <= j < i ==> #[trigger] texts@[j]@ != text@,
        decreases texts@.len() - i,
    {
        if same_text(texts[i].as_str(), text) {
            assert(text_views(texts@)[i as int] == text@);
            return true;
        }
        i = i + 1;
    }
    false
}

/// The texts in order.
pub open spec fn sorted_texts(texts: Seq<Seq<char>>) -> Seq<Seq<char>> {
    texts.sort_by(text_order())
}

/// Putting one more text into a list adds it to what the list holds.
proof fn inserting_adds(texts: Seq<Seq<char>>, i: int, text: Seq<char>)
    requires
        0 <= i <= texts.len(),
    ensures
        texts.insert(i, text).to_multiset() == texts.to_multiset().insert(text),
{
    broadcast use vstd::seq_lib::group_to_multiset_ensures;

    assert(texts.insert(i, text).remove(i) =~= texts);
}

/// Put texts in order.
pub fn sort_texts(texts: &Vec<String>) -> (r: Vec<String>)
    ensures
        text_views(r@) == sorted_texts(text_views(texts@)),
{
    let ghost all = text_views(texts@);
    let ghost leq = text_order();
    let mut sorted: Vec<String> = Vec::new();
    let mut i: usize = 0;
    proof {
        text_order_is_total();
        assert(text_views(sorted@) =~= all.take(0));
    }
    while i < texts.len()
        invariant
            i <= texts@.len(),
            all == text_views(texts@),
            leq == text_order(),
            vstd::relations::total_ordering(leq),
            vstd::relations::sorted_by(text_views(sorted@), leq),
            text_views(sorted@).to_multiset() == all.take(i as int).to_multiset(),
        decreases texts@.len() - i,
    {
        let ghost before = text_views(sorted@);
        let text = texts[i].clone();
        // Everything up to `at` sorts before `text`, or is the same.
        let mut at: usize = 0;
        while at < sorted.len() && sorts_before(sorted[at].as_str(), text.as_str())
            invariant
                at <= sorted@.len(),
                before == text_views(sorted@),
                leq == text_order(),
                forall|j: int| 0 <= j < at ==> leq(#[trigger] before[j], text@),
            decreases sorted@.len() - at,
        {
            at = at + 1;
        }
        proof {
            let t = text@;
            assert forall|j: int| at <= j < before.len() implies leq(t, #[trigger] before[j]) by {
                assert(leq(t, before[at as int]) || leq(before[at as int], t));
                if j > at {
                    assert(leq(before[at as int], before[j]));
                }
            }
        }
        sorted.insert(at, text);
        proof {
            let t = text@;
            let after = text_views(sorted@);
            assert(after =~= before.insert(at as int, t));
            assert forall|j: int, k: int| 0 <= j < k < after.len() implies #[trigger] leq(
                after[j],
                after[k],
            ) by {}
            inserting_adds(before, at as int, t);
            vstd::seq_lib::to_multiset_build(all.take(i as int), t);
            assert(all.take(i + 1) =~= all.take(i as int).push(t));
        }
        i = i + 1;
    }
    proof {
        assert(all.take(all.len() as int) =~= all);
        all.lemma_sort_by_ensures(leq);
        vstd::seq_lib::lemma_sorted_unique(text_views(sorted@), all.sort_by(leq), leq);
    }
    sorted
}

/// Texts one after the other, with `between` between them.
pub open spec fn joined(texts: Seq<Seq<char>>, between: Seq<char>) -> Seq<char>
    decreases texts.len(),
{
    if texts.len() == 0 {
        Seq::empty()
    } else if texts.len() == 1 {
        texts[0]
    } else {
        joined(texts.drop_last(), between) + between + texts.last()
    }
}

/// Write texts one after the other, with `between` between them.
pub fn join_texts(texts: &Vec<String>, between: &str) -> (r: String)
    ensures
        r@ == joined(text_views(texts@), between@),
{
    let ghost all = text_views(texts@);
    let mut text = String::new();
    let mut i: usize = 0;
    while i < texts.len()
        invariant
            i <= texts@.len(),
            all == text_views(texts@),
            text@ == joined(all.take(i as int), between@),
        decreases texts@.len() - i,
    {
        assert(all.take(i + 1).drop_last() =~= all.take(i as int));
        if i > 0 {
            text.append(between);
        }
        text.append(texts[i].as_str());
        i = i + 1;
    }
    assert(all.take(all.len() as int) =~= all);
    text
}

/// The number that a text of digits stands for.
pub open spec fn number_of(digits: Seq<char>) -> int
    decreases digits.len(),
{
    if digits.len() == 0 {
        0
    } else {
        number_of(digits.drop_last()) * 10 + (digits.last() as int - '0' as int)
    }
}

/// A number that is written in decimal reads back as itself, and is written
/// without a leading zero.
pub proof fn a_decimal_reads_back(n: nat)
    ensures
        number_of(decimal(n)) == n,
        n > 0 ==> decimal(n)[0] != '0',
    decreases n,
{
    if n < 10 {
        reveal_with_fuel(number_of, 2);
        assert(decimal(n).drop_last() =~= Seq::empty());
    } else {
        a_decimal_reads_back(n / 10);
        decimal_is_nonempty(n / 10);
        assert(decimal(n).drop_last() =~= decimal(n / 10));
        assert(decimal(n)[0] == decimal(n / 10)[0]);
    }
}

/// Texts sort by the first character in which they differ, and a text sorts before
/// every longer one that begins with it.
pub proof fn texts_sort_by_their_first_difference(a: Seq<char>, b: Seq<char>, i: int)
    requires
        0 <= i <= a.len(),
        i <= b.len(),
        forall|j: int| 0 <= j < i ==> a[j] == b[j],
    ensures
        i == a.len() ==> text_le(a, b),
        i == b.len() && i < a.len() ==> !text_le(a, b),
        i < a.len() && i < b.len() && a[i] != b[i] ==> text_le(a, b) == (a[i] < b[i]),
    decreases i,
{
    if i > 0 {
        let x = a.drop_first();
        let y = b.drop_first();
        assert forall|j: int| 0 <= j < i - 1 implies x[j] == y[j] by {
            assert(a[j + 1] == b[j + 1]);
        }
        texts_sort_by_their_first_difference(x, y, i - 1);
    }
}

/// Texts that are put in order are the same texts, each as often, and every one of
/// them sorts before or at every later one.
pub proof fn texts_in_order_are_the_same_texts(texts: Seq<Seq<char>>)
    ensures
        sorted_texts(texts).to_multiset() == texts.to_multiset(),
        sorted_texts(texts).len() == texts.len(),
        forall|i: int, j: int|
            0 <= i < j < sorted_texts(texts).len() ==> text_le(
                #[trigger] sorted_texts(texts)[i],
                #[trigger] sorted_texts(texts)[j],
            ),
        forall|text: Seq<char>| sorted_texts(texts).contains(text) <==> texts.contains(text),
{
    let leq = text_order();
    text_order_is_total();
    texts.lemma_sort_by_ensures(leq);
    let sorted = sorted_texts(texts);
    assert forall|i: int, j: int| 0 <= i < j < sorted.len() implies text_le(
        #[trigger] sorted[i],
        #[trigger] sorted[j],
    ) by {
        assert(leq(sorted[i], sorted[j]));
    }
    sorted.to_multiset_ensures();
    texts.to_multiset_ensures();
    assert forall|text: Seq<char>| sorted.contains(text) <==> texts.contains(text) by {
        assert(sorted.contains(text) <==> sorted.to_multiset().count(text) > 0);
        assert(texts.contains(text) <==> texts.to_multiset().count(text) > 0);
    }
}

/// Texts are joined in order, with the separator between two of them and nowhere
/// else.
pub proof fn texts_are_joined_with_separators_between(
    texts: Seq<Seq<char>>,
    last: Seq<char>,
    between: Seq<char>,
)
    ensures
        joined(Seq::empty(), between) == Seq::<char>::empty(),
        joined(seq![last], between) == last,
        texts.len() > 0 ==> joined(texts.push(last), between) == joined(texts, between) + between
            + last,
{
    assert(texts.push(last).drop_last() =~= texts);
}

/// The views of texts keep them one for one, in order.
pub proof fn views_of_texts_keep_their_order(texts: Seq<String>, i: int)
    requires
        0 <= i < texts.len(),
    ensures
        text_views(texts).len() == texts.len(),
        text_views(texts)[i] == texts[i]@,
{
}

} // verus!
