//! Numbers as they are shown to people.
use vstd::prelude::*;
use vstd::string::*;
use crate::text;

verus! {

/// Three digits: the last three of the decimal notation of `n`, with leading zeros.
pub open spec fn three_digits(n: nat) -> Seq<char> {
    seq![text::digit(n / 100 % 10), text::digit(n / 10 % 10), text::digit(n % 10)]
}

/// The decimal notation of `n` with a comma before every group of three digits but the
/// first group.
pub open spec fn grouped(n: nat) -> Seq<char>
    decreases n,
{
    if n < 1000 {
        text::decimal(n)
    } else {
        grouped(n / 1000) + seq![','] + three_digits(n % 1000)
    }
}

/// The decimal notation of `num` in groups of three digits with commas between them.
pub fn format_number(num: u64) -> (s: String)
    ensures
        s@ == grouped(num as nat),
{
    let digits = text::decimal_text(num);
    let v = text::chars_of(digits.as_str());
    let n: usize = v.len();
    let mut s = String::new();
    let mut i: usize = 0;
    while i < n
        invariant
            n == v@.len(),
            i <= n,
            s@ == with_commas(v@, i as int),
        decreases n - i,
    {
        if i != 0 && (n - i) % 3 == 0 {
            s.push(',');
        }
        s.push(v[i]);
        i = i + 1;
    }
    proof {
        lemma_with_commas_is_grouped(num as nat);
    }
    s
}

/// The first `k` digits of `v` with a comma before each digit, but the first one, from
/// which on the number of digits is a multiple of three.
pub open spec fn with_commas(v: Seq<char>, k: int) -> Seq<char>
    decreases k,
{
    if k <= 0 {
        Seq::empty()
    } else {
        let i = k - 1;
        let before = with_commas(v, i);
        if i != 0 && (v.len() - i) % 3 == 0 {
            before.push(',').push(v[i])
        } else {
            before.push(v[i])
        }
    }
}

/// Three more digits at the end leave the commas among the others where they are.
proof fn lemma_with_commas_extended(v: Seq<char>, w: Seq<char>, k: int)
    requires
        w.len() == v.len() + 3,
        forall|i: int| 0 <= i < v.len() ==> w[i] == v[i],
        0 <= k <= v.len(),
    ensures
        with_commas(w, k) == with_commas(v, k),
    decreases k,
{
    if k > 0 {
        lemma_with_commas_extended(v, w, k - 1);
    }
}

/// The decimal notation of a number of four digits or more ends with its last three.
proof fn lemma_decimal_splits(n: nat)
    requires
        n >= 1000,
    ensures
        text::decimal(n) == text::decimal(n / 1000) + three_digits(n % 1000),
{
    let a = n / 10;
    let b = n / 100;
    let c = n / 1000;
    assert(a / 10 == b && b / 10 == c);
    assert(text::decimal(n) == text::decimal(a).push(text::digit(n % 10)));
    assert(text::decimal(a) == text::decimal(b).push(text::digit(a % 10)));
    assert(text::decimal(b) == text::decimal(c).push(text::digit(b % 10)));
    let low = n % 1000;
    assert(low / 100 % 10 == b % 10);
    assert(low / 10 % 10 == a % 10);
    assert(low % 10 == n % 10);
    assert(text::decimal(n) =~= text::decimal(c) + three_digits(low));
}

proof fn lemma_with_commas_is_grouped(n: nat)
    ensures
        with_commas(text::decimal(n), text::decimal(n).len() as int) == grouped(n),
    decreases n,
{
    let w = text::decimal(n);
    if n < 1000 {
        reveal_with_fuel(text::decimal, 4);
        reveal_with_fuel(with_commas, 4);
        assert(with_commas(w, w.len() as int) =~= w);
    } else {
        let v = text::decimal(n / 1000);
        let low = three_digits(n % 1000);
        lemma_decimal_splits(n);
        lemma_with_commas_is_grouped(n / 1000);
        text::lemma_decimal_digits(n / 1000);
        let k = v.len() as int;
        lemma_with_commas_extended(v, w, k);
        assert(with_commas(w, k + 1) == with_commas(w, k).push(',').push(low[0]));
        assert(with_commas(w, k + 2) == with_commas(w, k + 1).push(low[1]));
        assert(with_commas(w, k + 3) == with_commas(w, k + 2).push(low[2]));
        assert(with_commas(w, k + 3) =~= grouped(n / 1000) + seq![','] + low);
    }
}

/// `s` without its commas.
pub open spec fn without_commas(s: Seq<char>) -> Seq<char> {
    s.filter(|c: char| c != ',')
}

/// Without its commas, a formatted number is the decimal notation of the number.
pub proof fn formatting_only_adds_commas(n: nat)
    ensures
        without_commas(grouped(n)) == text::decimal(n),
    decreases n,
{
    reveal(Seq::filter);
    let pred = |c: char| c != ',';
    if n < 1000 {
        lemma_no_commas(text::decimal(n), n);
    } else {
        formatting_only_adds_commas(n / 1000);
        lemma_decimal_splits(n);
        let head = grouped(n / 1000);
        let low = three_digits(n % 1000);
        let comma = seq![','];
        Seq::filter_distributes_over_add(head + comma, low, pred);
        Seq::filter_distributes_over_add(head, comma, pred);
        assert(comma.drop_last() =~= Seq::<char>::empty());
        assert(comma.drop_last().filter(pred) =~= Seq::<char>::empty());
        assert(comma.filter(pred) =~= Seq::<char>::empty());
        lemma_filter_keeps_all(low, pred);
        assert(without_commas(grouped(n)) =~= text::decimal(n / 1000) + low);
    }
}

proof fn lemma_no_commas(s: Seq<char>, n: nat)
    requires
        s == text::decimal(n),
    ensures
        without_commas(s) == s,
{
    text::lemma_decimal_digits(n);
    lemma_filter_keeps_all(s, |c: char| c != ',');
}

proof fn lemma_filter_keeps_all(s: Seq<char>, pred: spec_fn(char) -> bool)
    requires
        forall|i: int| 0 <= i < s.len() ==> pred(#[trigger] s[i]),
    ensures
        s.filter(pred) == s,
    decreases s.len(),
{
    reveal(Seq::filter);
    if s.len() > 0 {
        assert(pred(s[s.len() - 1]));
        lemma_filter_keeps_all(s.drop_last(), pred);
        assert(s.drop_last().push(s.last()) =~= s);
    } else {
        assert(s.filter(pred) =~= s);
    }
}

/// In a formatted number the commas are exactly the characters that have a multiple of
/// four characters from them on, and none is the first.
pub proof fn commas_part_groups_of_three(n: nat)
    ensures
        grouped(n).len() % 4 != 0,
        forall|i: int|
            0 <= i < grouped(n).len() ==> (#[trigger] grouped(n)[i] == ',' <==> (grouped(n).len()
                - i) % 4 == 0),
    decreases n,
{
    let s = grouped(n);
    if n < 1000 {
        reveal_with_fuel(text::decimal, 4);
        text::lemma_decimal_digits(n);
        assert(1 <= s.len() <= 3);
        assert forall|i: int| 0 <= i < s.len() implies (#[trigger] s[i] == ',' <==> (s.len() - i)
            % 4 == 0) by {
            assert(text::is_digit(text::decimal(n)[i]));
        }
    } else {
        commas_part_groups_of_three(n / 1000);
        let head = grouped(n / 1000);
        assert(s.len() == head.len() + 4);
        assert forall|i: int| 0 <= i < s.len() implies (#[trigger] s[i] == ',' <==> (s.len() - i)
            % 4 == 0) by {
            if i < head.len() {
                assert(s[i] == head[i]);
            } else if i == head.len() {
                assert(s[i] == ',');
            } else {
                assert(s[i] == three_digits(n % 1000)[i - head.len() - 1]);
            }
        }
    }
}

} // verus!
