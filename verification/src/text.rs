//! Text building blocks: decimal printing of indices, pattern search and
//! replacement, and the path-segment slicing that basename derivation needs.
use vstd::prelude::*;
use vstd::string::StrSliceExecFns;
use vstd::string::StringExecFns;

verus! {

/// The decimal digit character for `d` (`d < 10`).
pub open spec fn spec_digit_char(d: nat) -> char {
    if d == 0 {
        '0'
    } else if d == 1 {
        '1'
    } else if d == 2 {
        '2'
    } else if d == 3 {
        '3'
    } else if d == 4 {
        '4'
    } else if d == 5 {
        '5'
    } else if d == 6 {
        '6'
    } else if d == 7 {
        '7'
    } else if d == 8 {
        '8'
    } else {
        '9'
    }
}

/// The decimal digits of `n`, most significant first, without a sign and
/// without leading zeros (a single `'0'` for zero).
pub open spec fn spec_nat_digits(n: nat) -> Seq<char>
    decreases n,
{
    if n < 10 {
        seq![spec_digit_char(n)]
    } else {
        spec_nat_digits(n / 10) + seq![spec_digit_char(n % 10)]
    }
}

fn digit_str(d: usize) -> (s: &'static str)
    requires
        d < 10,
    ensures
        s@ == seq![spec_digit_char(d as nat)],
{
    let s: &'static str = if d == 0 {
        "0"
    } else if d == 1 {
        "1"
    } else if d == 2 {
        "2"
    } else if d == 3 {
        "3"
    } else if d == 4 {
        "4"
    } else if d == 5 {
        "5"
    } else if d == 6 {
        "6"
    } else if d == 7 {
        "7"
    } else if d == 8 {
        "8"
    } else {
        "9"
    };
    proof {
        reveal_strlit("0");
        reveal_strlit("1");
        reveal_strlit("2");
        reveal_strlit("3");
        reveal_strlit("4");
        reveal_strlit("5");
        reveal_strlit("6");
        reveal_strlit("7");
        reveal_strlit("8");
        reveal_strlit("9");
        assert(s@ =~= seq![spec_digit_char(d as nat)]);
    }
    s
}

/// Prints `n` in decimal.
pub fn usize_to_string(n: usize) -> (s: String)
    ensures
        s@ == spec_nat_digits(n as nat),
    decreases n,
{
    if n < 10 {
        digit_str(n).to_owned()
    } else {
        let mut s = usize_to_string(n / 10);
        s.append(digit_str(n % 10));
        assert(s@ =~= spec_nat_digits(n as nat));
        s
    }
}

/// The value of a decimal digit character (10 for any other character).
pub open spec fn spec_digit_val(c: char) -> nat {
    if c == '0' {
        0
    } else if c == '1' {
        1
    } else if c == '2' {
        2
    } else if c == '3' {
        3
    } else if c == '4' {
        4
    } else if c == '5' {
        5
    } else if c == '6' {
        6
    } else if c == '7' {
        7
    } else if c == '8' {
        8
    } else if c == '9' {
        9
    } else {
        10
    }
}

/// The number a run of decimal digits denotes.
pub open spec fn spec_digits_to_nat(s: Seq<char>) -> nat
    decreases s.len(),
{
    if s.len() == 0 {
        0
    } else {
        spec_digits_to_nat(s.drop_last()) * 10 + spec_digit_val(s.last())
    }
}

proof fn lemma_digits_value(n: nat)
    ensures
        spec_digits_to_nat(spec_nat_digits(n)) == n,
    decreases n,
{
    if n < 10 {
        let s = spec_nat_digits(n);
        assert(s =~= seq![spec_digit_char(n)]);
        assert(s.last() == spec_digit_char(n));
        assert(s.drop_last() =~= Seq::<char>::empty());
        assert(spec_digits_to_nat(Seq::<char>::empty()) == 0);
        assert(spec_digits_to_nat(s) == spec_digits_to_nat(s.drop_last()) * 10 + spec_digit_val(
            s.last(),
        ));
        assert(spec_digit_val(spec_digit_char(n)) == n);
    } else {
        lemma_digits_value(n / 10);
        let s = spec_nat_digits(n);
        assert(s == spec_nat_digits(n / 10) + seq![spec_digit_char(n % 10)]);
        assert(s.len() == spec_nat_digits(n / 10).len() + 1);
        assert(s.drop_last() =~= spec_nat_digits(n / 10));
        assert(s.last() == spec_digit_char(n % 10));
        assert(spec_digits_to_nat(s) == spec_digits_to_nat(s.drop_last()) * 10 + spec_digit_val(
            s.last(),
        ));
        assert(spec_digit_val(spec_digit_char(n % 10)) == n % 10);
        assert(n / 10 * 10 + n % 10 == n) by {
            vstd::arithmetic::div_mod::lemma_fundamental_div_mod(n as int, 10);
        }
    }
}

/// Law: decimal printing is injective — distinct numbers print to
/// distinct digit runs, so index-suffixed local names never collide
/// across the shapes of one generated scope.
pub proof fn lemma_nat_digits_injective(i: nat, j: nat)
    requires
        i != j,
    ensures
        spec_nat_digits(i) != spec_nat_digits(j),
{
    lemma_digits_value(i);
    lemma_digits_value(j);
}

/// Whether `pat` occurs in `s` as a contiguous run.
pub open spec fn spec_contains(s: Seq<char>, pat: Seq<char>) -> bool
    decreases s.len(),
{
    if pat.len() > s.len() {
        false
    } else if s.subrange(0, pat.len() as int) == pat {
        true
    } else if s.len() == 0 {
        false
    } else {
        spec_contains(s.drop_first(), pat)
    }
}

/// `s` with every match of `pat`, found left to right and without
/// overlap, replaced by `to`.  A match is consumed whole before the
/// search goes on.  An empty `pat` leaves `s` unchanged.
pub open spec fn spec_replace_all(s: Seq<char>, pat: Seq<char>, to: Seq<char>) -> Seq<char>
    decreases s.len(),
{
    if pat.len() == 0 || pat.len() > s.len() {
        s
    } else if s.subrange(0, pat.len() as int) == pat {
        to + spec_replace_all(s.skip(pat.len() as int), pat, to)
    } else {
        seq![s[0]] + spec_replace_all(s.drop_first(), pat, to)
    }
}

/// Law: replacement of a pattern that does not occur changes nothing.
pub proof fn lemma_replace_absent_is_noop(s: Seq<char>, pat: Seq<char>, to: Seq<char>)
    requires
        !spec_contains(s, pat),
    ensures
        spec_replace_all(s, pat, to) == s,
    decreases s.len(),
{
    if pat.len() == 0 || pat.len() > s.len() {
    } else {
        assert(s.subrange(0, pat.len() as int) != pat);
        assert(s.len() > 0);
        assert(!spec_contains(s.drop_first(), pat));
        lemma_replace_absent_is_noop(s.drop_first(), pat, to);
        assert(seq![s[0]] + s.drop_first() =~= s);
    }
}

/// Relies on `str::contains`: whether the pattern occurs in the text.
#[verifier::external_body]
pub(crate) fn contains_pattern(s: &str, pat: &str) -> (r: bool)
    ensures
        r == spec_contains(s@, pat@),
{
    s.contains(pat)
}

/// Relies on `str::replace`: every match of the pattern, found left to
/// right without overlap, is replaced by the replacement text.
#[verifier::external_body]
pub(crate) fn replace_all(s: &str, pat: &str, to: &str) -> (r: String)
    requires
        pat@.len() > 0,
    ensures
        r@ == spec_replace_all(s@, pat@, to@),
{
    s.replace(pat, to)
}

/// The lowercase form of `s`, as `str::to_lowercase` computes it; the
/// result depends on the characters alone.
pub uninterp spec fn lower_of(s: Seq<char>) -> Seq<char>;

/// Relies on `str::to_lowercase`: the result is a function of the
/// characters alone, and an empty text stays empty.
#[verifier::external_body]
pub(crate) fn lowercase(s: &str) -> (r: String)
    ensures
        r@ == lower_of(s@),
        s@.len() == 0 ==> r@.len() == 0,
{
    s.to_lowercase()
}

/// The run of characters after the last `'/'` of `s` (all of `s` when no
/// `'/'` occurs).
pub open spec fn spec_after_last_slash(s: Seq<char>) -> Seq<char>
    decreases s.len(),
{
    if s.len() == 0 {
        s
    } else if s.last() == '/' {
        Seq::empty()
    } else {
        spec_after_last_slash(s.drop_last()).push(s.last())
    }
}

/// Whether the character `c` occurs in `s`.
pub open spec fn spec_has_char(s: Seq<char>, c: char) -> bool {
    exists|i: int| 0 <= i < s.len() && s[i] == c
}

/// The run of characters before the last `'.'` of `s` — the name with
/// its extension stripped — or all of `s` when no `'.'` occurs.
pub open spec fn spec_before_last_dot(s: Seq<char>) -> Seq<char>
    decreases s.len(),
{
    if s.len() == 0 {
        s
    } else if s.last() == '.' {
        s.drop_last()
    } else if spec_has_char(s.drop_last(), '.') {
        spec_before_last_dot(s.drop_last())
    } else {
        s
    }
}

proof fn lemma_after_last_slash(s: Seq<char>, cut: int)
    requires
        0 <= cut <= s.len(),
        forall|k: int| cut <= k < s.len() ==> s[k] != '/',
        cut > 0 ==> s[cut - 1] == '/',
    ensures
        spec_after_last_slash(s) == s.subrange(cut, s.len() as int),
    decreases s.len(),
{
    if cut == s.len() {
        if s.len() == 0 {
            assert(spec_after_last_slash(s) =~= s.subrange(cut, s.len() as int));
        } else {
            assert(s.last() == '/');
            assert(spec_after_last_slash(s) =~= s.subrange(cut, s.len() as int));
        }
    } else {
        assert(s.last() != '/');
        lemma_after_last_slash(s.drop_last(), cut);
        assert(spec_after_last_slash(s) == spec_after_last_slash(s.drop_last()).push(s.last()));
        assert(s.drop_last().subrange(cut, s.len() - 1).push(s.last()) =~= s.subrange(
            cut,
            s.len() as int,
        ));
    }
}

proof fn lemma_before_last_dot(s: Seq<char>, idx: int)
    requires
        0 <= idx < s.len(),
        s[idx] == '.',
        forall|k: int| idx < k < s.len() ==> s[k] != '.',
    ensures
        spec_before_last_dot(s) == s.subrange(0, idx),
    decreases s.len(),
{
    if idx == s.len() - 1 {
        assert(s.last() == '.');
        assert(s.drop_last() =~= s.subrange(0, idx));
    } else {
        assert(s.last() != '.');
        assert(s.drop_last()[idx] == '.');
        assert(spec_has_char(s.drop_last(), '.'));
        lemma_before_last_dot(s.drop_last(), idx);
        assert(s.drop_last().subrange(0, idx) =~= s.subrange(0, idx));
    }
}

proof fn lemma_before_last_dot_absent(s: Seq<char>)
    requires
        forall|k: int| 0 <= k < s.len() ==> s[k] != '.',
    ensures
        spec_before_last_dot(s) == s,
{
    if s.len() > 0 {
        assert(s.last() != '.');
        assert(forall|k: int| 0 <= k < s.drop_last().len() ==> s.drop_last()[k] == s[k]);
        assert(!spec_has_char(s.drop_last(), '.'));
    }
}

/// Slices out the text after the last `'/'`.
pub fn after_last_slash(s: &str) -> (r: &str)
    ensures
        r@ == spec_after_last_slash(s@),
{
    let n = s.unicode_len();
    let mut cut: usize = n;
    loop
        invariant
            cut <= n,
            n == s@.len(),
            forall|k: int| cut <= k < n ==> s@[k] != '/',
        ensures
            cut <= n,
            forall|k: int| cut <= k < n ==> s@[k] != '/',
            cut == 0 || s@[cut as int - 1] == '/',
        decreases cut,
    {
        if cut == 0 {
            break ;
        }
        if s.get_char(cut - 1) == '/' {
            break ;
        }
        cut = cut - 1;
    }
    proof {
        lemma_after_last_slash(s@, cut as int);
    }
    s.substring_char(cut, n)
}

/// Slices out the text before the last `'.'` — the name with its
/// extension stripped — or all of `s` when no `'.'` occurs.
pub fn before_last_dot(s: &str) -> (r: &str)
    ensures
        r@ == spec_before_last_dot(s@),
{
    let n = s.unicode_len();
    let mut cut: usize = n;
    loop
        invariant
            cut <= n,
            n == s@.len(),
            forall|k: int| cut <= k < n ==> s@[k] != '.',
        ensures
            cut <= n,
            forall|k: int| cut <= k < n ==> s@[k] != '.',
            cut == 0 || s@[cut as int - 1] == '.',
        decreases cut,
    {
        if cut == 0 {
            break ;
        }
        if s.get_char(cut - 1) == '.' {
            break ;
        }
        cut = cut - 1;
    }
    if cut == 0 {
        proof {
            lemma_before_last_dot_absent(s@);
        }
        s
    } else {
        proof {
            lemma_before_last_dot(s@, cut as int - 1);
        }
        s.substring_char(0, cut - 1)
    }
}

} // verus!
