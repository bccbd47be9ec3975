//! Turning the text of one entry of the trending page into a [`Repo`].
//!
//! The page lists each repository as an article whose heading reads
//! `"author / name"`, whose paragraph holds the description and whose star
//! counter reads like `"12,345"`. Walking the page is left to the caller;
//! what it finds in those three places is read here.
use vstd::prelude::*;
use vstd::string::StrSliceExecFns;
use crate::repo::Repo;
use crate::text::chars_of;

verus! {

/// `c` has the Unicode White_Space property (what `char::is_whitespace`
/// tests).
pub open spec fn white_space(c: char) -> bool {
    let u = c as u32;
    (0x9 <= u <= 0xD) || u == 0x20 || u == 0x85 || u == 0xA0 || u == 0x1680 || (0x2000 <= u
        <= 0x200A) || u == 0x2028 || u == 0x2029 || u == 0x202F || u == 0x205F || u == 0x3000
}

/// `s` without its leading white space.
pub open spec fn trim_start(s: Seq<char>) -> Seq<char>
    decreases s.len(),
{
    if s.len() > 0 && white_space(s[0]) {
        trim_start(s.drop_first())
    } else {
        s
    }
}

/// `s` without its trailing white space.
pub open spec fn trim_end(s: Seq<char>) -> Seq<char>
    decreases s.len(),
{
    if s.len() > 0 && white_space(s.last()) {
        trim_end(s.drop_last())
    } else {
        s
    }
}

/// `s` without white space at either end.
pub open spec fn trimmed(s: Seq<char>) -> Seq<char> {
    trim_end(trim_start(s))
}

/// The part of `s` before the first `c`, or all of `s` where there is none.
pub open spec fn take_until(s: Seq<char>, c: char) -> Seq<char>
    decreases s.len(),
{
    if s.len() == 0 {
        s
    } else if s[0] == c {
        Seq::empty()
    } else {
        seq![s[0]] + take_until(s.drop_first(), c)
    }
}

/// The part of `s` after the first `c`, or `None` where there is none.
pub open spec fn after_first(s: Seq<char>, c: char) -> Option<Seq<char>>
    decreases s.len(),
{
    if s.len() == 0 {
        None
    } else if s[0] == c {
        Some(s.drop_first())
    } else {
        after_first(s.drop_first(), c)
    }
}

/// `s` with every `c` taken out.
pub open spec fn without(s: Seq<char>, c: char) -> Seq<char>
    decreases s.len(),
{
    if s.len() == 0 {
        s
    } else if s.last() == c {
        without(s.drop_last(), c)
    } else {
        without(s.drop_last(), c).push(s.last())
    }
}

/// `c` is an ASCII decimal digit.
pub open spec fn is_digit(c: char) -> bool {
    '0' as u32 <= c as u32 <= '9' as u32
}

/// The value of the digit `c`.
pub open spec fn digit_value(c: char) -> nat {
    (c as u32 - '0' as u32) as nat
}

/// The value of a sequence of decimal digits.
pub open spec fn digits_value(s: Seq<char>) -> nat
    decreases s.len(),
{
    if s.len() == 0 {
        0
    } else {
        digits_value(s.drop_last()) * 10 + digit_value(s.last())
    }
}

/// All of `s` are decimal digits.
pub open spec fn all_digits(s: Seq<char>) -> bool {
    forall|i: int| 0 <= i < s.len() ==> is_digit(#[trigger] s[i])
}

/// `s` without a leading `'+'`.
pub open spec fn unsigned_part(s: Seq<char>) -> Seq<char> {
    if s.len() > 0 && s[0] == '+' {
        s.drop_first()
    } else {
        s
    }
}

/// What reading `s` as a `usize` gives: an optional `'+'` and at least one
/// decimal digit, of a value that a `usize` holds.
pub open spec fn count_of(s: Seq<char>) -> Option<nat> {
    let d = unsigned_part(s);
    if d.len() > 0 && all_digits(d) && digits_value(d) <= usize::MAX {
        Some(digits_value(d))
    } else {
        None
    }
}

/// The star count that a counter reads: trimmed, without its thousands
/// separators, and 0 where that is not a count.
pub open spec fn stars_value(text: Seq<char>) -> nat {
    match count_of(without(trimmed(text), ',')) {
        Some(n) => n,
        None => 0,
    }
}

/// The repository that an entry describes, or `None` where its heading has
/// no `'/'`.
pub open spec fn entry_of(title: Seq<char>, description: Seq<char>, stars: Seq<char>) -> Option<
    (Seq<char>, Seq<char>, Seq<char>, nat),
> {
    match after_first(title, '/') {
        None => None,
        Some(rest) => Some(
            (
                trimmed(take_until(title, '/')),
                trimmed(take_until(rest, '/')),
                trimmed(description),
                stars_value(stars),
            ),
        ),
    }
}

/// Whether `c` is white space (see [`white_space`]).
pub fn is_white_space(c: char) -> (r: bool)
    ensures
        r == white_space(c),
{
    let u = c as u32;
    (0x9 <= u && u <= 0xD) || u == 0x20 || u == 0x85 || u == 0xA0 || u == 0x1680 || (0x2000 <= u
        && u <= 0x200A) || u == 0x2028 || u == 0x2029 || u == 0x202F || u == 0x205F || u == 0x3000
}

proof fn lemma_trim_start_step(s: Seq<char>, i: int)
    requires
        0 <= i < s.len(),
        white_space(s[i]),
    ensures
        trim_start(s.subrange(i, s.len() as int)) == trim_start(s.subrange(i + 1, s.len() as int)),
{
    assert(s.subrange(i, s.len() as int).drop_first() =~= s.subrange(i + 1, s.len() as int));
}

proof fn lemma_trim_end_step(s: Seq<char>, i: int, j: int)
    requires
        0 <= i < j <= s.len(),
        white_space(s[j - 1]),
    ensures
        trim_end(s.subrange(i, j)) == trim_end(s.subrange(i, j - 1)),
{
    assert(s.subrange(i, j).drop_last() =~= s.subrange(i, j - 1));
}

/// `s` without white space at either end (see [`trimmed`]).
pub fn trim(s: &str) -> (r: String)
    ensures
        r@ == trimmed(s@),
{
    let n = s.unicode_len();
    let mut i: usize = 0;
    proof {
        assert(s@.subrange(0, n as int) =~= s@);
    }
    while i < n && is_white_space(s.get_char(i))
        invariant
            i <= n,
            n == s@.len(),
            trim_start(s@) == trim_start(s@.subrange(i as int, n as int)),
        decreases n - i,
    {
        proof {
            lemma_trim_start_step(s@, i as int);
        }
        i = i + 1;
    }
    proof {
        let rest = s@.subrange(i as int, n as int);
        if i < n {
            assert(rest[0] == s@[i as int]);
        }
        assert(trim_start(rest) == rest);
    }
    let mut j: usize = n;
    while j > i && is_white_space(s.get_char(j - 1))
        invariant
            i <= j <= n,
            n == s@.len(),
            trim_start(s@) == s@.subrange(i as int, n as int),
            trim_end(s@.subrange(i as int, n as int)) == trim_end(s@.subrange(i as int, j as int)),
        decreases j,
    {
        proof {
            lemma_trim_end_step(s@, i as int, j as int);
        }
        j = j - 1;
    }
    proof {
        let kept = s@.subrange(i as int, j as int);
        if j > i {
            assert(kept.last() == s@[j - 1]);
        }
        assert(trim_end(kept) == kept);
    }
    let r = s.substring_char(i, j);
    String::from_str(r)
}

/// The position of the first `c` at or after `from` in `v`, or its length.
fn find_char(v: &Vec<char>, from: usize, c: char) -> (r: usize)
    requires
        from <= v@.len(),
    ensures
        from <= r <= v@.len(),
        forall|k: int| from <= k < r ==> v@[k] != c,
        r < v@.len() ==> v@[r as int] == c,
{
    let mut i = from;
    while i < v.len()
        invariant
            from <= i <= v@.len(),
            forall|k: int| from <= k < i ==> v@[k] != c,
        decreases v@.len() - i,
    {
        if v[i] == c {
            return i;
        }
        i = i + 1;
    }
    i
}

proof fn lemma_split_at_first(s: Seq<char>, c: char, i: int)
    requires
        0 <= i <= s.len(),
        forall|k: int| 0 <= k < i ==> s[k] != c,
        i < s.len() ==> s[i] == c,
    ensures
        take_until(s, c) == s.subrange(0, i),
        after_first(s, c) == if i < s.len() {
            Some(s.subrange(i + 1, s.len() as int))
        } else {
            None::<Seq<char>>
        },
    decreases i,
{
    if i > 0 {
        let t = s.drop_first();
        assert forall|k: int| 0 <= k < i - 1 implies t[k] != c by {
            assert(t[k] == s[k + 1]);
        }
        lemma_split_at_first(t, c, i - 1);
        assert(seq![s[0]] + t.subrange(0, i - 1) =~= s.subrange(0, i));
        if i < s.len() {
            assert(t.subrange(i, t.len() as int) =~= s.subrange(i + 1, s.len() as int));
        }
    } else {
        assert(s.subrange(0, 0) =~= Seq::<char>::empty());
        if s.len() > 0 {
            assert(s.drop_first() =~= s.subrange(1, s.len() as int));
        }
    }
}

/// `s` with every `c` taken out (see [`without`]).
fn without_char(v: &Vec<char>, c: char) -> (r: Vec<char>)
    ensures
        r@ == without(v@, c),
{
    let mut r: Vec<char> = Vec::new();
    let mut i: usize = 0;
    while i < v.len()
        invariant
            i <= v@.len(),
            r@ == without(v@.subrange(0, i as int), c),
        decreases v@.len() - i,
    {
        proof {
            assert(v@.subrange(0, i + 1).drop_last() =~= v@.subrange(0, i as int));
        }
        if v[i] != c {
            r.push(v[i]);
        }
        i = i + 1;
    }
    proof {
        assert(v@.subrange(0, v@.len() as int) =~= v@);
    }
    r
}

proof fn lemma_digits_prefix_bound(s: Seq<char>, k: int)
    requires
        0 <= k <= s.len(),
    ensures
        digits_value(s.subrange(0, k)) <= digits_value(s),
    decreases s.len(),
{
    if k < s.len() {
        let d = s.drop_last();
        lemma_digits_prefix_bound(d, k);
        assert(d.subrange(0, k) =~= s.subrange(0, k));
    } else {
        assert(s.subrange(0, k) =~= s);
    }
}

proof fn lemma_digit_step(prefix: Seq<char>, acc: nat, digit: nat)
    requires
        prefix.len() > 0,
        all_digits(prefix.drop_last()),
        acc == digits_value(prefix.drop_last()),
        is_digit(prefix.last()),
        digit == digit_value(prefix.last()),
    ensures
        all_digits(prefix),
        digits_value(prefix) == acc * 10 + digit,
{
    assert forall|k: int| 0 <= k < prefix.len() implies is_digit(#[trigger] prefix[k]) by {
        if k < prefix.len() - 1 {
            assert(prefix[k] == prefix.drop_last()[k]);
        }
    }
}

/// Reads the decimal digits of `v` from `start` on, where they are all
/// digits and their value fits a `usize`.
fn parse_digits(v: &Vec<char>, start: usize) -> (r: Option<usize>)
    requires
        start <= v@.len(),
    ensures
        r is Some <==> all_digits(v@.subrange(start as int, v@.len() as int)) && digits_value(
            v@.subrange(start as int, v@.len() as int),
        ) <= usize::MAX,
        r matches Some(n) ==> n == digits_value(v@.subrange(start as int, v@.len() as int)),
{
    let ghost d = v@.subrange(start as int, v@.len() as int);
    let mut acc: usize = 0;
    let mut i: usize = start;
    while i < v.len()
        invariant
            start <= i <= v@.len(),
            d == v@.subrange(start as int, v@.len() as int),
            all_digits(v@.subrange(start as int, i as int)),
            acc == digits_value(v@.subrange(start as int, i as int)),
        decreases v@.len() - i,
    {
        let c = v[i];
        let ghost prefix = v@.subrange(start as int, i + 1);
        proof {
            assert(prefix.drop_last() =~= v@.subrange(start as int, i as int));
            assert(prefix.last() == c);
            assert(d[i - start] == c);
        }
        if !((c as u32) >= ('0' as u32) && (c as u32) <= ('9' as u32)) {
            return None;
        }
        let digit = (c as u32 - '0' as u32) as usize;
        proof {
            lemma_digit_step(prefix, acc as nat, digit as nat);
        }
        if acc > (usize::MAX - digit) / 10 {
            proof {
                assert(digits_value(prefix) > usize::MAX) by (nonlinear_arith)
                    requires
                        digits_value(prefix) == acc * 10 + digit,
                        acc > (usize::MAX - digit) / 10,
                        digit <= 9,
                ;
                assert(d.subrange(0, i + 1 - start) =~= prefix);
                lemma_digits_prefix_bound(d, i + 1 - start);
            }
            return None;
        }
        proof {
            assert(acc * 10 + digit <= usize::MAX) by (nonlinear_arith)
                requires
                    acc <= (usize::MAX - digit) / 10,
                    digit <= 9,
            ;
        }
        acc = acc * 10 + digit;
        i = i + 1;
    }
    Some(acc)
}

/// Reads `v` as a `usize` (see [`count_of`]).
pub fn parse_count(v: &Vec<char>) -> (r: Option<usize>)
    ensures
        r is None <==> count_of(v@) is None,
        r matches Some(n) ==> count_of(v@) == Some(n as nat),
{
    let start: usize = if v.len() > 0 && v[0] == '+' {
        1
    } else {
        0
    };
    proof {
        if start == 1 {
            assert(v@.drop_first() =~= v@.subrange(1, v@.len() as int));
        } else {
            assert(v@ =~= v@.subrange(0, v@.len() as int));
        }
    }
    if start == v.len() {
        return None;
    }
    parse_digits(v, start)
}

/// The star count that a counter's text reads (see [`stars_value`]).
pub fn parse_stars(text: &str) -> (r: usize)
    ensures
        r == stars_value(text@),
{
    let t = trim(text);
    let digits = without_char(&chars_of(t.as_str()), ',');
    match parse_count(&digits) {
        Some(n) => n,
        None => 0,
    }
}

/// The repository that an entry of the trending page describes, from the
/// text of its heading, of its description (empty where it has none) and of
/// its star counter (empty where it has none); `None` where the heading has
/// no `'/'` (see [`entry_of`]).
pub fn repo_from_entry(title: &str, description: &str, stars: &str) -> (r: Option<Repo>)
    ensures
        r is None <==> entry_of(title@, description@, stars@) is None,
        r matches Some(repo) ==> entry_of(title@, description@, stars@) == Some(
            (repo.author@, repo.name@, repo.description@, repo.stars as nat),
        ),
{
    let v = chars_of(title);
    let first = find_char(&v, 0, '/');
    proof {
        lemma_split_at_first(title@, '/', first as int);
    }
    if first == v.len() {
        return None;
    }
    let second = find_char(&v, first + 1, '/');
    proof {
        let rest = title@.subrange(first + 1, title@.len() as int);
        assert forall|k: int| 0 <= k < second - first - 1 implies rest[k] != '/' by {
            assert(rest[k] == title@[k + first + 1]);
        }
        if second < v@.len() {
            assert(rest[second - first - 1] == title@[second as int]);
        }
        lemma_split_at_first(rest, '/', second - first - 1);
        assert(rest.subrange(0, second - first - 1) =~= title@.subrange(first + 1, second as int));
    }
    let author = trim(title.substring_char(0, first));
    let name = trim(title.substring_char(first + 1, second));
    Some(
        Repo {
            author,
            description: trim(description),
            name,
            stars: parse_stars(stars),
        },
    )
}

} // verus!
