//! Character-level operations on strings, stated over `Seq<char>`.

use vstd::prelude::*;

verus! {

/// How many characters at the front of `s` equal `c`.
pub open spec fn leading(s: Seq<char>, c: char) -> nat
    decreases s.len(),
{
    if s.len() > 0 && s[0] == c {
        1 + leading(s.drop_first(), c)
    } else {
        0
    }
}

/// How many characters at the back of `s` equal `c`.
pub open spec fn trailing(s: Seq<char>, c: char) -> nat
    decreases s.len(),
{
    if s.len() > 0 && s.last() == c {
        1 + trailing(s.drop_last(), c)
    } else {
        0
    }
}

/// `s` without its leading run of `c`.
pub open spec fn trim_start(s: Seq<char>, c: char) -> Seq<char> {
    s.subrange(leading(s, c) as int, s.len() as int)
}

/// `s` without its trailing run of `c`.
pub open spec fn trim_end(s: Seq<char>, c: char) -> Seq<char> {
    s.subrange(0, s.len() - trailing(s, c))
}

/// `s` without its leading and trailing runs of `c`.
pub open spec fn trim(s: Seq<char>, c: char) -> Seq<char> {
    trim_end(trim_start(s, c), c)
}

/// The index of the first `c` in `s`, or the length of `s` when there is none.
pub open spec fn position(s: Seq<char>, c: char) -> nat
    decreases s.len(),
{
    if s.len() == 0 || s[0] == c {
        0
    } else {
        1 + position(s.drop_first(), c)
    }
}

/// The pieces of `s` between occurrences of `sep`. A string without `sep` is
/// one piece; `n` occurrences give `n + 1` pieces, some of them possibly empty.
pub open spec fn split_on(s: Seq<char>, sep: char) -> Seq<Seq<char>>
    decreases s.len(),
{
    let i = position(s, sep);
    if i >= s.len() {
        seq![s]
    } else {
        seq![s.subrange(0, i as int)] + split_on(s.subrange(i as int + 1, s.len() as int), sep)
    }
}

/// An ASCII hexadecimal digit, in either case.
pub open spec fn is_hex_digit(c: char) -> bool {
    ('0' <= c && c <= '9') || ('a' <= c && c <= 'f') || ('A' <= c && c <= 'F')
}

/// Every character of `s` is an ASCII hexadecimal digit.
pub open spec fn all_hex(s: Seq<char>) -> bool {
    forall|i: int| 0 <= i < s.len() ==> is_hex_digit(#[trigger] s[i])
}

/// An ASCII decimal digit.
pub open spec fn is_digit(c: char) -> bool {
    '0' <= c && c <= '9'
}

/// The value of the decimal digit `c`.
pub open spec fn digit_value(c: char) -> nat {
    (c as u32 - '0' as u32) as nat
}

/// Every character of `s` is a decimal digit.
pub open spec fn all_digits(s: Seq<char>) -> bool {
    forall|i: int| 0 <= i < s.len() ==> is_digit(#[trigger] s[i])
}

/// The number that the decimal digits `s` write.
pub open spec fn decimal_value(s: Seq<char>) -> nat
    decreases s.len(),
{
    if s.len() == 0 {
        0
    } else {
        10 * decimal_value(s.drop_last()) + digit_value(s.last())
    }
}

/// `s` without the plus sign that may stand in front of a number.
pub open spec fn unsigned_part(s: Seq<char>) -> Seq<char> {
    if s.len() > 0 && s[0] == '+' {
        s.drop_first()
    } else {
        s
    }
}

/// The 32-bit number that `s` writes in decimal: one or more digits, with or
/// without a plus sign in front, whose value fits.
pub open spec fn decimal_u32(s: Seq<char>) -> Option<u32> {
    let digits = unsigned_part(s);
    if digits.len() > 0 && all_digits(digits) && decimal_value(digits) <= u32::MAX {
        Some(decimal_value(digits) as u32)
    } else {
        None
    }
}

/// The character that writes the digit `d`.
pub open spec fn digit_char(d: nat) -> char {
    if d == 0 {
        '0'
    } else if d == 1 {
        '1'
    } else if d == 2 {
        '2'
    } else if d == 3 {
        '3'
    } else if d == 4 {
        '4'
    } else if d == 5 {
        '5'
    } else if d == 6 {
        '6'
    } else if d == 7 {
        '7'
    } else if d == 8 {
        '8'
    } else {
        '9'
    }
}

/// The number `n` written in decimal, without leading zeros.
pub open spec fn decimal_text(n: nat) -> Seq<char>
    decreases n,
{
    if n < 10 {
        seq![digit_char(n)]
    } else {
        decimal_text(n / 10).push(digit_char(n % 10))
    }
}

/// The texts of `texts` one after the other, with `sep` between them.
pub open spec fn joined(texts: Seq<Seq<char>>, sep: Seq<char>) -> Seq<char>
    decreases texts.len(),
{
    if texts.len() == 0 {
        Seq::empty()
    } else if texts.len() == 1 {
        texts[0]
    } else {
        joined(texts.drop_last(), sep) + sep + texts.last()
    }
}

/// `a` and `b` are the same up to the index `k`, where `a` ends and `b` goes
/// on, or where `a` has the smaller character.
pub open spec fn parts_at(a: Seq<char>, b: Seq<char>, k: int) -> bool {
    &&& 0 <= k <= a.len()
    &&& k < b.len()
    &&& forall|i: int| 0 <= i < k ==> a[i] == b[i]
    &&& (k == a.len() || a[k] < b[k])
}

/// `a` comes before `b` in the order of the dictionary.
pub open spec fn precedes(a: Seq<char>, b: Seq<char>) -> bool {
    exists|k: int| parts_at(a, b, k)
}

/// Each text of `list` comes before the next.
pub open spec fn ascending(list: Seq<Seq<char>>) -> bool {
    forall|i: int| 0 <= i < list.len() - 1 ==> precedes(#[trigger] list[i], list[i + 1])
}

/// `list` holds the text `s`.
pub open spec fn holds_text(list: Seq<Seq<char>>, s: Seq<char>) -> bool {
    exists|i: int| 0 <= i < list.len() && #[trigger] list[i] == s
}

/// No text occurs twice in `list`.
pub open spec fn distinct(list: Seq<Seq<char>>) -> bool {
    forall|i: int, j: int| 0 <= i < j < list.len() ==> list[i] != list[j]
}

/// The texts of `list` in order of first occurrence, each once.
pub open spec fn first_occurrences(list: Seq<Seq<char>>) -> Seq<Seq<char>>
    decreases list.len(),
{
    if list.len() == 0 {
        Seq::empty()
    } else {
        let init = first_occurrences(list.drop_last());
        if holds_text(list.drop_last(), list.last()) {
            init
        } else {
            init.push(list.last())
        }
    }
}

pub proof fn lemma_leading(s: Seq<char>, c: char, k: int)
    requires
        0 <= k <= s.len(),
        forall|i: int| 0 <= i < k ==> s[i] == c,
        k == s.len() || s[k] != c,
    ensures
        leading(s, c) == k,
    decreases s.len(),
{
    if k > 0 {
        let t = s.drop_first();
        assert forall|i: int| 0 <= i < k - 1 implies t[i] == c by {
            assert(t[i] == s[i + 1]);
        }
        lemma_leading(t, c, k - 1);
    }
}

pub proof fn lemma_trailing(s: Seq<char>, c: char, k: int)
    requires
        0 <= k <= s.len(),
        forall|i: int| s.len() - k <= i < s.len() ==> s[i] == c,
        k == s.len() || s[s.len() - k - 1] != c,
    ensures
        trailing(s, c) == k,
    decreases s.len(),
{
    if k > 0 {
        let t = s.drop_last();
        assert forall|i: int| t.len() - (k - 1) <= i < t.len() implies t[i] == c by {
            assert(t[i] == s[i]);
        }
        lemma_trailing(t, c, k - 1);
    }
}

pub proof fn lemma_position(s: Seq<char>, c: char, k: int)
    requires
        0 <= k <= s.len(),
        forall|i: int| 0 <= i < k ==> s[i] != c,
        k == s.len() || s[k] == c,
    ensures
        position(s, c) == k,
    decreases s.len(),
{
    if k > 0 {
        let t = s.drop_first();
        assert forall|i: int| 0 <= i < k - 1 implies t[i] != c by {
            assert(t[i] == s[i + 1]);
        }
        lemma_position(t, c, k - 1);
    }
}

/// `first_occurrences` holds the texts of the list, each once.
pub proof fn lemma_first_occurrences(list: Seq<Seq<char>>)
    ensures
        distinct(first_occurrences(list)),
        forall|s: Seq<char>| #[trigger]
            holds_text(first_occurrences(list), s) <==> holds_text(list, s),
    decreases list.len(),
{
    if list.len() > 0 {
        let init = list.drop_last();
        let last = list.last();
        let kept = first_occurrences(init);
        let all = first_occurrences(list);
        lemma_first_occurrences(init);
        assert forall|s: Seq<char>| holds_text(all, s) <==> holds_text(list, s) by {
            assert(holds_text(kept, s) <==> holds_text(init, s));
            assert(holds_text(kept, last) <==> holds_text(init, last));
            if holds_text(all, s) {
                let i = choose|i: int| 0 <= i < all.len() && #[trigger] all[i] == s;
                if i < kept.len() {
                    assert(kept[i] == s);
                    assert(holds_text(kept, s));
                    let j = choose|j: int| 0 <= j < init.len() && #[trigger] init[j] == s;
                    assert(list[j] == s);
                } else {
                    assert(list[list.len() - 1] == s);
                }
            }
            if holds_text(list, s) {
                let j = choose|j: int| 0 <= j < list.len() && #[trigger] list[j] == s;
                if j < init.len() {
                    assert(init[j] == s);
                    assert(holds_text(kept, s));
                    let i = choose|i: int| 0 <= i < kept.len() && #[trigger] kept[i] == s;
                    assert(all[i] == s);
                } else if holds_text(init, last) {
                    assert(holds_text(kept, s));
                } else {
                    assert(all[all.len() - 1] == s);
                }
            }
        }
        if !holds_text(init, last) {
            assert forall|i: int, j: int| 0 <= i < j < all.len() implies all[i] != all[j] by {
                if j == kept.len() && all[i] == last {
                    assert(kept[i] == last);
                    assert(holds_text(kept, last));
                    assert(holds_text(kept, last) <==> holds_text(init, last));
                }
            }
        }
    }
}

/// The order of the dictionary is transitive.
pub proof fn lemma_precedes_transitive(a: Seq<char>, b: Seq<char>, c: Seq<char>)
    requires
        precedes(a, b),
        precedes(b, c),
    ensures
        precedes(a, c),
{
    let k1 = choose|k: int| parts_at(a, b, k);
    let k2 = choose|k: int| parts_at(b, c, k);
    if k1 <= k2 {
        assert(parts_at(a, c, k1));
    } else {
        assert(parts_at(a, c, k2));
    }
}

/// In an ascending list, every text comes before every later one, and so
/// no text occurs twice.
pub proof fn lemma_ascending_distinct(list: Seq<Seq<char>>)
    requires
        ascending(list),
    ensures
        forall|i: int, j: int| 0 <= i < j < list.len() ==> precedes(list[i], list[j]),
        distinct(list),
    decreases list.len(),
{
    if list.len() > 1 {
        let init = list.drop_last();
        assert forall|i: int| 0 <= i < init.len() - 1 implies precedes(
            #[trigger] init[i],
            init[i + 1],
        ) by {
            assert(precedes(list[i], list[i + 1]));
        }
        lemma_ascending_distinct(init);
        let last = list.len() - 1;
        assert forall|i: int, j: int| 0 <= i < j < list.len() implies precedes(
            list[i],
            list[j],
        ) by {
            if j < last {
                assert(precedes(init[i], init[j]));
            } else if i < last - 1 {
                assert(precedes(init[i], init[last - 1]));
                assert(precedes(list[last - 1], list[last - 1 + 1]));
                lemma_precedes_transitive(list[i], list[last - 1], list[last]);
            } else {
                assert(precedes(list[i], list[i + 1]));
            }
        }
        assert forall|i: int, j: int| 0 <= i < j < list.len() implies list[i] != list[j] by {
            assert(precedes(list[i], list[j]));
        }
    }
}

/// The digits read so far never write more than all of them do.
pub proof fn lemma_decimal_prefix(s: Seq<char>, k: int)
    requires
        0 <= k <= s.len(),
    ensures
        decimal_value(s.subrange(0, k)) <= decimal_value(s),
    decreases s.len(),
{
    if k < s.len() {
        lemma_decimal_prefix(s.drop_last(), k);
        assert(s.drop_last().subrange(0, k) =~= s.subrange(0, k));
    } else {
        assert(s.subrange(0, k) =~= s);
    }
}

/// The characters of `s`, in order.
pub fn chars_of(s: &str) -> (out: Vec<char>)
    ensures
        out@ == s@,
{
    let mut out: Vec<char> = Vec::new();
    for c in it: s.chars()
        invariant
            out@ == it.seq().subrange(0, it.index() as int),
            it.seq() == s@,
    {
        out.push(c);
    }
    out
}

/// Tells whether the two strings hold the same characters.
pub fn same_text(a: &str, b: &str) -> (r: bool)
    ensures
        r == (a@ == b@),
{
    let x = chars_of(a);
    let y = chars_of(b);
    if x.len() != y.len() {
        return false;
    }
    let mut i: usize = 0;
    while i < x.len()
        invariant
            i <= x.len(),
            x.len() == y.len(),
            x@ == a@,
            y@ == b@,
            forall|k: int| 0 <= k < i ==> x@[k] == y@[k],
        decreases x.len() - i,
    {
        if x[i] != y[i] {
            return false;
        }
        i += 1;
    }
    assert(x@ =~= y@);
    true
}

/// Tells whether `s` begins with `c`.
pub fn starts_with(s: &str, c: char) -> (r: bool)
    ensures
        r == (s@.len() > 0 && s@[0] == c),
{
    let chars = chars_of(s);
    chars.len() > 0 && chars[0] == c
}

/// Removes every leading `c` from `s`.
pub fn trim_start_matches(s: &str, c: char) -> (r: &str)
    ensures
        r@ == trim_start(s@, c),
{
    let chars = chars_of(s);
    let n = chars.len();
    let mut start: usize = 0;
    while start < n && chars[start] == c
        invariant
            start <= n,
            n == chars.len(),
            forall|i: int| 0 <= i < start ==> chars@[i] == c,
        decreases n - start,
    {
        start += 1;
    }
    proof {
        lemma_leading(s@, c, start as int);
    }
    s.substring_char(start, n)
}

/// Removes every leading and every trailing `c` from `s`.
pub fn trim_matches(s: &str, c: char) -> (r: &str)
    ensures
        r@ == trim(s@, c),
{
    let chars = chars_of(s);
    let n = chars.len();
    let mut start: usize = 0;
    while start < n && chars[start] == c
        invariant
            start <= n,
            n == chars.len(),
            forall|i: int| 0 <= i < start ==> chars@[i] == c,
        decreases n - start,
    {
        start += 1;
    }
    let mut end: usize = n;
    while end > start && chars[end - 1] == c
        invariant
            start <= end <= n,
            n == chars.len(),
            forall|i: int| end <= i < n ==> chars@[i] == c,
        decreases end,
    {
        end -= 1;
    }
    proof {
        lemma_leading(s@, c, start as int);
        let rest = trim_start(s@, c);
        assert forall|i: int| rest.len() - (n - end) <= i < rest.len() implies rest[i] == c by {
            assert(rest[i] == chars@[i + start]);
        }
        lemma_trailing(rest, c, n - end);
        assert(trim(s@, c) =~= s@.subrange(start as int, end as int));
    }
    s.substring_char(start, end)
}

/// Splits `s` at every `sep`.
pub fn split(s: &str, sep: char) -> (pieces: Vec<String>)
    ensures
        pieces.deep_view() == split_on(s@, sep),
{
    let chars = chars_of(s);
    let n = chars.len();
    let mut pieces: Vec<String> = Vec::new();
    let mut start: usize = 0;
    let mut j: usize = 0;
    proof {
        assert(s@.subrange(0, n as int) =~= s@);
        assert(pieces.deep_view() + split_on(s@, sep) =~= split_on(s@, sep));
    }
    while j < n
        invariant
            start <= j <= n,
            n == chars.len(),
            chars@ == s@,
            forall|i: int| start <= i < j ==> chars@[i] != sep,
            split_on(s@, sep) == pieces.deep_view() + split_on(
                s@.subrange(start as int, n as int),
                sep,
            ),
        decreases n - j,
    {
        if chars[j] == sep {
            let piece = s.substring_char(start, j).to_owned();
            proof {
                let rest = s@.subrange(start as int, n as int);
                assert forall|i: int| 0 <= i < j - start implies rest[i] != sep by {
                    assert(rest[i] == chars@[i + start]);
                }
                lemma_position(rest, sep, j - start);
                assert(rest.subrange(0, j - start) =~= s@.subrange(start as int, j as int));
                assert(rest.subrange(j - start + 1, rest.len() as int) =~= s@.subrange(
                    j + 1,
                    n as int,
                ));
                assert(pieces.deep_view().push(piece@) + split_on(
                    s@.subrange(j + 1, n as int),
                    sep,
                ) =~= pieces.deep_view() + split_on(rest, sep));
            }
            let ghost before = pieces.deep_view();
            pieces.push(piece);
            assert(pieces.deep_view() =~= before.push(piece@));
            start = j + 1;
        }
        j += 1;
    }
    let piece = s.substring_char(start, n).to_owned();
    proof {
        let rest = s@.subrange(start as int, n as int);
        assert forall|i: int| 0 <= i < rest.len() implies rest[i] != sep by {
            assert(rest[i] == chars@[i + start]);
        }
        lemma_position(rest, sep, rest.len() as int);
    }
    let ghost before = pieces.deep_view();
    pieces.push(piece);
    assert(pieces.deep_view() =~= before.push(piece@));
    pieces
}

/// Tells whether `c` is an ASCII hexadecimal digit.
pub fn hex_digit(c: char) -> (r: bool)
    ensures
        r == is_hex_digit(c),
{
    ('0' <= c && c <= '9') || ('a' <= c && c <= 'f') || ('A' <= c && c <= 'F')
}

/// Tells whether `list` holds a string with the characters of `s`.
pub fn contains_text(list: &Vec<String>, s: &str) -> (r: bool)
    ensures
        r == holds_text(list.deep_view(), s@),
{
    let mut i: usize = 0;
    while i < list.len()
        invariant
            i <= list.len(),
            forall|k: int| 0 <= k < i ==> list@[k]@ != s@,
        decreases list.len() - i,
    {
        if same_text(list[i].as_str(), s) {
            assert(list.deep_view()[i as int] == s@);
            return true;
        }
        i += 1;
    }
    assert forall|k: int| 0 <= k < list.deep_view().len() implies list.deep_view()[k] != s@ by {
        assert(list.deep_view()[k] == list@[k]@);
    }
    false
}

/// Reads a 32-bit number written in decimal.
pub fn parse_u32(s: &str) -> (r: Option<u32>)
    ensures
        r == decimal_u32(s@),
{
    let chars = chars_of(s);
    let n = chars.len();
    let start: usize = if n > 0 && chars[0] == '+' {
        1
    } else {
        0
    };
    let ghost digits = unsigned_part(s@);
    assert(digits =~= s@.subrange(start as int, n as int));
    if start == n {
        return None;
    }
    let mut acc: u64 = 0;
    let mut i: usize = start;
    while i < n
        invariant
            start <= i <= n,
            n == chars.len(),
            chars@ == s@,
            digits == s@.subrange(start as int, n as int),
            digits == unsigned_part(s@),
            all_digits(digits.subrange(0, i - start)),
            acc == decimal_value(digits.subrange(0, i - start)),
            acc <= u32::MAX,
        decreases n - i,
    {
        let c = chars[i];
        assert(digits[i - start] == c);
        if !('0' <= c && c <= '9') {
            assert(!is_digit(digits[i - start]));
            return None;
        }
        let digit: u64 = (c as u32 - '0' as u32) as u64;
        let ghost read = digits.subrange(0, i - start + 1);
        proof {
            assert(read.drop_last() =~= digits.subrange(0, i - start));
            assert(read.last() == c);
            assert forall|k: int| 0 <= k < read.len() implies is_digit(#[trigger] read[k]) by {
                if k < i - start {
                    assert(digits.subrange(0, i - start)[k] == read[k]);
                }
            }
        }
        acc = acc * 10 + digit;
        assert(acc == decimal_value(read));
        if acc > u32::MAX as u64 {
            proof {
                lemma_decimal_prefix(digits, i - start + 1);
            }
            return None;
        }
        i += 1;
    }
    assert(digits.subrange(0, n - start) =~= digits);
    Some(acc as u32)
}

/// The text of one decimal digit.
pub fn digit_text(d: usize) -> (text: &'static str)
    requires
        d < 10,
    ensures
        text@ == seq![digit_char(d as nat)],
{
    proof {
        reveal_strlit("0");
        reveal_strlit("1");
        reveal_strlit("2");
        reveal_strlit("3");
        reveal_strlit("4");
        reveal_strlit("5");
        reveal_strlit("6");
        reveal_strlit("7");
        reveal_strlit("8");
        reveal_strlit("9");
    }
    let text = if d == 0 {
        "0"
    } else if d == 1 {
        "1"
    } else if d == 2 {
        "2"
    } else if d == 3 {
        "3"
    } else if d == 4 {
        "4"
    } else if d == 5 {
        "5"
    } else if d == 6 {
        "6"
    } else if d == 7 {
        "7"
    } else if d == 8 {
        "8"
    } else {
        "9"
    };
    assert(text@ =~= seq![digit_char(d as nat)]);
    text
}

/// Writes `n` in decimal at the end of `out`.
pub fn write_decimal(out: &mut String, n: usize)
    ensures
        final(out)@ == old(out)@ + decimal_text(n as nat),
    decreases n,
{
    let ghost start = out@;
    if n >= 10 {
        write_decimal(out, n / 10);
    }
    out.append(digit_text(n % 10));
    proof {
        if n >= 10 {
            assert(out@ =~= start + decimal_text(n as nat / 10).push(digit_char(n as nat % 10)));
        } else {
            assert(out@ =~= start + seq![digit_char(n as nat)]);
        }
    }
}

/// Writes the strings of `texts` at the end of `out`, with `sep` between them.
pub fn write_joined(out: &mut String, texts: &Vec<String>, sep: &str)
    ensures
        final(out)@ == old(out)@ + joined(texts.deep_view(), sep@),
{
    let ghost start = out@;
    let ghost all = texts.deep_view();
    let mut i: usize = 0;
    assert(all.subrange(0, 0) =~= Seq::empty());
    assert(start + joined(all.subrange(0, 0), sep@) =~= start);
    while i < texts.len()
        invariant
            i <= texts.len(),
            all == texts.deep_view(),
            out@ == start + joined(all.subrange(0, i as int), sep@),
        decreases texts.len() - i,
    {
        let ghost before = all.subrange(0, i as int);
        let ghost after = all.subrange(0, i + 1);
        proof {
            assert(after.drop_last() =~= before);
            assert(after.last() == texts@[i as int]@);
            assert(after[0] == all[0]);
        }
        if i > 0 {
            out.append(sep);
        }
        out.append(texts[i].as_str());
        proof {
            if i == 0 {
                assert(before =~= Seq::empty());
                assert(out@ =~= start + after[0]);
            } else {
                assert(out@ =~= start + (joined(before, sep@) + sep@ + after.last()));
            }
        }
        i += 1;
    }
    assert(all.subrange(0, i as int) =~= all);
}

/// The strings of `list` in order of first occurrence, each once.
pub fn unique_texts(list: &Vec<String>) -> (kept: Vec<String>)
    ensures
        kept.deep_view() == first_occurrences(list.deep_view()),
        distinct(kept.deep_view()),
{
    let mut kept: Vec<String> = Vec::new();
    let mut i: usize = 0;
    while i < list.len()
        invariant
            i <= list.len(),
            kept.deep_view() == first_occurrences(list.deep_view().subrange(0, i as int)),
        decreases list.len() - i,
    {
        let ghost seen = list.deep_view().subrange(0, i as int);
        let ghost next = list.deep_view().subrange(0, i + 1);
        proof {
            lemma_first_occurrences(seen);
            assert(next.drop_last() =~= seen);
            assert(next.last() == list@[i as int]@);
        }
        if !contains_text(&kept, list[i].as_str()) {
            let ghost before = kept.deep_view();
            kept.push(list[i].clone());
            assert(kept.deep_view() =~= before.push(list@[i as int]@));
        }
        i += 1;
    }
    proof {
        assert(list.deep_view().subrange(0, i as int) =~= list.deep_view());
        lemma_first_occurrences(list.deep_view());
    }
    kept
}

} // verus!
