//! Text as a sequence of characters: splitting, decimal numbers, building.
use vstd::prelude::*;

verus! {

/// What strings hold, one after the other.
pub open spec fn views(strings: Seq<String>) -> Seq<Seq<char>> {
    strings.map_values(|s: String| s@)
}

/// What an optional string holds.
pub open spec fn view_opt(s: Option<String>) -> Option<Seq<char>> {
    match s {
        Some(s) => Some(s@),
        None => None,
    }
}

/// What an optional string slice holds.
pub open spec fn view_opt_str(s: Option<&str>) -> Option<Seq<char>> {
    match s {
        Some(s) => Some(s@),
        None => None,
    }
}

/// The index of the first `c` in `s`, or the length of `s` where there is none.
pub open spec fn find(s: Seq<char>, c: char) -> nat
    decreases s.len(),
{
    if s.len() == 0 || s[0] == c {
        0
    } else {
        1 + find(s.skip(1), c)
    }
}

/// The pieces of `s` between the separators, empty pieces included: one piece
/// more than there are separators.
pub open spec fn split(s: Seq<char>, sep: char) -> Seq<Seq<char>>
    decreases s.len(),
{
    if find(s, sep) < s.len() {
        seq![s.take(find(s, sep) as int)] + split(s.skip(find(s, sep) as int + 1), sep)
    } else {
        seq![s]
    }
}

/// The pieces, with a separator between each two.
pub open spec fn join(parts: Seq<Seq<char>>, sep: char) -> Seq<char>
    decreases parts.len(),
{
    if parts.len() == 0 {
        seq![]
    } else if parts.len() == 1 {
        parts[0]
    } else {
        parts[0] + seq![sep] + join(parts.skip(1), sep)
    }
}

/// The character of a decimal digit.
pub open spec fn digit(d: nat) -> char {
    ('0' as nat + d) as char
}

/// Whether `c` is an ASCII decimal digit.
pub open spec fn is_digit(c: char) -> bool {
    '0' <= c <= '9'
}

/// A number in decimal, without leading zeros.
pub open spec fn decimal(n: nat) -> Seq<char>
    decreases n,
{
    if n < 10 {
        seq![digit(n)]
    } else {
        decimal(n / 10).push(digit(n % 10))
    }
}

/// The number that a sequence of decimal digits stands for.
pub open spec fn digits_value(s: Seq<char>) -> nat
    decreases s.len(),
{
    if s.len() == 0 {
        0
    } else {
        digits_value(s.drop_last()) * 10 + (s.last() as nat - '0' as nat) as nat
    }
}

/// The digits of a number: `s` without one leading `+`.
pub open spec fn unsigned(s: Seq<char>) -> Seq<char> {
    if s.len() > 0 && s[0] == '+' {
        s.skip(1)
    } else {
        s
    }
}

/// The octet that `s` names: at least one decimal digit, after at most one `+`,
/// with a value of at most 255.
pub open spec fn octet(s: Seq<char>) -> Option<u8> {
    let body = unsigned(s);
    if body.len() > 0 && (forall|i: int| 0 <= i < body.len() ==> is_digit(#[trigger] body[i]))
        && digits_value(body) <= 255 {
        Some(digits_value(body) as u8)
    } else {
        None
    }
}

/// `find` is the index of the first occurrence.
pub proof fn lemma_find(s: Seq<char>, c: char)
    ensures
        find(s, c) <= s.len(),
        find(s, c) < s.len() <==> s.contains(c),
        find(s, c) < s.len() ==> s[find(s, c) as int] == c,
        forall|i: int| 0 <= i < find(s, c) ==> s[i] != c,
    decreases s.len(),
{
    if s.len() == 0 {
    } else if s[0] == c {
    } else {
        let rest = s.skip(1);
        lemma_find(rest, c);
        assert forall|i: int| 0 <= i < find(s, c) implies s[i] != c by {
            if i > 0 {
                assert(rest[i - 1] == s[i]);
            }
        }
        if s.contains(c) {
            let i = choose|i: int| 0 <= i < s.len() && s[i] == c;
            assert(rest[i - 1] == c);
        }
        if rest.contains(c) {
            let i = choose|i: int| 0 <= i < rest.len() && rest[i] == c;
            assert(s[i + 1] == c);
        }
    }
}

/// An index that holds `c`, with no `c` before it, is what `find` gives.
pub proof fn lemma_find_is(s: Seq<char>, c: char, at: int)
    requires
        0 <= at < s.len(),
        s[at] == c,
        forall|i: int| 0 <= i < at ==> s[i] != c,
    ensures
        find(s, c) == at,
{
    lemma_find(s, c);
}

/// Reading a number in decimal gives the number back, and every character of it
/// is a digit.
pub proof fn law_decimal_value(n: nat)
    ensures
        digits_value(decimal(n)) == n,
        decimal(n).len() > 0,
        forall|i: int| 0 <= i < decimal(n).len() ==> is_digit(#[trigger] decimal(n)[i]),
    decreases n,
{
    if n < 10 {
        reveal_with_fuel(digits_value, 2);
        assert(decimal(n).drop_last() == Seq::<char>::empty());
    } else {
        law_decimal_value(n / 10);
        assert(decimal(n).drop_last() == decimal(n / 10));
    }
}

/// An octet in decimal reads back as itself.
pub proof fn law_octet_reads_back(n: u8)
    ensures
        octet(decimal(n as nat)) == Some(n),
{
    law_decimal_value(n as nat);
    assert(is_digit(decimal(n as nat)[0]));
}

/// Different numbers differ in decimal.
pub proof fn law_decimal_injective(m: nat, n: nat)
    requires
        decimal(m) == decimal(n),
    ensures
        m == n,
{
    law_decimal_value(m);
    law_decimal_value(n);
}

/// Splitting leaves at least one piece, and no piece holds the separator.
/// Joining the pieces gives the text back.
pub proof fn law_split_joins_back(s: Seq<char>, sep: char)
    ensures
        split(s, sep).len() > 0,
        forall|i: int|
            0 <= i < split(s, sep).len() ==> !(#[trigger] split(s, sep)[i]).contains(sep),
        join(split(s, sep), sep) == s,
    decreases s.len(),
{
    lemma_find(s, sep);
    if find(s, sep) < s.len() {
        let at = find(s, sep) as int;
        let rest = s.skip(at + 1);
        law_split_joins_back(rest, sep);
        let parts = split(s, sep);
        assert(parts.skip(1) == split(rest, sep));
        assert(!s.take(at).contains(sep));
        assert(s == s.take(at) + seq![sep] + rest);
        assert forall|i: int| 0 <= i < parts.len() implies !(#[trigger] parts[i]).contains(sep) by {
            if i > 0 {
                assert(parts[i] == split(rest, sep)[i - 1]);
            }
        }
    }
}

/// Pieces without the separator come back from splitting what joins them.
pub proof fn law_join_splits_back(parts: Seq<Seq<char>>, sep: char)
    requires
        parts.len() > 0,
        forall|i: int| 0 <= i < parts.len() ==> !(#[trigger] parts[i]).contains(sep),
    ensures
        split(join(parts, sep), sep) == parts,
    decreases parts.len(),
{
    let s = join(parts, sep);
    if parts.len() == 1 {
        assert(!parts[0].contains(sep));
        lemma_find(s, sep);
        assert(parts == seq![s]);
    } else {
        let rest = parts.skip(1);
        assert forall|i: int| 0 <= i < rest.len() implies !(#[trigger] rest[i]).contains(sep) by {
            assert(rest[i] == parts[i + 1]);
        }
        law_join_splits_back(rest, sep);
        let at = parts[0].len() as int;
        assert(s[at] == sep);
        assert(!parts[0].contains(sep));
        assert forall|i: int| 0 <= i < at implies s[i] != sep by {
            assert(s[i] == parts[0][i]);
        }
        lemma_find_is(s, sep, at);
        assert(s.take(at) == parts[0]);
        assert(s.skip(at + 1) == join(rest, sep));
        assert(parts == seq![parts[0]] + rest);
    }
}

/// The characters of a string.
pub fn chars_of(s: &str) -> (r: Vec<char>)
    ensures
        r@ == s@,
{
    let mut r: Vec<char> = Vec::new();
    for c in it: s.chars()
        invariant
            it.seq() == s@,
            r@ == it.seq().take(it.index()),
    {
        r.push(c);
    }
    assert(s@.take(s@.len() as int) == s@);
    r
}

/// The index of the first `c` from `from` on, or the length.
pub fn find_from(s: &Vec<char>, from: usize, c: char) -> (r: usize)
    requires
        from <= s.len(),
    ensures
        r == from + find(s@.skip(from as int), c),
        from <= r <= s.len(),
        r < s.len() <==> s@.skip(from as int).contains(c),
{
    let mut i: usize = from;
    let ghost rest = s@.skip(from as int);
    while i < s.len() && s[i] != c
        invariant
            from <= i <= s.len(),
            rest == s@.skip(from as int),
            forall|j: int| 0 <= j < i - from ==> rest[j] != c,
        decreases s.len() - i,
    {
        i = i + 1;
    }
    proof {
        lemma_find(rest, c);
        if i < s.len() {
            assert(rest[i - from] == c);
            lemma_find_is(rest, c, i - from);
        }
    }
    i
}

/// Whether `c` occurs in `s`.
pub fn has_char(s: &str, c: char) -> (r: bool)
    ensures
        r == s@.contains(c),
{
    let chars = chars_of(s);
    let i = find_from(&chars, 0, c);
    assert(chars@.skip(0) == chars@);
    i < chars.len()
}

/// The pieces of a string between the separators.
pub fn split_at_char<'a>(s: &'a str, sep: char) -> (r: Vec<&'a str>)
    ensures
        r@.map_values(|p: &str| p@) == split(s@, sep),
{
    let chars = chars_of(s);
    let mut r: Vec<&'a str> = Vec::new();
    let mut from: usize = 0;
    let mut at: usize = find_from(&chars, 0, sep);
    assert(chars@.skip(0) == chars@);
    let ghost view = |p: &str| p@;
    while at < chars.len()
        invariant
            chars@ == s@,
            view == (|p: &str| p@),
            from <= at <= chars.len(),
            at == from + find(chars@.skip(from as int), sep),
            split(s@, sep) == r@.map_values(view) + split(s@.skip(from as int), sep),
        decreases chars.len() - at,
    {
        let piece: &'a str = s.substring_char(from, at);
        let ghost before = r@.map_values(view);
        let ghost rest = s@.skip(from as int);
        r.push(piece);
        proof {
            assert(r@.map_values(view) == before.push(piece@));
            assert(piece@ == rest.take(find(rest, sep) as int));
            assert(rest.skip(find(rest, sep) as int + 1) == s@.skip(at as int + 1));
            assert(split(s@, sep) == r@.map_values(view) + split(s@.skip(at as int + 1), sep));
        }
        from = at + 1;
        at = find_from(&chars, from, sep);
    }
    let last: &'a str = s.substring_char(from, chars.len());
    let ghost before = r@.map_values(view);
    r.push(last);
    proof {
        assert(last@ == s@.skip(from as int));
        assert(r@.map_values(view) == before.push(last@));
        assert(split(last@, sep) == seq![last@]);
    }
    r
}

/// More digits at the end never make the value smaller.
proof fn lemma_digits_value_prefix(s: Seq<char>, n: int)
    requires
        0 <= n <= s.len(),
    ensures
        digits_value(s.take(n)) <= digits_value(s),
    decreases s.len() - n,
{
    if n == s.len() {
        assert(s.take(n) == s);
    } else {
        lemma_digits_value_prefix(s, n + 1);
        assert(s.take(n + 1).drop_last() == s.take(n));
    }
}

/// Reads an octet.
pub fn parse_octet(s: &str) -> (r: Option<u8>)
    ensures
        r == octet(s@),
{
    let chars = chars_of(s);
    let start: usize = if chars.len() > 0 && chars[0] == '+' {
        1
    } else {
        0
    };
    let ghost body = unsigned(s@);
    assert(body == chars@.skip(start as int));
    if start == chars.len() {
        return None;
    }
    let mut value: u16 = 0;
    let mut i: usize = start;
    while i < chars.len()
        invariant
            start <= i <= chars.len(),
            body == unsigned(s@),
            body == chars@.skip(start as int),
            body.len() > 0,
            forall|j: int| 0 <= j < i - start ==> is_digit(#[trigger] body[j]),
            value == digits_value(body.take(i - start)),
            value <= 255,
        decreases chars.len() - i,
    {
        let c: char = chars[i];
        assert(c == body[i - start]);
        if c < '0' || c > '9' {
            return None;
        }
        let d: u16 = (c as u32 - '0' as u32) as u16;
        proof {
            assert(body.take(i - start + 1).drop_last() == body.take(i - start));
            lemma_digits_value_prefix(body, i - start + 1);
        }
        value = value * 10 + d;
        if value > 255 {
            return None;
        }
        i = i + 1;
    }
    assert(body.take(body.len() as int) == body);
    Some(value as u8)
}

/// A decimal digit as text.
fn digit_str(d: u16) -> (r: &'static str)
    requires
        d < 10,
    ensures
        r@ == seq![digit(d as nat)],
{
    proof {
        reveal_strlit("0");
        reveal_strlit("1");
        reveal_strlit("2");
        reveal_strlit("3");
        reveal_strlit("4");
        reveal_strlit("5");
        reveal_strlit("6");
        reveal_strlit("7");
        reveal_strlit("8");
        reveal_strlit("9");
    }
    match d {
        0 => "0",
        1 => "1",
        2 => "2",
        3 => "3",
        4 => "4",
        5 => "5",
        6 => "6",
        7 => "7",
        8 => "8",
        _ => "9",
    }
}

/// A number in decimal.
pub fn decimal_string(n: u16) -> (r: String)
    ensures
        r@ == decimal(n as nat),
    decreases n,
{
    if n < 10 {
        digit_str(n).to_owned()
    } else {
        let mut r = decimal_string(n / 10);
        r.append(digit_str(n % 10));
        r
    }
}

/// An owned copy of an optional string slice.
pub fn own_opt(s: Option<&str>) -> (r: Option<String>)
    ensures
        view_opt(r) == view_opt_str(s),
{
    match s {
        Some(s) => Some(s.to_owned()),
        None => None,
    }
}

/// A copy of an optional string.
pub fn clone_opt(s: &Option<String>) -> (r: Option<String>)
    ensures
        r == *s,
{
    match s {
        Some(s) => Some(s.clone()),
        None => None,
    }
}

/// A piece more, joined, is a separator and the piece more; one piece alone is itself.
pub proof fn law_join_appends(parts: Seq<Seq<char>>, piece: Seq<char>, sep: char)
    ensures
        join(Seq::<Seq<char>>::empty(), sep) == Seq::<char>::empty(),
        join(seq![piece], sep) == piece,
        parts.len() > 0 ==> join(parts.push(piece), sep) == join(parts, sep) + seq![sep] + piece,
    decreases parts.len(),
{
    if parts.len() > 0 {
        assert(parts.push(piece).skip(1) == parts.skip(1).push(piece));
        law_join_appends(parts.skip(1), piece, sep);
        if parts.len() == 1 {
            assert(parts.push(piece).skip(1) == seq![piece]);
        }
    }
}

/// Text without the separator is one piece, and text before the first separator is the
/// first piece of the whole.
pub proof fn law_split_cuts_at_each_separator(head: Seq<char>, rest: Seq<char>, sep: char)
    requires
        !head.contains(sep),
    ensures
        split(head, sep) == seq![head],
        split(head + seq![sep] + rest, sep) == seq![head] + split(rest, sep),
{
    lemma_find(head, sep);
    let s = head + seq![sep] + rest;
    assert(s[head.len() as int] == sep);
    assert forall|i: int| 0 <= i < head.len() implies s[i] != sep by {
        assert(s[i] == head[i]);
    }
    lemma_find_is(s, sep, head.len() as int);
    assert(s.take(head.len() as int) == head);
    assert(s.skip(head.len() as int + 1) == rest);
}

/// A digit more at the end makes ten times the number, and the digit more, both when
/// it is read and when it is written; no digits at all are zero. Only the ten ASCII
/// digits are digits. A number other than zero is written without a zero in front.
pub proof fn law_a_digit_more(s: Seq<char>, n: nat, d: nat, c: char)
    requires
        d < 10,
        c as nat == 48 + d,
    ensures
        digits_value(Seq::<char>::empty()) == 0,
        digits_value(s.push(c)) == 10 * digits_value(s) + d,
        decimal(d) == seq![c],
        n > 0 ==> decimal(10 * n + d) == decimal(n).push(c),
        is_digit(c),
        forall|other: char| #[trigger] is_digit(other) ==> 48 <= other as nat <= 57,
        n > 0 ==> decimal(n)[0] != '0',
{
    assert(s.push(c).drop_last() == s);
    if n > 0 {
        assert((10 * n + d) / 10 == n && (10 * n + d) % 10 == d);
        lemma_no_leading_zero(n);
    }
}

proof fn lemma_no_leading_zero(n: nat)
    requires
        n > 0,
    ensures
        decimal(n).len() > 0,
        decimal(n)[0] != '0',
    decreases n,
{
    if n >= 10 {
        lemma_no_leading_zero(n / 10);
    }
}

/// So many zeros.
pub open spec fn zeros(k: nat) -> Seq<char> {
    Seq::new(k, |i: int| '0')
}

proof fn lemma_zeros_in_front(k: nat, s: Seq<char>)
    ensures
        digits_value(zeros(k) + s) == digits_value(s),
    decreases k + s.len(),
{
    let whole = zeros(k) + s;
    if s.len() > 0 {
        assert(whole.drop_last() == zeros(k) + s.drop_last());
        lemma_zeros_in_front(k, s.drop_last());
    } else if k > 0 {
        assert(whole.drop_last() == zeros((k - 1) as nat) + s);
        assert(whole.last() == '0');
        lemma_zeros_in_front((k - 1) as nat, s);
    } else {
        assert(whole == s);
    }
}

proof fn lemma_digits_are_zeros_and_decimal(s: Seq<char>) -> (k: nat)
    requires
        s.len() > 0,
        forall|i: int| 0 <= i < s.len() ==> is_digit(#[trigger] s[i]),
    ensures
        s == zeros(k) + decimal(digits_value(s)),
    decreases s.len(),
{
    let c = s.last();
    assert(is_digit(s[s.len() - 1]));
    let d = (c as nat - '0' as nat) as nat;
    if s.len() == 1 {
        reveal_with_fuel(digits_value, 2);
        assert(s.drop_last() == Seq::<char>::empty());
        assert(s == zeros(0) + decimal(d));
        0
    } else {
        let t = s.drop_last();
        assert forall|i: int| 0 <= i < t.len() implies is_digit(#[trigger] t[i]) by {
            assert(t[i] == s[i]);
        }
        let k = lemma_digits_are_zeros_and_decimal(t);
        let v = digits_value(t);
        assert(s == t.push(c));
        law_a_digit_more(t, v, d, c);
        if v == 0 {
            assert(s == zeros(k + 1) + decimal(d));
            k + 1
        } else {
            assert(s == zeros(k) + decimal(10 * v + d));
            k
        }
    }
}

/// An octet is read from exactly its decimal form, with any number of zeros in front,
/// and with or without a plus sign before them.
pub proof fn law_octet_is_read_from_its_decimal(s: Seq<char>, n: u8)
    ensures
        octet(s) == Some(n) <==> exists|k: nat|
            s == #[trigger] zeros(k) + decimal(n as nat) || s == seq!['+'] + (zeros(k) + decimal(
                n as nat,
            )),
{
    let body = unsigned(s);
    if octet(s) == Some(n) {
        let k = lemma_digits_are_zeros_and_decimal(body);
        if s[0] == '+' {
            assert(s == seq!['+'] + body);
        }
        assert(body == zeros(k) + decimal(n as nat));
    }
    assert forall|k: nat|
        s == #[trigger] zeros(k) + decimal(n as nat) || s == seq!['+'] + (zeros(k) + decimal(
            n as nat,
        )) implies octet(s) == Some(n) by {
        let digits = zeros(k) + decimal(n as nat);
        law_decimal_value(n as nat);
        lemma_zeros_in_front(k, decimal(n as nat));
        assert forall|i: int| 0 <= i < digits.len() implies is_digit(#[trigger] digits[i]) by {
            if i >= k {
                assert(digits[i] == decimal(n as nat)[i - k]);
            }
        }
        assert(is_digit(digits[0]));
        if s == seq!['+'] + digits {
            assert(s.skip(1) == digits);
        }
        assert(body == digits);
    }
}

/// The views of strings show what the strings hold, none left out and none added.
pub proof fn law_strings_are_shown(
    strings: Seq<String>,
    i: int,
    s: Option<String>,
    t: Option<&str>,
)
    ensures
        views(strings).len() == strings.len(),
        0 <= i < strings.len() ==> views(strings)[i] == strings[i]@,
        s is None ==> view_opt(s) is None,
        s is Some ==> view_opt(s) == Some(s->0@),
        t is None ==> view_opt_str(t) is None,
        t is Some ==> view_opt_str(t) == Some(t->0@),
{
}

} // verus!
