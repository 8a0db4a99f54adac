//! Ranges of IPv4 addresses, written like `127.0.0.1-10`.
use vstd::prelude::*;

use crate::text::{chars_of, decimal_string, find_from, parse_octet, split_at_char};
use crate::text::{decimal, find, is_digit, join, octet, split, views};
use crate::text::{
    law_decimal_injective, law_decimal_value, law_join_splits_back, law_octet_reads_back,
    law_split_joins_back, lemma_find, lemma_find_is,
};

verus! {

/// Why a text is not a range of addresses.
#[derive(Debug)]
pub enum IpRangeError {
    /// What stands before the dash does not have four parts.
    InvalidIp(String),
    /// What stands after the dash is not an octet.
    InvalidEnd(String),
    /// The fourth part before the dash is not an octet.
    InvalidLastOctet(String),
    /// The range ends below its first address.
    EndBelowBase,
}

/// What an `IpRangeError` holds.
pub enum IpRangeErrorView {
    InvalidIp(Seq<char>),
    InvalidEnd(Seq<char>),
    InvalidLastOctet(Seq<char>),
    EndBelowBase,
}

impl View for IpRangeError {
    type V = IpRangeErrorView;

    open spec fn view(&self) -> IpRangeErrorView {
        match self {
            IpRangeError::InvalidIp(s) => IpRangeErrorView::InvalidIp(s@),
            IpRangeError::InvalidEnd(s) => IpRangeErrorView::InvalidEnd(s@),
            IpRangeError::InvalidLastOctet(s) => IpRangeErrorView::InvalidLastOctet(s@),
            IpRangeError::EndBelowBase => IpRangeErrorView::EndBelowBase,
        }
    }
}

impl IpRangeErrorView {
    /// The text of the error.
    pub open spec fn message(self) -> Seq<char> {
        match self {
            IpRangeErrorView::InvalidIp(s) => "Invalid IP format: "@ + s,
            IpRangeErrorView::InvalidEnd(s) => "Invalid end number: "@ + s,
            IpRangeErrorView::InvalidLastOctet(s) => "Invalid IP last octet: "@ + s,
            IpRangeErrorView::EndBelowBase =>
                "End number must be greater than or equal to base number"@,
        }
    }
}

impl IpRangeError {
    /// The text of the error.
    pub fn message(&self) -> (r: String)
        ensures
            r@ == self@.message(),
    {
        match self {
            IpRangeError::InvalidIp(s) => "Invalid IP format: ".to_owned().concat(s.as_str()),
            IpRangeError::InvalidEnd(s) => "Invalid end number: ".to_owned().concat(s.as_str()),
            IpRangeError::InvalidLastOctet(s) => "Invalid IP last octet: ".to_owned().concat(
                s.as_str(),
            ),
            IpRangeError::EndBelowBase =>
                "End number must be greater than or equal to base number".to_owned(),
        }
    }
}

/// The address whose first three parts are those of `parts` and whose last is `n`.
pub open spec fn address(parts: Seq<Seq<char>>, n: nat) -> Seq<char> {
    join(seq![parts[0], parts[1], parts[2], decimal(n)], '.')
}

/// The addresses that a text names: those of the range where it holds a dash, else
/// the text itself.
pub open spec fn ip_range(s: Seq<char>) -> Result<Seq<Seq<char>>, IpRangeErrorView> {
    if !s.contains('-') {
        Ok(seq![s])
    } else {
        let base = s.take(find(s, '-') as int);
        let end = s.skip(find(s, '-') as int + 1);
        let parts = split(base, '.');
        if parts.len() != 4 {
            Err(IpRangeErrorView::InvalidIp(base))
        } else if octet(end) is None {
            Err(IpRangeErrorView::InvalidEnd(end))
        } else if octet(parts[3]) is None {
            Err(IpRangeErrorView::InvalidLastOctet(parts[3]))
        } else if octet(end)->0 < octet(parts[3])->0 {
            Err(IpRangeErrorView::EndBelowBase)
        } else {
            let first = octet(parts[3])->0 as nat;
            Ok(
                Seq::new(
                    (octet(end)->0 - first + 1) as nat,
                    |i: int| address(parts, (first + i) as nat),
                ),
            )
        }
    }
}

/// Writes the address whose first three parts are given and whose last is `n`.
fn write_address(a: &str, b: &str, c: &str, n: u16) -> (r: String)
    ensures
        r@ == join(seq![a@, b@, c@, decimal(n as nat)], '.'),
{
    let mut r: String = a.to_owned();
    r.append(".");
    r.append(b);
    r.append(".");
    r.append(c);
    r.append(".");
    r.append(decimal_string(n).as_str());
    proof {
        reveal_strlit(".");
        assert("."@ == seq!['.']);
        lemma_join_four(a@, b@, c@, decimal(n as nat));
    }
    r
}

/// Lists the addresses of a range such as `127.0.0.1-10`. A text without a dash
/// stands for itself.
pub fn parse_ip_range(ip_range: &str) -> (r: Result<Vec<String>, IpRangeError>)
    ensures
        match r {
            Ok(ips) => self::ip_range(ip_range@) == Ok::<_, IpRangeErrorView>(views(ips@)),
            Err(e) => self::ip_range(ip_range@) == Err::<Seq<Seq<char>>, _>(e@),
        },
{
    let chars = chars_of(ip_range);
    assert(chars@.skip(0) == chars@);
    let dash: usize = find_from(&chars, 0, '-');
    let mut ips: Vec<String> = Vec::new();
    if dash == chars.len() {
        ips.push(ip_range.to_owned());
        assert(views(ips@) == seq![ip_range@]);
        return Ok(ips);
    }
    let base_ip: &str = ip_range.substring_char(0, dash);
    let end_num_str: &str = ip_range.substring_char(dash + 1, chars.len());
    assert(base_ip@ == ip_range@.take(dash as int));
    assert(end_num_str@ == ip_range@.skip(dash as int + 1));
    let ip_parts: Vec<&str> = split_at_char(base_ip, '.');
    let ghost parts = ip_parts@.map_values(|p: &str| p@);
    if ip_parts.len() != 4 {
        return Err(IpRangeError::InvalidIp(base_ip.to_owned()));
    }
    let end_num: u8 = match parse_octet(end_num_str) {
        Some(n) => n,
        None => {
            return Err(IpRangeError::InvalidEnd(end_num_str.to_owned()));
        },
    };
    assert(parts[3] == ip_parts[3]@);
    let base_last: u8 = match parse_octet(ip_parts[3]) {
        Some(n) => n,
        None => {
            return Err(IpRangeError::InvalidLastOctet(ip_parts[3].to_owned()));
        },
    };
    if end_num < base_last {
        return Err(IpRangeError::EndBelowBase);
    }
    let mut i: u16 = base_last as u16;
    while i <= end_num as u16
        invariant
            base_last <= i <= end_num + 1,
            ip_parts.len() == 4,
            parts == ip_parts@.map_values(|p: &str| p@),
            views(ips@) == Seq::new(
                (i - base_last) as nat,
                |k: int| address(parts, (base_last as nat + k) as nat),
            ),
        decreases end_num + 1 - i,
    {
        let ghost before = views(ips@);
        let ip = write_address(ip_parts[0], ip_parts[1], ip_parts[2], i);
        proof {
            assert(parts[0] == ip_parts[0]@);
            assert(parts[1] == ip_parts[1]@);
            assert(parts[2] == ip_parts[2]@);
        }
        ips.push(ip);
        assert(views(ips@) == before.push(ip@));
        i = i + 1;
    }
    Ok(ips)
}

/// What joins four parts, written out.
proof fn lemma_join_four(a: Seq<char>, b: Seq<char>, c: Seq<char>, d: Seq<char>)
    ensures
        join(seq![a, b, c, d], '.') == a + seq!['.'] + b + seq!['.'] + c + seq!['.'] + d,
{
    reveal_with_fuel(join, 4);
    let parts = seq![a, b, c, d];
    assert(parts.skip(1) == seq![b, c, d]);
    assert(parts.skip(1).skip(1) == seq![c, d]);
    assert(parts.skip(1).skip(1).skip(1) == seq![d]);
}

/// A text that names addresses names at least one, and at most 256.
pub proof fn law_range_size(s: Seq<char>)
    requires
        ip_range(s) is Ok,
    ensures
        1 <= ip_range(s)->Ok_0.len() <= 256,
{
}

/// The range from octet `x` to octet `y` after three parts without a dot or a dash
/// is accepted exactly when `x <= y`, and holds `y - x + 1` addresses: the three
/// parts followed by each octet from `x` to `y`, in order.
pub proof fn law_written_range_is_listed(
    a: Seq<char>,
    b: Seq<char>,
    c: Seq<char>,
    x: u8,
    y: u8,
)
    requires
        !a.contains('.') && !b.contains('.') && !c.contains('.'),
        !a.contains('-') && !b.contains('-') && !c.contains('-'),
    ensures
        ({
            let s = join(seq![a, b, c, decimal(x as nat)], '.') + seq!['-'] + decimal(y as nat);
            if x <= y {
                ip_range(s) == Ok::<_, IpRangeErrorView>(
                    Seq::new(
                        (y - x + 1) as nat,
                        |i: int| join(seq![a, b, c, decimal((x + i) as nat)], '.'),
                    ),
                )
            } else {
                ip_range(s) == Err::<Seq<Seq<char>>, _>(IpRangeErrorView::EndBelowBase)
            }
        }),
{
    let d = decimal(x as nat);
    let e = decimal(y as nat);
    let parts = seq![a, b, c, d];
    let base = join(parts, '.');
    let s = base + seq!['-'] + e;
    law_decimal_value(x as nat);
    assert(!d.contains('.')) by {
        assert forall|i: int| 0 <= i < d.len() implies d[i] != '.' by {
            assert(is_digit(d[i]));
        }
    }
    lemma_join_four(a, b, c, d);
    assert forall|i: int| 0 <= i < base.len() implies base[i] != '-' by {
        assert forall|j: int| 0 <= j < d.len() implies d[j] != '-' by {
            assert(is_digit(d[j]));
        }
    }
    assert forall|i: int| 0 <= i < base.len() implies s[i] != '-' by {
        assert(s[i] == base[i]);
    }
    assert(s[base.len() as int] == '-');
    lemma_find_is(s, '-', base.len() as int);
    assert(s.take(base.len() as int) == base);
    assert(s.skip(base.len() as int + 1) == e);
    assert(s.contains('-'));
    law_join_splits_back(parts, '.');
    law_octet_reads_back(x);
    law_octet_reads_back(y);
    if x <= y {
        assert(ip_range(s)->Ok_0 == Seq::new(
            (y - x + 1) as nat,
            |i: int| join(seq![a, b, c, decimal((x + i) as nat)], '.'),
        ));
    }
}

/// The addresses of a range differ from each other.
pub proof fn law_addresses_differ(s: Seq<char>, i: int, j: int)
    requires
        ip_range(s) is Ok,
        0 <= i < j < ip_range(s)->Ok_0.len(),
    ensures
        ip_range(s)->Ok_0[i] != ip_range(s)->Ok_0[j],
{
    let base = s.take(find(s, '-') as int);
    let parts = split(base, '.');
    let first = octet(parts[3])->0 as nat;
    let head = parts[0] + seq!['.'] + parts[1] + seq!['.'] + parts[2] + seq!['.'];
    let m = (first + i) as nat;
    let n = (first + j) as nat;
    lemma_join_four(parts[0], parts[1], parts[2], decimal(m));
    lemma_join_four(parts[0], parts[1], parts[2], decimal(n));
    assert(address(parts, m) == head + decimal(m));
    assert(address(parts, n) == head + decimal(n));
    if address(parts, m) == address(parts, n) {
        assert(decimal(m) == (head + decimal(m)).skip(head.len() as int));
        assert(decimal(n) == (head + decimal(n)).skip(head.len() as int));
        law_decimal_injective(m, n);
    }
}

/// No address of a list holds a dash, so each stands for itself alone.
pub proof fn law_addresses_stand_for_themselves(s: Seq<char>, i: int)
    requires
        ip_range(s) is Ok,
        0 <= i < ip_range(s)->Ok_0.len(),
    ensures
        !ip_range(s)->Ok_0[i].contains('-'),
        ip_range(ip_range(s)->Ok_0[i]) == Ok::<_, IpRangeErrorView>(seq![ip_range(s)->Ok_0[i]]),
{
    if s.contains('-') {
        lemma_find(s, '-');
        let base = s.take(find(s, '-') as int);
        let parts = split(base, '.');
        let first = octet(parts[3])->0 as nat;
        let n = (first + i) as nat;
        assert forall|k: int| 0 <= k < base.len() implies base[k] != '-' by {
            assert(base[k] == s[k]);
        }
        law_split_joins_back(base, '.');
        assert(parts == seq![parts[0], parts[1], parts[2], parts[3]]);
        lemma_join_four(parts[0], parts[1], parts[2], parts[3]);
        lemma_join_four(parts[0], parts[1], parts[2], decimal(n));
        let head = parts[0] + seq!['.'] + parts[1] + seq!['.'] + parts[2] + seq!['.'];
        assert(base == head + parts[3]);
        law_decimal_value(n);
        let ip = address(parts, n);
        assert(ip == head + decimal(n));
        assert forall|k: int| 0 <= k < ip.len() implies ip[k] != '-' by {
            if k < head.len() {
                assert(ip[k] == base[k]);
            } else {
                assert(ip[k] == decimal(n)[k - head.len()]);
                assert(is_digit(decimal(n)[k - head.len()]));
            }
        }
    }
}

/// A text without a dash names itself alone.
pub proof fn law_text_without_a_dash_is_one_address(s: Seq<char>)
    requires
        forall|i: int| 0 <= i < s.len() ==> s[i] != '-',
    ensures
        ip_range(s) == Ok::<_, IpRangeErrorView>(seq![s]),
{
}

/// What stands before the first dash has to have four parts between dots; the rest is
/// not looked at before that.
pub proof fn law_base_has_four_parts(parts: Seq<Seq<char>>, end: Seq<char>)
    requires
        parts.len() > 0,
        parts.len() != 4,
        forall|i: int| 0 <= i < parts.len() ==> !(#[trigger] parts[i]).contains('.'),
        !join(parts, '.').contains('-'),
    ensures
        ip_range(join(parts, '.') + seq!['-'] + end) == Err::<Seq<Seq<char>>, _>(
            IpRangeErrorView::InvalidIp(join(parts, '.')),
        ),
{
    lemma_at_the_dash(join(parts, '.'), end);
    law_join_splits_back(parts, '.');
}

/// A text is cut at its first dash.
proof fn lemma_at_the_dash(base: Seq<char>, end: Seq<char>)
    requires
        !base.contains('-'),
    ensures
        ({
            let s = base + seq!['-'] + end;
            &&& s.contains('-')
            &&& find(s, '-') == base.len()
            &&& s.take(base.len() as int) == base
            &&& s.skip(base.len() as int + 1) == end
        }),
{
    let s = base + seq!['-'] + end;
    assert(s[base.len() as int] == '-');
    assert forall|i: int| 0 <= i < base.len() implies s[i] != '-' by {
        assert(s[i] == base[i]);
    }
    lemma_find_is(s, '-', base.len() as int);
    assert(s.take(base.len() as int) == base);
    assert(s.skip(base.len() as int + 1) == end);
}

/// Of four parts and an end, the end is read first, then the fourth part, then the two
/// are compared, each with its own error. What passes names the three parts with each
/// octet from the fourth part to the end, in order, written in decimal however the two
/// were written.
pub proof fn law_range_is_read_part_by_part(
    a: Seq<char>,
    b: Seq<char>,
    c: Seq<char>,
    d: Seq<char>,
    end: Seq<char>,
)
    requires
        !a.contains('.') && !b.contains('.') && !c.contains('.') && !d.contains('.'),
        !a.contains('-') && !b.contains('-') && !c.contains('-') && !d.contains('-'),
    ensures
        ({
            let dot = seq!['.'];
            let named = ip_range(a + dot + b + dot + c + dot + d + seq!['-'] + end);
            match (octet(end), octet(d)) {
                (None, _) => named == Err::<Seq<Seq<char>>, _>(IpRangeErrorView::InvalidEnd(end)),
                (Some(_), None) => named == Err::<Seq<Seq<char>>, _>(
                    IpRangeErrorView::InvalidLastOctet(d),
                ),
                (Some(y), Some(x)) => if y < x {
                    named == Err::<Seq<Seq<char>>, _>(IpRangeErrorView::EndBelowBase)
                } else {
                    named matches Ok(ips) && {
                        &&& ips.len() == y - x + 1
                        &&& forall|i: int|
                            0 <= i <= y - x ==> #[trigger] ips[i] == a + dot + b + dot + c + dot
                                + decimal((x + i) as nat)
                    }
                },
            }
        }),
{
    let parts = seq![a, b, c, d];
    let base = join(parts, '.');
    lemma_join_four(a, b, c, d);
    assert forall|i: int| 0 <= i < base.len() implies base[i] != '-' by {}
    lemma_at_the_dash(base, end);
    law_join_splits_back(parts, '.');
    if let (Some(y), Some(x)) = (octet(end), octet(d)) {
        let ips = ip_range(base + seq!['-'] + end)->Ok_0;
        assert forall|i: int| x <= y && 0 <= i <= y - x implies #[trigger] ips[i] == a + seq!['.']
            + b + seq!['.'] + c + seq!['.'] + decimal((x + i) as nat) by {
            lemma_join_four(a, b, c, decimal((x + i) as nat));
        }
    }
}

/// Each error has its own text, with the words that it is about.
pub proof fn law_range_errors_are_told_apart(s: Seq<char>)
    ensures
        IpRangeErrorView::InvalidIp(s).message() == "Invalid IP format: "@ + s,
        IpRangeErrorView::InvalidEnd(s).message() == "Invalid end number: "@ + s,
        IpRangeErrorView::InvalidLastOctet(s).message() == "Invalid IP last octet: "@ + s,
        IpRangeErrorView::EndBelowBase.message()
            == "End number must be greater than or equal to base number"@,
{
}

/// The view of an error shows the words that it is about.
pub proof fn law_range_errors_are_shown(error: IpRangeError)
    ensures
        match error {
            IpRangeError::InvalidIp(s) => error@ == IpRangeErrorView::InvalidIp(s@),
            IpRangeError::InvalidEnd(s) => error@ == IpRangeErrorView::InvalidEnd(s@),
            IpRangeError::InvalidLastOctet(s) => error@ == IpRangeErrorView::InvalidLastOctet(s@),
            IpRangeError::EndBelowBase => error@ == IpRangeErrorView::EndBelowBase,
        },
{
}

} // verus!
