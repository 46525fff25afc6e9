use vstd::prelude::*;

verus! {

/// The characters of `s`, in order.
pub fn chars_of(s: &str) -> (r: Vec<char>)
    ensures
        r@ == s@,
{
    let mut out: Vec<char> = Vec::new();
    for c in it: s.chars()
        invariant
            out@ == it.seq().take(it.index() as int),
    {
        out.push(c);
    }
    out
}

/// Whether `a` and `b` hold the same characters.
pub fn same_text(a: &str, b: &str) -> (r: bool)
    ensures
        r == (a@ == b@),
{
    let x = chars_of(a);
    let y = chars_of(b);
    if x.len() != y.len() {
        return false;
    }
    let mut i: usize = 0;
    while i < x.len()
        invariant
            x@ == a@, y@ == b@, x.len() == y.len(), 0 <= i <= x.len(),
            forall|j: int| 0 <= j < i ==> x@[j] == y@[j],
        decreases x.len() - i,
    {
        if x[i] != y[i] {
            return false;
        }
        i = i + 1;
    }
    assert(x@ =~= y@);
    true
}


/// Rust's `char::is_whitespace`: the Unicode `White_Space` property.
pub open spec fn is_whitespace(c: char) -> bool {
    ||| ('\u{9}' <= c && c <= '\u{d}')
    ||| c == ' '
    ||| c == '\u{85}'
    ||| c == '\u{a0}'
    ||| c == '\u{1680}'
    ||| ('\u{2000}' <= c && c <= '\u{200a}')
    ||| c == '\u{2028}'
    ||| c == '\u{2029}'
    ||| c == '\u{202f}'
    ||| c == '\u{205f}'
    ||| c == '\u{3000}'
}

pub fn char_is_whitespace(c: char) -> (r: bool)
    ensures
        r == is_whitespace(c),
{
    ('\u{9}' <= c && c <= '\u{d}') || c == ' ' || c == '\u{85}' || c == '\u{a0}' || c == '\u{1680}'
        || ('\u{2000}' <= c && c <= '\u{200a}') || c == '\u{2028}' || c == '\u{2029}' || c
        == '\u{202f}' || c == '\u{205f}' || c == '\u{3000}'
}

pub open spec fn is_ascii_digit(c: char) -> bool {
    '0' <= c && c <= '9'
}

pub open spec fn digit_value(c: char) -> int {
    (c as int) - ('0' as int)
}

pub open spec fn all_digits(s: Seq<char>) -> bool {
    forall|i: int| 0 <= i < s.len() ==> is_ascii_digit(#[trigger] s[i])
}

/// The number that the decimal digits `s` spell, most significant first.
pub open spec fn decimal_value(s: Seq<char>) -> int
    decreases s.len(),
{
    if s.len() == 0 {
        0
    } else {
        decimal_value(s.drop_last()) * 10 + digit_value(s.last())
    }
}

/// What `str::parse::<u32>` gives: an optional `+`, then one or more ASCII digits whose value
/// fits in a `u32`.
pub open spec fn spec_parse_u32(s: Seq<char>) -> Option<u32> {
    let d = if s.len() > 1 && s[0] == '+' { s.drop_first() } else { s };
    if d.len() > 0 && all_digits(d) && decimal_value(d) <= u32::MAX {
        Some(decimal_value(d) as u32)
    } else {
        None
    }
}

/// What `str::parse::<i32>` gives: an optional `+` or `-`, then one or more ASCII digits whose
/// signed value fits in an `i32`.
pub open spec fn spec_parse_i32(s: Seq<char>) -> Option<i32> {
    let negative = s.len() > 1 && s[0] == '-';
    let d = if s.len() > 1 && (s[0] == '+' || s[0] == '-') { s.drop_first() } else { s };
    let v = if negative { -decimal_value(d) } else { decimal_value(d) };
    if d.len() > 0 && all_digits(d) && i32::MIN <= v <= i32::MAX {
        Some(v as i32)
    } else {
        None
    }
}

pub proof fn lemma_decimal_value_nonneg(s: Seq<char>)
    requires
        all_digits(s),
    ensures
        decimal_value(s) >= 0,
    decreases s.len(),
{
    if s.len() > 0 {
        assert(is_ascii_digit(s[s.len() - 1]));
        assert(all_digits(s.drop_last()));
        lemma_decimal_value_nonneg(s.drop_last());
    }
}

/// Reads the digits `d[start..]`, giving their value, or `None` as soon as it passes `bound`.
fn digits_value_up_to(d: &Vec<char>, start: usize, bound: u64) -> (r: Option<u64>)
    requires
        start <= d.len(),
        bound <= u32::MAX + 1,
        all_digits(d@.subrange(start as int, d.len() as int)),
    ensures
        ({
            let v = decimal_value(d@.subrange(start as int, d.len() as int));
            match r {
                Some(x) => x == v && v <= bound,
                None => v > bound,
            }
        }),
{
    let ghost ds = d@.subrange(start as int, d.len() as int);
    let mut value: u64 = 0;
    let mut i: usize = start;
    while i < d.len()
        invariant
            start <= i <= d.len(),
            bound <= u32::MAX + 1,
            ds == d@.subrange(start as int, d.len() as int),
            all_digits(ds),
            value == decimal_value(d@.subrange(start as int, i as int)),
            value <= bound,
        decreases d.len() - i,
    {
        let c = d[i];
        proof {
            assert(d@.subrange(start as int, i + 1) =~= d@.subrange(start as int, i as int).push(c));
            assert(ds[i - start] == c);
            assert(is_ascii_digit(c));
            assert(d@.subrange(start as int, i + 1).drop_last() =~= d@.subrange(start as int, i as int));
        }
        let digit: u64 = (c as u64) - ('0' as u64);
        value = value * 10 + digit;
        i = i + 1;
        if value > bound {
            proof {
                lemma_decimal_value_prefix_grows(ds, (i - start) as int);
                assert(ds.take((i - start) as int) =~= d@.subrange(start as int, i as int));
                assert(ds.take(ds.len() as int) =~= ds);
            }
            return None;
        }
    }
    Some(value)
}

/// With only digits, a longer prefix never spells a smaller number.
proof fn lemma_decimal_value_prefix_grows(s: Seq<char>, j: int)
    requires
        all_digits(s),
        0 <= j <= s.len(),
    ensures
        decimal_value(s.take(j)) <= decimal_value(s),
    decreases s.len(),
{
    if j < s.len() {
        let t = s.drop_last();
        assert(all_digits(t));
        lemma_decimal_value_prefix_grows(t, j);
        assert(t.take(j) =~= s.take(j));
        lemma_decimal_value_nonneg(t);
        assert(is_ascii_digit(s[s.len() - 1]));
    } else {
        assert(s.take(j) =~= s);
    }
}

fn all_digits_from(d: &Vec<char>, start: usize) -> (r: bool)
    requires
        start <= d.len(),
    ensures
        r == all_digits(d@.subrange(start as int, d.len() as int)),
{
    let mut i: usize = start;
    while i < d.len()
        invariant
            start <= i <= d.len(),
            forall|k: int| start <= k < i ==> is_ascii_digit(#[trigger] d@[k]),
        decreases d.len() - i,
    {
        if !(d[i] >= '0' && d[i] <= '9') {
            assert(!is_ascii_digit(d@.subrange(start as int, d.len() as int)[i - start]));
            return false;
        }
        i = i + 1;
    }
    true
}

/// Parses `s` as `str::parse::<u32>` does.
pub fn parse_u32(s: &Vec<char>) -> (r: Option<u32>)
    ensures
        r == spec_parse_u32(s@),
{
    let start: usize = if s.len() > 1 && s[0] == '+' { 1 } else { 0 };
    proof {
        if start == 1 {
            assert(s@.subrange(1, s.len() as int) =~= s@.drop_first());
        } else {
            assert(s@.subrange(0, s.len() as int) =~= s@);
        }
    }
    if start == s.len() || !all_digits_from(s, start) {
        return None;
    }
    match digits_value_up_to(s, start, 0xffff_ffff) {
        Some(v) => Some(v as u32),
        None => None,
    }
}

/// Parses `s` as `str::parse::<i32>` does.
pub fn parse_i32(s: &Vec<char>) -> (r: Option<i32>)
    ensures
        r == spec_parse_i32(s@),
{
    let signed = s.len() > 1 && (s[0] == '+' || s[0] == '-');
    let negative = s.len() > 1 && s[0] == '-';
    let start: usize = if signed { 1 } else { 0 };
    proof {
        if start == 1 {
            assert(s@.subrange(1, s.len() as int) =~= s@.drop_first());
        } else {
            assert(s@.subrange(0, s.len() as int) =~= s@);
        }
    }
    if start == s.len() || !all_digits_from(s, start) {
        return None;
    }
    let bound: u64 = if negative { 0x8000_0000 } else { 0x7fff_ffff };
    match digits_value_up_to(s, start, bound) {
        Some(v) => {
            if negative {
                if v == 0x8000_0000 {
                    Some(-2147483648i32)
                } else {
                    Some(-(v as i32))
                }
            } else {
                Some(v as i32)
            }
        },
        None => None,
    }
}


/// A separator between the tile indices of a layer's csv data: whitespace or a comma.
pub open spec fn is_csv_separator(c: char) -> bool {
    is_whitespace(c) || c == ','
}

/// The tokens of `s`: its maximal runs of characters that are not separators, in order.
pub open spec fn csv_tokens(s: Seq<char>) -> Seq<Seq<char>>
    decreases s.len(),
{
    if s.len() == 0 {
        Seq::empty()
    } else {
        let prev = csv_tokens(s.drop_last());
        let c = s.last();
        if is_csv_separator(c) {
            prev
        } else if s.len() >= 2 && !is_csv_separator(s[s.len() - 2]) {
            prev.update(prev.len() - 1, prev.last().push(c))
        } else {
            prev.push(seq![c])
        }
    }
}

/// Each token parsed as a `u32`, or `None` if some token is not one.
pub open spec fn parse_u32_all(tokens: Seq<Seq<char>>) -> Option<Seq<u32>>
    decreases tokens.len(),
{
    if tokens.len() == 0 {
        Some(Seq::empty())
    } else {
        match parse_u32_all(tokens.drop_last()) {
            Some(prev) => match spec_parse_u32(tokens.last()) {
                Some(v) => Some(prev.push(v)),
                None => None,
            },
            None => None,
        }
    }
}

/// The tile indices that a layer's csv text holds: the tokens of `s`, each parsed as a `u32`.
pub open spec fn spec_parse_csv_u32(s: Seq<char>) -> Option<Seq<u32>> {
    parse_u32_all(csv_tokens(s))
}

proof fn lemma_csv_tokens_nonempty(s: Seq<char>)
    ensures
        forall|k: int| 0 <= k < csv_tokens(s).len() ==> #[trigger] csv_tokens(s)[k].len() > 0,
        s.len() > 0 && !is_csv_separator(s.last()) ==> csv_tokens(s).len() > 0,
    decreases s.len(),
{
    if s.len() > 0 {
        lemma_csv_tokens_nonempty(s.drop_last());
        if s.len() >= 2 && !is_csv_separator(s[s.len() - 2]) {
            assert(s.drop_last().last() == s[s.len() - 2]);
        }
    }
}

/// Parses the csv text `s` of a layer's `<data>` block into tile indices, as the map loader
/// reads them: every run of characters between whitespace and commas is one index.
pub fn parse_csv_u32(s: &Vec<char>) -> (r: Option<Vec<u32>>)
    ensures
        match r {
            Some(v) => spec_parse_csv_u32(s@) == Some(v@),
            None => spec_parse_csv_u32(s@) is None,
        },
{
    let mut out: Vec<u32> = Vec::new();
    let mut cur: Vec<char> = Vec::new();
    let mut i: usize = 0;
    while i < s.len()
        invariant
            0 <= i <= s.len(),
            ({
                let t = csv_tokens(s@.take(i as int));
                if cur@.len() == 0 {
                    parse_u32_all(t) == Some(out@) && (i > 0 ==> is_csv_separator(s@[i - 1]))
                } else {
                    t.len() > 0 && t.last() == cur@ && parse_u32_all(t.drop_last()) == Some(out@)
                        && i > 0 && !is_csv_separator(s@[i - 1])
                }
            }),
        decreases s.len() - i,
    {
        let c = s[i];
        let ghost prev = s@.take(i as int);
        proof {
            assert(s@.take(i + 1).drop_last() =~= prev);
            assert(s@.take(i + 1).last() == c);
            if i > 0 {
                assert(s@.take(i + 1)[i - 1] == s@[i - 1]);
            }
        }
        if char_is_whitespace(c) || c == ',' {
            if cur.len() > 0 {
                match parse_u32(&cur) {
                    Some(v) => {
                        out.push(v);
                        proof {
                            let t = csv_tokens(prev);
                            assert(t.drop_last().push(t.last()) =~= t);
                        }
                    },
                    None => {
                        proof {
                            let j = i as int + 1;
                            assert(s@.take(j)[j - 1] == c);
                            assert(csv_tokens(s@.take(j)) == csv_tokens(prev));
                            let t = csv_tokens(prev);
                            assert(t.drop_last().push(t.last()) =~= t);
                            lemma_closed_tokens_prefix(s@, j, s.len() as int);
                            assert(s@.take(s.len() as int) =~= s@);
                            lemma_parse_all_prefix_none(csv_tokens(s@.take(j)), csv_tokens(s@));
                        }
                        return None;
                    },
                }
                cur = Vec::new();
            }
        } else {
            cur.push(c);
            proof {
                let t = csv_tokens(prev);
                let t2 = csv_tokens(s@.take(i + 1));
                lemma_csv_tokens_nonempty(prev);
                if i > 0 && !is_csv_separator(s@[i - 1]) {
                    assert(prev.last() == s@[i - 1]);
                    assert(t2.drop_last() =~= t.drop_last());
                } else {
                    assert(t2.drop_last() =~= t);
                }
            }
        }
        i = i + 1;
    }
    proof {
        assert(s@.take(s.len() as int) =~= s@);
    }
    if cur.len() > 0 {
        match parse_u32(&cur) {
            Some(v) => {
                out.push(v);
                proof {
                    let t = csv_tokens(s@);
                    assert(t.drop_last().push(t.last()) =~= t);
                }
            },
            None => {
                return None;
            },
        }
    }
    Some(out)
}

/// Once a separator closes the text `s.take(j)`, its tokens stay the first tokens of `s`.
proof fn lemma_closed_tokens_prefix(s: Seq<char>, j: int, k: int)
    requires
        0 < j <= k <= s.len(),
        is_csv_separator(s[j - 1]),
    ensures
        ({
            let n = csv_tokens(s.take(j)).len();
            let t = csv_tokens(s.take(k));
            &&& t.len() >= n
            &&& t.take(n as int) == csv_tokens(s.take(j))
            &&& (k > j && !is_csv_separator(s[k - 1]) ==> t.len() > n)
        }),
    decreases k - j,
{
    let n = csv_tokens(s.take(j)).len();
    if k == j {
        assert(csv_tokens(s.take(j)).take(n as int) =~= csv_tokens(s.take(j)));
    } else {
        lemma_closed_tokens_prefix(s, j, k - 1);
        let p = s.take(k - 1);
        let q = s.take(k);
        assert(q.drop_last() =~= p);
        assert(q.last() == s[k - 1]);
        let tp = csv_tokens(p);
        let tq = csv_tokens(q);
        if k >= 2 {
            assert(q[k - 2] == s[k - 2]);
        }
        if is_csv_separator(s[k - 1]) {
        } else if k >= 2 && !is_csv_separator(s[k - 2]) {
            assert(k - 1 > j);
            assert(tq.take(n as int) =~= tp.take(n as int));
        } else {
            assert(tq.take(n as int) =~= tp.take(n as int));
        }
    }
}

/// A list of tokens that starts with one that fails to parse fails to parse too.
proof fn lemma_parse_all_prefix_none(a: Seq<Seq<char>>, b: Seq<Seq<char>>)
    requires
        parse_u32_all(a) is None,
        b.len() >= a.len(),
        b.take(a.len() as int) == a,
    ensures
        parse_u32_all(b) is None,
    decreases b.len(),
{
    if b.len() > a.len() {
        assert(b.drop_last().take(a.len() as int) =~= b.take(a.len() as int));
        lemma_parse_all_prefix_none(a, b.drop_last());
    } else {
        assert(b.take(a.len() as int) =~= b);
    }
}

/// How `u32` parsing answers texts built a character at a time: a lone digit is its value;
/// a digit appended to a number makes ten times the number plus the digit (while that fits);
/// anything else appended to a text makes it no number; the empty text is none.
pub proof fn lemma_parse_u32_by_digits(d: Seq<char>, c: char)
    ensures
        spec_parse_u32(Seq::empty()) is None,
        '0' <= c <= '9' ==> spec_parse_u32(seq![c]) == Some(((c as u32) - 48) as u32),
        !('0' <= c <= '9') ==> spec_parse_u32(d.push(c)) is None,
        '0' <= c <= '9' ==> (spec_parse_u32(d) matches Some(n) ==> (n * 10 + (c as int - 48) <= u32::MAX
            ==> spec_parse_u32(d.push(c)) == Some((n * 10 + (c as int - 48)) as u32))),
{
    assert(seq![c].len() == 1);
    assert(decimal_value(seq![c]) == decimal_value(seq![c].drop_last()) * 10 + digit_value(c));
    assert(seq![c].drop_last() =~= Seq::<char>::empty());
    let e = d.push(c);
    assert(e.last() == c);
    if !('0' <= c <= '9') {
        if e.len() > 1 && e[0] == '+' {
            let t = e.drop_first();
            assert(t[t.len() - 1] == c);
        } else {
            assert(e[e.len() - 1] == c);
        }
    }
    if '0' <= c <= '9' && spec_parse_u32(d) is Some {
        if d.len() > 1 && d[0] == '+' {
            let t = d.drop_first();
            assert(e.drop_first() =~= t.push(c));
            assert(t.push(c).drop_last() =~= t);
            assert(t.push(c).last() == c);
            assert(decimal_value(t.push(c)) == decimal_value(t) * 10 + digit_value(c));
            assert(('0' as int) == 48);
            assert(e.len() > 1 && e[0] == '+');
            let n = spec_parse_u32(d)->0;
            lemma_decimal_value_nonneg(t);
            assert(n == decimal_value(t));
            if n * 10 + (c as int - 48) <= u32::MAX {
                assert(spec_parse_u32(e) == Some((n * 10 + (c as int - 48)) as u32));
            }
            assert(all_digits(t.push(c))) by {
                assert forall|i: int| 0 <= i < t.push(c).len() implies is_ascii_digit(#[trigger] t.push(c)[i]) by {
                    if i < t.len() {
                        assert(t.push(c)[i] == t[i]);
                    }
                }
            }
        } else {
            assert(e.drop_last() =~= d);
            assert(decimal_value(e) == decimal_value(d) * 10 + digit_value(c));
            assert(('0' as int) == 48);
            assert(d.len() > 0);
            assert(d[0] != '+') by {
                if d.len() == 1 {
                    assert(is_ascii_digit(d[0]));
                }
            }
            assert(e[0] == d[0]);
            assert(all_digits(e)) by {
                assert forall|i: int| 0 <= i < e.len() implies is_ascii_digit(#[trigger] e[i]) by {
                    if i < d.len() {
                        assert(e[i] == d[i]);
                    }
                }
            }
            let n = spec_parse_u32(d)->0;
            lemma_decimal_value_nonneg(d);
            assert(n == decimal_value(d));
            if n * 10 + (c as int - 48) <= u32::MAX {
                assert(spec_parse_u32(e) == Some((n * 10 + (c as int - 48)) as u32));
            }
        }
    }
}

} // verus!
