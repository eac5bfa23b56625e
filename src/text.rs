use vstd::prelude::*;

verus! {

/// The three characters that replace the cut-off tail of a long name.
pub open spec fn ellipsis() -> Seq<char> {
    seq!['.', '.', '.']
}

/// What `truncate` yields: a text longer than a non-negative `max` keeps its
/// first `max - 3` characters followed by an ellipsis; any other text is kept.
pub open spec fn truncated(s: Seq<char>, max: int) -> Seq<char> {
    if 0 <= max < s.len() {
        s.take(max - 3) + ellipsis()
    } else {
        s
    }
}

/// Shortens `input` to at most `max` characters, ending a shortened text with
/// "...". A negative `max` sets no limit.
pub fn truncate(input: &str, max: i32) -> (r: String)
    requires
        max < 0 || input@.len() <= max || max >= 3,
    ensures
        r@ == truncated(input@, max as int),
{
    let len = input.unicode_len();
    if max >= 0 && len > max as usize {
        let keep = (max - 3) as usize;
        let mut r = String::from_str(input.substring_char(0, keep));
        r.append("...");
        proof {
            reveal_strlit("...");
            assert(r@ =~= truncated(input@, max as int));
        }
        r
    } else {
        String::from_str(input)
    }
}

/// A text at the limit is kept, and a text one character over it is cut to
/// exactly the limit, its last three characters being the ellipsis.
pub proof fn truncation_at_limit(s: Seq<char>, max: int)
    requires
        3 <= max,
    ensures
        s.len() == max ==> truncated(s, max) == s,
        s.len() == max + 1 ==> {
            &&& truncated(s, max).len() == max
            &&& truncated(s, max) == s.take(max - 3) + ellipsis()
            &&& truncated(s, max).skip(max - 3) == ellipsis()
        },
{
    if s.len() == max + 1 {
        assert(truncated(s, max).skip(max - 3) =~= ellipsis());
    }
}


/// The decimal digit character for `d`.
pub open spec fn digit_char(d: int) -> char {
    (d + '0' as int) as char
}

/// Decimal digits of a natural number, without leading zeros.
pub open spec fn nat_digits(n: nat) -> Seq<char>
    decreases n,
{
    if n < 10 {
        seq![digit_char(n as int)]
    } else {
        nat_digits(n / 10).push(digit_char((n % 10) as int))
    }
}

/// Decimal form of an integer, with a leading '-' when it is negative.
pub open spec fn decimal(n: int) -> Seq<char> {
    if n < 0 {
        seq!['-'] + nat_digits((-n) as nat)
    } else {
        nat_digits(n as nat)
    }
}

fn digit_str(d: u32) -> (r: &'static str)
    requires
        d < 10,
    ensures
        r@ == seq![digit_char(d as int)],
{
    proof {
        reveal_strlit("0");
        reveal_strlit("1");
        reveal_strlit("2");
        reveal_strlit("3");
        reveal_strlit("4");
        reveal_strlit("5");
        reveal_strlit("6");
        reveal_strlit("7");
        reveal_strlit("8");
        reveal_strlit("9");
    }
    let r = if d == 0 {
        "0"
    } else if d == 1 {
        "1"
    } else if d == 2 {
        "2"
    } else if d == 3 {
        "3"
    } else if d == 4 {
        "4"
    } else if d == 5 {
        "5"
    } else if d == 6 {
        "6"
    } else if d == 7 {
        "7"
    } else if d == 8 {
        "8"
    } else {
        "9"
    };
    assert(r@ =~= seq![digit_char(d as int)]);
    r
}

fn nat_decimal(n: u32) -> (r: String)
    ensures
        r@ == nat_digits(n as nat),
    decreases n,
{
    if n < 10 {
        String::from_str(digit_str(n))
    } else {
        let mut r = nat_decimal(n / 10);
        r.append(digit_str(n % 10));
        r
    }
}

/// Renders `n` in decimal.
pub fn decimal_of(n: i32) -> (r: String)
    ensures
        r@ == decimal(n as int),
{
    if n < 0 {
        let m: u32 = (-(n as i64)) as u32;
        let digits = nat_decimal(m);
        let mut r = String::from_str("-");
        r.append(digits.as_str());
        proof {
            reveal_strlit("-");
        }
        assert(r@ =~= decimal(n as int));
        r
    } else {
        nat_decimal(n as u32)
    }
}

/// `n` spaces.
pub open spec fn spaces(n: nat) -> Seq<char> {
    Seq::new(n, |i: int| ' ')
}

/// `s` preceded by spaces up to `width` characters.
pub open spec fn padded_left(s: Seq<char>, width: nat) -> Seq<char> {
    if s.len() < width {
        spaces((width - s.len()) as nat) + s
    } else {
        s
    }
}

/// `s` followed by spaces up to `width` characters.
pub open spec fn padded_right(s: Seq<char>, width: nat) -> Seq<char> {
    if s.len() < width {
        s + spaces((width - s.len()) as nat)
    } else {
        s
    }
}

fn spaces_of(n: usize) -> (r: String)
    ensures
        r@ == spaces(n as nat),
{
    let mut r = String::new();
    let mut i: usize = 0;
    while i < n
        invariant
            i <= n,
            r@ == spaces(i as nat),
        decreases n - i,
    {
        proof {
            reveal_strlit(" ");
        }
        r.append(" ");
        i = i + 1;
        assert(r@ =~= spaces(i as nat));
    }
    r
}

/// Right-aligns `s` in a field of `width` characters.
pub fn pad_left(s: &str, width: usize) -> (r: String)
    ensures
        r@ == padded_left(s@, width as nat),
{
    let len = s.unicode_len();
    if len < width {
        let mut r = spaces_of(width - len);
        r.append(s);
        r
    } else {
        String::from_str(s)
    }
}

/// Left-aligns `s` in a field of `width` characters.
pub fn pad_right(s: &str, width: usize) -> (r: String)
    ensures
        r@ == padded_right(s@, width as nat),
{
    let len = s.unicode_len();
    let mut r = String::from_str(s);
    if len < width {
        let fill = spaces_of(width - len);
        r.append(fill.as_str());
    }
    r
}

/// The words of `ws` joined by single spaces.
pub open spec fn joined(ws: Seq<Seq<char>>) -> Seq<char>
    decreases ws.len(),
{
    if ws.len() == 0 {
        Seq::empty()
    } else if ws.len() == 1 {
        ws[0]
    } else {
        joined(ws.drop_last()) + seq![' '] + ws.last()
    }
}

/// The views of the strings of `v`.
pub open spec fn views(v: Seq<String>) -> Seq<Seq<char>> {
    v.map_values(|s: String| s@)
}

/// Joins `words[from..]` with single spaces.
pub fn join_from(words: &Vec<String>, from: usize) -> (r: String)
    requires
        from <= words.len(),
    ensures
        r@ == joined(views(words@).skip(from as int)),
{
    let mut r = String::new();
    if from == words.len() {
        assert(views(words@).skip(from as int) =~= Seq::<Seq<char>>::empty());
        return r;
    }
    let mut i: usize = from;
    while i < words.len()
        invariant
            from <= i <= words.len(),
            from < words.len(),
            r@ == joined(views(words@).subrange(from as int, i as int)),
        decreases words.len() - i,
    {
        let ghost prev = views(words@).subrange(from as int, i as int);
        let ghost next = views(words@).subrange(from as int, i + 1);
        assert(next.drop_last() =~= prev);
        assert(next.last() == words@[i as int]@);
        if i > from {
            proof {
                reveal_strlit(" ");
            }
            r.append(" ");
        } else {
            assert(prev.len() == 0);
            assert(r@ =~= Seq::<char>::empty());
        }
        r.append(words[i].as_str());
        i = i + 1;
        assert(r@ =~= joined(next));
    }
    assert(views(words@).subrange(from as int, words.len() as int) =~= views(words@).skip(
        from as int,
    ));
    r
}


pub open spec fn is_digit(c: char) -> bool {
    '0' <= c <= '9'
}

pub open spec fn all_digits(s: Seq<char>) -> bool {
    forall|i: int| 0 <= i < s.len() ==> is_digit(#[trigger] s[i])
}

/// The number that a string of decimal digits denotes.
pub open spec fn digits_value(s: Seq<char>) -> int
    decreases s.len(),
{
    if s.len() == 0 {
        0
    } else {
        digits_value(s.drop_last()) * 10 + (s.last() as int - '0' as int)
    }
}

/// The part of `s` after an optional leading sign.
pub open spec fn unsigned_part(s: Seq<char>) -> Seq<char> {
    if s.len() > 0 && (s[0] == '-' || s[0] == '+') {
        s.drop_first()
    } else {
        s
    }
}

/// The integer that `s` spells: an optional '+' or '-', then one or more
/// decimal digits and nothing else.
pub open spec fn integer_of(s: Seq<char>) -> Option<int> {
    let body = unsigned_part(s);
    if body.len() == 0 || !all_digits(body) {
        None
    } else if s[0] == '-' {
        Some(-digits_value(body))
    } else {
        Some(digits_value(body))
    }
}

/// The `i32` that `s` spells, if it spells one within range.
pub open spec fn i32_of(s: Seq<char>) -> Option<i32> {
    match integer_of(s) {
        Some(v) => if i32::MIN <= v <= i32::MAX {
            Some(v as i32)
        } else {
            None
        },
        None => None,
    }
}

proof fn digits_value_grows(s: Seq<char>, k: int)
    requires
        all_digits(s),
        0 <= k <= s.len(),
    ensures
        0 <= digits_value(s.take(k)) <= digits_value(s),
    decreases s.len(),
{
    if s.len() > 0 {
        let t = s.drop_last();
        assert(all_digits(t));
        if k < s.len() {
            assert(t.take(k) =~= s.take(k));
            digits_value_grows(t, k);
        } else {
            assert(s.take(k) =~= s);
            digits_value_grows(t, 0);
            assert(t.take(0) =~= Seq::<char>::empty());
        }
    } else {
        assert(s.take(k) =~= s);
    }
}

/// Reads a task id: an optional sign and decimal digits forming an `i32`.
pub fn parse_i32(s: &str) -> (r: Option<i32>)
    ensures
        r == i32_of(s@),
{
    let len = s.unicode_len();
    if len == 0 {
        return None;
    }
    let first = s.get_char(0);
    let neg = first == '-';
    let start: usize = if first == '-' || first == '+' { 1 } else { 0 };
    let ghost body = unsigned_part(s@);
    assert(body =~= s@.skip(start as int));
    if start == len {
        return None;
    }
    let mut acc: i64 = 0;
    let mut i: usize = start;
    while i < len
        invariant
            start <= i <= len,
            len == s@.len(),
            body == s@.skip(start as int),
            body == unsigned_part(s@),
            body.len() > 0,
            neg == (s@[0] == '-'),
            all_digits(body.take(i - start)),
            acc == digits_value(body.take(i - start)),
            0 <= acc <= 0x8000_0000,
        decreases len - i,
    {
        let c = s.get_char(i);
        let ghost prev = body.take(i - start);
        let ghost next = body.take(i + 1 - start);
        assert(next.drop_last() =~= prev);
        assert(next.last() == c);
        if !('0' <= c && c <= '9') {
            assert(body[i - start] == c);
            assert(!all_digits(body));
            return None;
        }
        acc = acc * 10 + (c as u32 - '0' as u32) as i64;
        i = i + 1;
        if acc > 0x8000_0000 {
            proof {
                if all_digits(body) {
                    digits_value_grows(body, i - start);
                }
                assert(i32_of(s@) is None);
            }
            return None;
        }
    }
    assert(body.take(len - start) =~= body);
    if neg {
        Some((-acc) as i32)
    } else if acc <= 0x7fff_ffff {
        Some(acc as i32)
    } else {
        None
    }
}

} // verus!
