use vstd::prelude::*;
use vstd::string::*;

verus! {

/// Appends one character to a string (`String::push`).
#[verifier::external_body]
pub(crate) fn push_char(s: &mut String, c: char)
    ensures
        final(s)@ == old(s)@.push(c),
{
    s.push(c);
}

/// The characters of a string slice, in order.
pub fn chars_of(s: &str) -> (v: Vec<char>)
    ensures
        v@ == s@,
{
    let mut v: Vec<char> = Vec::new();
    for c in it: s.chars()
        invariant
            it.seq() == s@,
            v@ == it.seq().take(it.index() as int),
    {
        v.push(c);
    }
    v
}


/// Unicode `White_Space`, the set that `char::is_whitespace` and `str::trim` use.
pub open spec fn is_white_space(c: char) -> bool {
    let u = c as u32;
    ||| 0x9 <= u <= 0xd
    ||| u == 0x20
    ||| u == 0x85
    ||| u == 0xa0
    ||| u == 0x1680
    ||| 0x2000 <= u <= 0x200a
    ||| u == 0x2028
    ||| u == 0x2029
    ||| u == 0x202f
    ||| u == 0x205f
    ||| u == 0x3000
}

/// A text is blank when every character in it is white space (the empty text included).
pub open spec fn is_blank(s: Seq<char>) -> bool {
    forall|i: int| 0 <= i < s.len() ==> is_white_space(#[trigger] s[i])
}

/// The text without its leading white space.
pub open spec fn trim_start(s: Seq<char>) -> Seq<char>
    decreases s.len(),
{
    if s.len() > 0 && is_white_space(s[0]) {
        trim_start(s.drop_first())
    } else {
        s
    }
}

/// The text without its trailing white space.
pub open spec fn trim_end(s: Seq<char>) -> Seq<char>
    decreases s.len(),
{
    if s.len() > 0 && is_white_space(s.last()) {
        trim_end(s.drop_last())
    } else {
        s
    }
}

/// The text without white space at either end (`str::trim`).
pub open spec fn trim(s: Seq<char>) -> Seq<char> {
    trim_end(trim_start(s))
}

/// The text up to, and not including, its first line feed; the whole text when it has none.
pub open spec fn first_line(s: Seq<char>) -> Seq<char>
    decreases s.len(),
{
    if s.len() == 0 || s[0] == '\n' {
        Seq::empty()
    } else {
        seq![s[0]] + first_line(s.drop_first())
    }
}

/// The decimal digit for a value below ten.
pub open spec fn decimal_digit(d: nat) -> char {
    ((48 + d) as u8) as char
}

/// The decimal notation of a natural number, without leading zeros.
pub open spec fn decimal(n: nat) -> Seq<char>
    decreases n,
{
    if n < 10 {
        seq![decimal_digit(n)]
    } else {
        decimal(n / 10).push(decimal_digit(n % 10))
    }
}

/// How `{:?}` writes an `Option<u32>`.
pub open spec fn debug_option_u32(v: Option<u32>) -> Seq<char> {
    match v {
        Some(n) => "Some("@ + decimal(n as nat) + ")"@,
        None => "None"@,
    }
}

/// Whether a text is blank, i.e. `trim()` of it is empty.
pub fn is_blank_str(s: &str) -> (blank: bool)
    ensures
        blank == is_blank(s@),
{
    let v = chars_of(s);
    let mut i: usize = 0;
    while i < v.len()
        invariant
            v@ == s@,
            i <= v@.len(),
            forall|j: int| 0 <= j < i ==> is_white_space(#[trigger] v@[j]),
        decreases v@.len() - i,
    {
        if !is_white_space_exec(v[i]) {
            return false;
        }
        i = i + 1;
    }
    true
}

/// `char::is_whitespace`.
pub fn is_white_space_exec(c: char) -> (ws: bool)
    ensures
        ws == is_white_space(c),
{
    let u = c as u32;
    (0x9 <= u && u <= 0xd) || u == 0x20 || u == 0x85 || u == 0xa0 || u == 0x1680 || (0x2000 <= u
        && u <= 0x200a) || u == 0x2028 || u == 0x2029 || u == 0x202f || u == 0x205f || u == 0x3000
}

/// The characters `v[from..to]` as a new string.
pub fn string_of_range(v: &Vec<char>, from: usize, to: usize) -> (s: String)
    requires
        from <= to <= v@.len(),
    ensures
        s@ == v@.subrange(from as int, to as int),
{
    let mut s = String::new();
    let mut k = from;
    while k < to
        invariant
            from <= k <= to <= v@.len(),
            s@ == v@.subrange(from as int, k as int),
        decreases to - k,
    {
        push_char(&mut s, v[k]);
        proof {
            assert(v@.subrange(from as int, k + 1) =~= v@.subrange(from as int, k as int).push(
                v@[k as int],
            ));
        }
        k = k + 1;
    }
    s
}

/// `s.trim()` as a new string.
pub fn trimmed(s: &Vec<char>) -> (t: String)
    ensures
        t@ == trim(s@),
{
    let n = s.len();
    let mut i: usize = 0;
    assert(s@.subrange(0, n as int) =~= s@);
    while i < n && is_white_space_exec(s[i])
        invariant
            n == s@.len(),
            i <= n,
            trim_start(s@) == trim_start(s@.subrange(i as int, n as int)),
        decreases n - i,
    {
        proof {
            assert(s@.subrange(i as int, n as int).drop_first() =~= s@.subrange(i + 1, n as int));
        }
        i = i + 1;
    }
    let ghost rest = s@.subrange(i as int, n as int);
    assert(trim_start(rest) == rest);
    let mut j: usize = n;
    while j > i && is_white_space_exec(s[j - 1])
        invariant
            n == s@.len(),
            i <= j <= n,
            trim_end(rest) == trim_end(s@.subrange(i as int, j as int)),
            rest == s@.subrange(i as int, n as int),
        decreases j - i,
    {
        proof {
            assert(s@.subrange(i as int, j as int).drop_last() =~= s@.subrange(i as int, j - 1));
        }
        j = j - 1;
    }
    assert(trim_end(s@.subrange(i as int, j as int)) == s@.subrange(i as int, j as int));
    string_of_range(s, i, j)
}

/// The characters before the first line feed.
pub fn first_line_chars(s: &Vec<char>) -> (line: Vec<char>)
    ensures
        line@ == first_line(s@),
{
    let n = s.len();
    let mut line: Vec<char> = Vec::new();
    let mut i: usize = 0;
    assert(s@.subrange(0, n as int) =~= s@);
    assert(line@ + s@ =~= s@);
    while i < n && s[i] != '\n'
        invariant
            n == s@.len(),
            i <= n,
            first_line(s@) == line@ + first_line(s@.subrange(i as int, n as int)),
        decreases n - i,
    {
        proof {
            let sub = s@.subrange(i as int, n as int);
            assert(sub.drop_first() =~= s@.subrange(i + 1, n as int));
            assert(line@ + first_line(sub) =~= line@.push(s@[i as int]) + first_line(
                s@.subrange(i + 1, n as int),
            ));
        }
        line.push(s[i]);
        i = i + 1;
    }
    proof {
        assert(first_line(s@.subrange(i as int, n as int)) =~= Seq::<char>::empty());
        assert(line@ + Seq::<char>::empty() =~= line@);
    }
    line
}

/// Appends the decimal notation of `n`.
pub fn push_decimal(s: &mut String, n: u64)
    ensures
        final(s)@ == old(s)@ + decimal(n as nat),
{
    let mut suffix: Vec<char> = Vec::new();
    let mut m = n;
    while m >= 10
        invariant
            decimal(n as nat) == decimal(m as nat) + suffix@,
        decreases m,
    {
        let d = (48 + m % 10) as u8;
        proof {
            assert(decimal(m as nat) == decimal((m / 10) as nat).push(decimal_digit((m % 10) as nat)));
            assert(decimal((m / 10) as nat).push(decimal_digit((m % 10) as nat)) + suffix@
                =~= decimal((m / 10) as nat) + seq![d as char] + suffix@);
        }
        let ghost prev = suffix@;
        suffix.insert(0, d as char);
        assert(seq![d as char] + prev =~= suffix@);
        m = m / 10;
    }
    let ghost prev = suffix@;
    suffix.insert(0, (48 + m) as u8 as char);
    assert(seq![decimal_digit(m as nat)] + prev =~= suffix@);
    let mut k: usize = 0;
    let ghost start = s@;
    while k < suffix.len()
        invariant
            s@ == start + suffix@.take(k as int),
            k <= suffix@.len(),
            decimal(n as nat) == suffix@,
        decreases suffix@.len() - k,
    {
        push_char(s, suffix[k]);
        proof {
            assert(suffix@.take(k + 1) =~= suffix@.take(k as int).push(suffix@[k as int]));
        }
        k = k + 1;
    }
    assert(suffix@.take(k as int) =~= suffix@);
}

/// The number a string of decimal digits spells.
pub open spec fn digits_value(s: Seq<char>) -> int
    decreases s.len(),
{
    if s.len() == 0 {
        0
    } else {
        digits_value(s.drop_last()) * 10 + (s.last() as int - 0x30)
    }
}

/// The decimal notation of `n` is made of the digits `0`-`9`, spells `n`, and starts with a
/// zero only when it is `0` itself.
pub proof fn law_decimal_spells_the_number(n: nat)
    ensures
        forall|i: int| 0 <= i < decimal(n).len() ==> '0' <= #[trigger] decimal(n)[i] <= '9',
        digits_value(decimal(n)) == n,
        decimal(n).len() >= 1,
        decimal(n)[0] == '0' ==> n == 0,
    decreases n,
{
    if n >= 10 {
        law_decimal_spells_the_number(n / 10);
        let d = decimal(n / 10);
        let r = decimal(n);
        assert(r == d.push(decimal_digit(n % 10)));
        assert(r.drop_last() =~= d);
        assert(decimal_digit(n % 10) as int == 0x30 + n % 10) by {
            assert((48 + n % 10) < 256);
        }
        assert forall|i: int| 0 <= i < r.len() implies '0' <= #[trigger] r[i] <= '9' by {
            if i < d.len() {
                assert(r[i] == d[i]);
            }
        }
        assert(r[0] == d[0]);
        assert(r.last() == decimal_digit(n % 10));
        assert(digits_value(r) == digits_value(d) * 10 + (n % 10));
        assert((n / 10) * 10 + n % 10 == n);
    } else {
        assert(decimal_digit(n) as int == 0x30 + n) by {
            assert((48 + n) < 256);
        }
        assert(decimal(n).drop_last() =~= Seq::<char>::empty());
        assert(digits_value(decimal(n)) == digits_value(Seq::<char>::empty()) * 10 + (decimal(n).last() as int - 0x30));
    }
}

} // verus!
