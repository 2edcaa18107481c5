//! Character-level helpers: text comparison, the decimal grammar of a Steam ID,
//! and the line grammar of the provider's check_authentication reply.
use vstd::prelude::*;

verus! {

/// Whether `t` occurs in `s` starting at position `i`.
pub open spec fn occurs_at(s: Seq<char>, i: int, t: Seq<char>) -> bool {
    0 <= i && i + t.len() <= s.len() && s.subrange(i, i + t.len()) == t
}

/// Tells whether `t` occurs in `s` at position `i`.
fn text_at(s: &str, i: usize, t: &str) -> (r: bool)
    ensures
        r == occurs_at(s@, i as int, t@),
{
    let n = s.unicode_len();
    let m = t.unicode_len();
    if i > n || m > n - i {
        return false;
    }
    let mut j: usize = 0;
    while j < m
        invariant
            n == s@.len(),
            m == t@.len(),
            i + m <= n,
            j <= m,
            forall|k: int| 0 <= k < j ==> s@[i + k] == t@[k],
        decreases m - j,
    {
        if s.get_char(i + j) != t.get_char(j) {
            assert(s@.subrange(i as int, i + m)[j as int] != t@[j as int]);
            return false;
        }
        j += 1;
    }
    assert(s@.subrange(i as int, i + m) =~= t@);
    true
}

/// Tells whether two strings hold the same characters.
pub fn same_text(a: &str, b: &str) -> (r: bool)
    ensures
        r == (a@ == b@),
{
    let r = a.unicode_len() == b.unicode_len() && text_at(a, 0, b);
    proof {
        if r {
            assert(a@ =~= a@.subrange(0, b@.len() as int));
        }
        if a@ == b@ {
            assert(a@.subrange(0, b@.len() as int) =~= b@);
        }
    }
    r
}

/// Whether `c` is an ASCII decimal digit.
pub open spec fn is_digit(c: char) -> bool {
    '0' as u32 <= c as u32 && c as u32 <= '9' as u32
}

/// The number that a sequence of decimal digits denotes, most significant first.
pub open spec fn digits_value(d: Seq<char>) -> nat
    decreases d.len(),
{
    if d.len() == 0 {
        0
    } else {
        digits_value(d.drop_last()) * 10 + (d.last() as u32 - '0' as u32) as nat
    }
}

/// The digits of an unsigned decimal numeral, without the optional leading `+`.
pub open spec fn unsigned_digits(s: Seq<char>) -> Seq<char> {
    if s.len() > 0 && s[0] == '+' {
        s.drop_first()
    } else {
        s
    }
}

/// The value of `s` read as an unsigned decimal numeral that fits in 64 bits:
/// an optional `+`, then one or more ASCII digits.
pub open spec fn u64_of(s: Seq<char>) -> Option<u64> {
    let d = unsigned_digits(s);
    if d.len() > 0 && (forall|k: int| 0 <= k < d.len() ==> is_digit(#[trigger] d[k]))
        && digits_value(d) <= u64::MAX {
        Some(digits_value(d) as u64)
    } else {
        None
    }
}

/// A numeral never denotes less than any of its prefixes.
proof fn lemma_prefix_value_le(d: Seq<char>, j: int)
    requires
        0 <= j <= d.len(),
        forall|k: int| 0 <= k < d.len() ==> is_digit(#[trigger] d[k]),
    ensures
        digits_value(d.subrange(0, j)) <= digits_value(d),
    decreases d.len(),
{
    if j < d.len() {
        let p = d.drop_last();
        assert(p.subrange(0, j) =~= d.subrange(0, j));
        assert forall|k: int| 0 <= k < p.len() implies is_digit(#[trigger] p[k]) by {
            assert(p[k] == d[k]);
        }
        lemma_prefix_value_le(p, j);
    } else {
        assert(d.subrange(0, j) =~= d);
    }
}

/// Reads a Steam ID: an unsigned decimal numeral that fits in 64 bits, as
/// `str::parse::<u64>` accepts it.
pub fn parse_u64(s: &str) -> (r: Option<u64>)
    ensures
        r == u64_of(s@),
{
    let n = s.unicode_len();
    let mut start: usize = 0;
    if n > 0 && s.get_char(0) == '+' {
        start = 1;
    }
    let ghost d = unsigned_digits(s@);
    assert(d =~= s@.subrange(start as int, n as int));
    if start == n {
        return None;
    }
    let mut v: u64 = 0;
    let mut i: usize = start;
    while i < n
        invariant
            n == s@.len(),
            start <= i <= n,
            d == s@.subrange(start as int, n as int),
            d == unsigned_digits(s@),
            v as nat == digits_value(d.subrange(0, i - start)),
            forall|k: int| 0 <= k < i - start ==> is_digit(#[trigger] d[k]),
        decreases n - i,
    {
        let c = s.get_char(i);
        if !('0' as u32 <= c as u32 && c as u32 <= '9' as u32) {
            assert(!is_digit(d[i - start]));
            return None;
        }
        let digit = (c as u32 - '0' as u32) as u64;
        let ghost next = d.subrange(0, i + 1 - start);
        assert(next.drop_last() =~= d.subrange(0, i - start));
        assert(digits_value(next) == v * 10 + digit);
        let m = v.checked_mul(10);
        let x = match m {
            Some(m) => m.checked_add(digit),
            None => None,
        };
        match x {
            Some(x) => {
                v = x;
            },
            None => {
                proof {
                    assert(digits_value(next) > u64::MAX) by (nonlinear_arith)
                        requires
                            digits_value(next) == v * 10 + digit,
                            v * 10 > u64::MAX || v * 10 + digit > u64::MAX,
                    ;
                    if forall|k: int| 0 <= k < d.len() ==> is_digit(#[trigger] d[k]) {
                        lemma_prefix_value_le(d, i + 1 - start);
                    }
                }
                return None;
            },
        }
        i += 1;
    }
    assert(d.subrange(0, n - start) =~= d);
    Some(v)
}

/// The line of a check_authentication reply that confirms an assertion. Split at
/// its first `:`, it has the key `is_valid` and the value `true`; as the key holds
/// no `:`, that is the case of this line and no other.
pub open spec fn valid_line() -> Seq<char> {
    seq!['i', 's', '_', 'v', 'a', 'l', 'i', 'd', ':', 't', 'r', 'u', 'e']
}

/// Whether a line of `s` starts at position `i`.
pub open spec fn line_starts(s: Seq<char>, i: int) -> bool {
    i == 0 || (0 < i <= s.len() && s[i - 1] == '\n')
}

/// Whether a line of `s` ends at position `j`.
pub open spec fn line_ends(s: Seq<char>, j: int) -> bool {
    j == s.len() || (0 <= j < s.len() && s[j] == '\n')
}

/// Whether the reply `s`, taken as `\n`-separated `key:value` lines, has a line
/// whose key is `is_valid` and whose value is `true`.
pub open spec fn confirms(s: Seq<char>) -> bool {
    exists|i: int|
        #[trigger] occurs_at(s, i, valid_line()) && line_starts(s, i) && line_ends(
            s,
            i + valid_line().len(),
        )
}

/// The confirming line holds no line break.
proof fn lemma_valid_line_unbroken()
    ensures
        valid_line().len() == 13,
        forall|k: int| 0 <= k < valid_line().len() ==> #[trigger] valid_line()[k] != '\n',
{
}

/// A reply made of two parts on separate lines confirms exactly when one of the
/// parts does: where a line stands in a reply does not matter.
pub proof fn lemma_confirms_split(a: Seq<char>, b: Seq<char>)
    ensures
        confirms(a + seq!['\n'] + b) == (confirms(a) || confirms(b)),
{
    lemma_valid_line_unbroken();
    let s = a + seq!['\n'] + b;
    let n = a.len() as int;
    let l = valid_line().len() as int;
    assert(s.len() == n + 1 + b.len());
    assert forall|k: int| 0 <= k < n implies s[k] == a[k] by {}
    assert(s[n] == '\n');
    assert forall|k: int| 0 <= k < b.len() implies s[n + 1 + k] == b[k] by {}
    if confirms(a) {
        let i = choose|i: int|
            #[trigger] occurs_at(a, i, valid_line()) && line_starts(a, i) && line_ends(a, i + l);
        assert(s.subrange(i, i + l) =~= a.subrange(i, i + l));
        assert(occurs_at(s, i, valid_line()) && line_starts(s, i) && line_ends(s, i + l));
    }
    if confirms(b) {
        let i = choose|i: int|
            #[trigger] occurs_at(b, i, valid_line()) && line_starts(b, i) && line_ends(b, i + l);
        assert(s.subrange(n + 1 + i, n + 1 + i + l) =~= b.subrange(i, i + l));
        assert(occurs_at(s, n + 1 + i, valid_line()) && line_starts(s, n + 1 + i) && line_ends(
            s,
            n + 1 + i + l,
        ));
    }
    if confirms(s) {
        let i = choose|i: int|
            #[trigger] occurs_at(s, i, valid_line()) && line_starts(s, i) && line_ends(s, i + l);
        if i + l <= n {
            assert(a.subrange(i, i + l) =~= s.subrange(i, i + l));
            assert(occurs_at(a, i, valid_line()) && line_starts(a, i) && line_ends(a, i + l));
        } else if i > n {
            let j = i - n - 1;
            assert(b.subrange(j, j + l) =~= s.subrange(i, i + l));
            assert(occurs_at(b, j, valid_line()) && line_starts(b, j) && line_ends(b, j + l));
        } else {
            assert(s.subrange(i, i + l)[n - i] == s[n]);
            assert(false);
        }
    }
}

/// Swapping two lines of a reply does not change whether it confirms.
pub proof fn lemma_confirms_order(a: Seq<char>, b: Seq<char>)
    ensures
        confirms(a + seq!['\n'] + b) == confirms(b + seq!['\n'] + a),
{
    lemma_confirms_split(a, b);
    lemma_confirms_split(b, a);
}

/// The text of `lines`, joined with line breaks.
pub open spec fn join_lines(lines: Seq<Seq<char>>) -> Seq<char>
    decreases lines.len(),
{
    if lines.len() == 0 {
        seq![]
    } else if lines.len() == 1 {
        lines[0]
    } else {
        join_lines(lines.drop_last()) + seq!['\n'] + lines.last()
    }
}

/// A text without line breaks confirms exactly when it is the confirming line.
proof fn lemma_confirms_one_line(l: Seq<char>)
    requires
        forall|k: int| 0 <= k < l.len() ==> l[k] != '\n',
    ensures
        confirms(l) == (l == valid_line()),
{
    lemma_valid_line_unbroken();
    if confirms(l) {
        let i = choose|i: int|
            #[trigger] occurs_at(l, i, valid_line()) && line_starts(l, i) && line_ends(l, i + 13);
        assert(i == 0);
        assert(l.len() == 13);
        assert(l =~= l.subrange(0, 13));
    }
    if l == valid_line() {
        assert(l.subrange(0, 13) =~= l);
        assert(occurs_at(l, 0, valid_line()) && line_starts(l, 0) && line_ends(l, 13));
    }
}

/// A reply made of lines confirms exactly when one of its lines is the confirming
/// line: the order of the lines, and blank lines among them, do not matter.
pub proof fn lemma_confirms_lines(lines: Seq<Seq<char>>)
    requires
        forall|i: int, k: int|
            0 <= i < lines.len() && 0 <= k < lines[i].len() ==> #[trigger] lines[i][k] != '\n',
    ensures
        confirms(join_lines(lines)) == lines.contains(valid_line()),
    decreases lines.len(),
{
    if lines.len() == 0 {
        assert(!lines.contains(valid_line()));
    } else if lines.len() == 1 {
        lemma_confirms_one_line(lines[0]);
        if lines.contains(valid_line()) {
            let j = choose|j: int| 0 <= j < lines.len() && lines[j] == valid_line();
            assert(j == 0);
        }
        if lines[0] == valid_line() {
            assert(lines.contains(valid_line()));
        }
    } else {
        let init = lines.drop_last();
        let last = lines.last();
        assert forall|i: int, k: int| 0 <= i < init.len() && 0 <= k < init[i].len() implies #[trigger] init[i][k]
            != '\n' by {
            assert(init[i] == lines[i]);
        }
        assert forall|k: int| 0 <= k < last.len() implies last[k] != '\n' by {
            assert(lines[lines.len() - 1][k] == last[k]);
        }
        lemma_confirms_lines(init);
        lemma_confirms_split(join_lines(init), last);
        lemma_confirms_one_line(last);
        if lines.contains(valid_line()) {
            let j = choose|j: int| 0 <= j < lines.len() && lines[j] == valid_line();
            if j < init.len() {
                assert(init[j] == valid_line());
                assert(init.contains(valid_line()));
            }
        }
        if init.contains(valid_line()) {
            let j = choose|j: int| 0 <= j < init.len() && init[j] == valid_line();
            assert(lines[j] == valid_line());
        }
        if last == valid_line() {
            assert(lines[lines.len() - 1] == valid_line());
        }
    }
}

/// Tells whether a check_authentication reply confirms the assertion.
pub fn reply_confirms(body: &str) -> (r: bool)
    ensures
        r == confirms(body@),
{
    let key = "is_valid:true";
    proof {
        reveal_strlit("is_valid:true");
        assert(key@ =~= valid_line());
    }
    let n = body.unicode_len();
    let m = key.unicode_len();
    if n < m {
        return false;
    }
    let mut i: usize = 0;
    while i <= n - m
        invariant
            m <= n,
            i <= n - m + 1,
            n == body@.len(),
            m == valid_line().len(),
            key@ == valid_line(),
            forall|k: int|
                0 <= k < i ==> !(#[trigger] occurs_at(body@, k, valid_line()) && line_starts(
                    body@,
                    k,
                ) && line_ends(body@, k + m)),
        decreases n - m + 1 - i,
    {
        if text_at(body, i, key) {
            let starts = i == 0 || body.get_char(i - 1) == '\n';
            let ends = i + m == n || body.get_char(i + m) == '\n';
            if starts && ends {
                return true;
            }
        }
        i += 1;
    }
    proof {
        assert forall|k: int| #[trigger] occurs_at(body@, k, valid_line()) implies !(line_starts(
            body@,
            k,
        ) && line_ends(body@, k + m)) by {
            assert(k + m <= n);
            assert(k < i);
        }
    }
    false
}

} // verus!
