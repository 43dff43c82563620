//! Text helpers: the lexicographic order of strings (the order of Rust's
//! `String`, which is the order of their code points) and comparisons on `&str`.
use vstd::prelude::*;

verus! {

/// The first `k` characters of `a` and `b` agree.
pub open spec fn common_prefix(a: Seq<char>, b: Seq<char>, k: int) -> bool {
    &&& 0 <= k <= a.len()
    &&& k <= b.len()
    &&& forall|j: int| 0 <= j < k ==> a[j] == b[j]
}

/// `a` comes strictly before `b` in lexicographic order.
pub open spec fn seq_lt(a: Seq<char>, b: Seq<char>) -> bool {
    exists|k: int|
        #[trigger] common_prefix(a, b, k) && k < b.len() && (k == a.len() || a[k]
            < b[k])
}

proof fn lemma_first_difference(a: Seq<char>, b: Seq<char>, i: int) -> (k: int)
    requires
        common_prefix(a, b, i),
    ensures
        common_prefix(a, b, k),
        i <= k,
        k == a.len() || k == b.len() || a[k] != b[k],
    decreases a.len() - i,
{
    if i == a.len() || i == b.len() || a[i] != b[i] {
        i
    } else {
        assert(common_prefix(a, b, i + 1));
        lemma_first_difference(a, b, i + 1)
    }
}

/// No string comes before itself.
pub proof fn lemma_lt_irreflexive(a: Seq<char>)
    ensures
        !seq_lt(a, a),
{
}

/// Two strings are never each before the other.
pub proof fn lemma_lt_asymmetric(a: Seq<char>, b: Seq<char>)
    ensures
        !(seq_lt(a, b) && seq_lt(b, a)),
{
    if seq_lt(a, b) && seq_lt(b, a) {
        let k1 = choose|k: int|
            #[trigger] common_prefix(a, b, k) && k < b.len() && (k == a.len() || a[k]
                < b[k]);
        let k2 = choose|k: int|
            #[trigger] common_prefix(b, a, k) && k < a.len() && (k == b.len() || b[k]
                < a[k]);
        if k1 < k2 {
            assert(a[k1] == b[k1]);
        } else if k2 < k1 {
            assert(a[k2] == b[k2]);
        }
    }
}

/// The order is transitive.
pub proof fn lemma_lt_transitive(a: Seq<char>, b: Seq<char>, c: Seq<char>)
    requires
        seq_lt(a, b),
        seq_lt(b, c),
    ensures
        seq_lt(a, c),
{
    let k1 = choose|k: int|
        #[trigger] common_prefix(a, b, k) && k < b.len() && (k == a.len() || a[k] < b[k]);
    let k2 = choose|k: int|
        #[trigger] common_prefix(b, c, k) && k < c.len() && (k == b.len() || b[k] < c[k]);
    if k1 <= k2 {
        assert(common_prefix(a, c, k1));
        if k1 < k2 {
            assert(b[k1] == c[k1]);
        }
    } else {
        assert(common_prefix(a, c, k2));
        assert(a[k2] == b[k2]);
    }
}

/// Two different strings are ordered one way or the other.
pub proof fn lemma_lt_total(a: Seq<char>, b: Seq<char>)
    requires
        a != b,
    ensures
        seq_lt(a, b) || seq_lt(b, a),
{
    assert(common_prefix(a, b, 0));
    let k = lemma_first_difference(a, b, 0);
    if k == a.len() && k == b.len() {
        assert(a =~= b);
    } else if k == a.len() {
        assert(seq_lt(a, b));
    } else if k == b.len() {
        assert(common_prefix(b, a, k));
        assert(seq_lt(b, a));
    } else if a[k] < b[k] {
        assert(seq_lt(a, b));
    } else {
        assert(a[k] != b[k]);
        assert(common_prefix(b, a, k));
        assert(seq_lt(b, a));
    }
}

/// Whether `a` comes strictly before `b`.
pub fn str_lt(a: &str, b: &str) -> (r: bool)
    ensures
        r == seq_lt(a@, b@),
{
    let la = a.unicode_len();
    let lb = b.unicode_len();
    let mut i: usize = 0;
    while i < la && i < lb
        invariant
            la == a@.len(),
            lb == b@.len(),
            common_prefix(a@, b@, i as int),
        decreases la - i,
    {
        let ca = a.get_char(i);
        let cb = b.get_char(i);
        if ca != cb {
            let r = ca < cb;
            proof {
                if r {
                    assert(common_prefix(a@, b@, i as int));
                } else {
                    assert(ca != cb);
                    if seq_lt(a@, b@) {
                        let k = choose|k: int|
                            #[trigger] common_prefix(a@, b@, k) && k < b@.len() && (k == a@.len()
                                || a@[k] < b@[k]);
                        if k > i {
                            assert(a@[i as int] == b@[i as int]);
                        }
                    }
                }
            }
            return r;
        }
        i = i + 1;
    }
    let r = i < lb;
    proof {
        if r {
            assert(common_prefix(a@, b@, i as int));
        } else if seq_lt(a@, b@) {
            let k = choose|k: int|
                #[trigger] common_prefix(a@, b@, k) && k < b@.len() && (k == a@.len() || a@[k] < b@[k]);
            assert(k < i);
            assert(a@[k] == b@[k]);
        }
    }
    r
}

/// Whether `a` and `b` hold the same text.
pub fn str_eq(a: &str, b: &str) -> (r: bool)
    ensures
        r == (a@ == b@),
{
    let la = a.unicode_len();
    let lb = b.unicode_len();
    if la != lb {
        return false;
    }
    let mut i: usize = 0;
    while i < la
        invariant
            la == a@.len(),
            lb == b@.len(),
            la == lb,
            common_prefix(a@, b@, i as int),
        decreases la - i,
    {
        if a.get_char(i) != b.get_char(i) {
            return false;
        }
        i = i + 1;
    }
    assert(a@ =~= b@);
    true
}

/// The position of the first `c` in `s`.
pub open spec fn first_index_of(s: Seq<char>, c: char) -> Option<int>
    decreases s.len(),
{
    if s.len() == 0 {
        None
    } else if s[0] == c {
        Some(0)
    } else {
        match first_index_of(s.subrange(1, s.len() as int), c) {
            Some(i) => Some(i + 1),
            None => None,
        }
    }
}

/// The first `c` stands at `i`: no `c` comes before it.
pub proof fn lemma_first_index_at(s: Seq<char>, c: char, i: int)
    requires
        0 <= i < s.len(),
        s[i] == c,
        forall|j: int| 0 <= j < i ==> s[j] != c,
    ensures
        first_index_of(s, c) == Some(i),
    decreases i,
{
    if i > 0 {
        let rest = s.subrange(1, s.len() as int);
        assert forall|j: int| 0 <= j < i - 1 implies rest[j] != c by {
            assert(rest[j] == s[j + 1]);
        }
        lemma_first_index_at(rest, c, i - 1);
    }
}

/// `s` holds no `c`.
pub proof fn lemma_first_index_absent(s: Seq<char>, c: char)
    requires
        forall|j: int| 0 <= j < s.len() ==> s[j] != c,
    ensures
        first_index_of(s, c) is None,
    decreases s.len(),
{
    if s.len() > 0 {
        let rest = s.subrange(1, s.len() as int);
        assert forall|j: int| 0 <= j < rest.len() implies rest[j] != c by {
            assert(rest[j] == s[j + 1]);
        }
        lemma_first_index_absent(rest, c);
    }
}

/// What the first position of `c` tells: `c` stands there and not before.
pub proof fn lemma_first_index_facts(s: Seq<char>, c: char)
    ensures
        match first_index_of(s, c) {
            Some(i) => 0 <= i < s.len() && s[i] == c && forall|j: int| 0 <= j < i ==> s[j] != c,
            None => forall|j: int| 0 <= j < s.len() ==> s[j] != c,
        },
    decreases s.len(),
{
    if s.len() > 0 && s[0] != c {
        let rest = s.subrange(1, s.len() as int);
        lemma_first_index_facts(rest, c);
        match first_index_of(rest, c) {
            Some(i) => {
                assert forall|j: int| 0 <= j < i + 1 implies s[j] != c by {
                    if j > 0 {
                        assert(s[j] == rest[j - 1]);
                    }
                }
            },
            None => {
                assert forall|j: int| 0 <= j < s.len() implies s[j] != c by {
                    if j > 0 {
                        assert(s[j] == rest[j - 1]);
                    }
                }
            },
        }
    }
}

/// The position of the first `c` in `s`.
pub fn find_char(s: &str, c: char) -> (r: Option<usize>)
    ensures
        match r {
            Some(i) => first_index_of(s@, c) == Some(i as int),
            None => first_index_of(s@, c) is None,
        },
{
    let n = s.unicode_len();
    let mut i: usize = 0;
    while i < n
        invariant
            n == s@.len(),
            i <= n,
            forall|j: int| 0 <= j < i ==> s@[j] != c,
        decreases n - i,
    {
        if s.get_char(i) == c {
            proof {
                lemma_first_index_at(s@, c, i as int);
            }
            return Some(i);
        }
        i = i + 1;
    }
    proof {
        lemma_first_index_absent(s@, c);
    }
    None
}

/// The decimal digit of a number below ten.
pub open spec fn digit_char(d: nat) -> char {
    if d == 0 { '0' } else if d == 1 { '1' } else if d == 2 { '2' } else if d == 3 { '3' }
    else if d == 4 { '4' } else if d == 5 { '5' } else if d == 6 { '6' } else if d == 7 { '7' }
    else if d == 8 { '8' } else { '9' }
}

/// The decimal text of a number, as `to_string` writes it.
pub open spec fn decimal(n: nat) -> Seq<char>
    decreases n,
{
    if n < 10 {
        seq![digit_char(n)]
    } else {
        decimal(n / 10) + seq![digit_char(n % 10)]
    }
}

/// The decimal text of a number.
pub fn usize_to_string(n: usize) -> (s: String)
    ensures
        s@ == decimal(n as nat),
    decreases n,
{
    let digits = "0123456789";
    proof {
        reveal_strlit("0123456789");
    }
    let d = n % 10;
    let last = digits.substring_char(d, d + 1);
    proof {
        assert(last@ =~= seq![digit_char(d as nat)]);
    }
    if n < 10 {
        last.to_string()
    } else {
        let head = usize_to_string(n / 10);
        head.concat(last)
    }
}

/// The decimal text of an integer, with a minus sign where it is negative.
pub open spec fn signed_decimal(n: int) -> Seq<char> {
    if n < 0 {
        seq!['-'] + decimal((-n) as nat)
    } else {
        decimal(n as nat)
    }
}

/// The decimal text of an `i64`, as `to_string` writes it.
pub fn i64_to_string(n: i64) -> (s: String)
    ensures
        s@ == signed_decimal(n as int),
{
    if n < 0 {
        let m: u64 = if n == i64::MIN { 9223372036854775808u64 } else { (-n) as u64 };
        let body = u64_to_string(m);
        proof {
            reveal_strlit("-");
        }
        "-".to_string().concat(body.as_str())
    } else {
        u64_to_string(n as u64)
    }
}

/// The decimal text of a `u64`.
pub fn u64_to_string(n: u64) -> (s: String)
    ensures
        s@ == decimal(n as nat),
    decreases n,
{
    let digits = "0123456789";
    proof {
        reveal_strlit("0123456789");
    }
    let d = (n % 10) as usize;
    let last = digits.substring_char(d, d + 1);
    proof {
        assert(last@ =~= seq![digit_char(d as nat)]);
    }
    if n < 10 {
        last.to_string()
    } else {
        let head = u64_to_string(n / 10);
        head.concat(last)
    }
}


/// The code of a character with ASCII capitals taken to lower case.
pub open spec fn ascii_lower_code(c: char) -> int {
    if 'A' <= c && c <= 'Z' {
        c as int + 32
    } else {
        c as int
    }
}

/// Two texts are equal but for the case of ASCII letters.
pub open spec fn spec_eq_ignore_ascii_case(a: Seq<char>, b: Seq<char>) -> bool {
    a.len() == b.len() && forall|i: int| 0 <= i < a.len() ==> ascii_lower_code(#[trigger] a[i]) == ascii_lower_code(b[i])
}

fn lower_code(c: char) -> (r: u32)
    ensures
        r as int == ascii_lower_code(c),
{
    if 'A' <= c && c <= 'Z' {
        (c as u32) + 32
    } else {
        c as u32
    }
}

/// Whether two texts are equal but for the case of ASCII letters.
pub fn eq_ignore_ascii_case(a: &str, b: &str) -> (r: bool)
    ensures
        r == spec_eq_ignore_ascii_case(a@, b@),
{
    let la = a.unicode_len();
    let lb = b.unicode_len();
    if la != lb {
        return false;
    }
    let mut i: usize = 0;
    while i < la
        invariant
            la == a@.len(),
            lb == b@.len(),
            la == lb,
            i <= la,
            forall|j: int| 0 <= j < i ==> ascii_lower_code(#[trigger] a@[j]) == ascii_lower_code(b@[j]),
        decreases la - i,
    {
        if lower_code(a.get_char(i)) != lower_code(b.get_char(i)) {
            return false;
        }
        i = i + 1;
    }
    true
}

/// The pieces of a text between the occurrences of a separator, as
/// `str::split` gives them: one more piece than there are separators.
pub open spec fn split_on(s: Seq<char>, c: char) -> Seq<Seq<char>>
    decreases s.len(),
{
    match first_index_of(s, c) {
        None => seq![s],
        Some(i) => if 0 <= i < s.len() {
            seq![s.subrange(0, i)] + split_on(s.subrange(i + 1, s.len() as int), c)
        } else {
            seq![s]
        },
    }
}

/// Splits a text at every occurrence of a separator.
pub fn split_char(s: &str, c: char) -> (r: Vec<String>)
    ensures
        r@.map_values(|x: String| x@) == split_on(s@, c),
    decreases s@.len(),
{
    match find_char(s, c) {
        None => {
            let mut out: Vec<String> = Vec::new();
            out.push(s.to_string());
            proof {
                assert(out@.map_values(|x: String| x@) =~= seq![s@]);
            }
            out
        },
        Some(i) => {
            proof {
                lemma_first_index_facts(s@, c);
            }
            let n = s.unicode_len();
            let head = s.substring_char(0, i).to_string();
            let rest = s.substring_char(i + 1, n);
            let tail = split_char(rest, c);
            let mut out: Vec<String> = Vec::new();
            out.push(head);
            let mut tail = tail;
            out.append(&mut tail);
            proof {
                assert(out@.map_values(|x: String| x@) =~= seq![s@.subrange(0, i as int)] + split_on(rest@, c));
            }
            out
        },
    }
}

/// The value of a text of decimal digits.
pub open spec fn digits_value(s: Seq<char>) -> int
    decreases s.len(),
{
    if s.len() == 0 {
        0
    } else {
        digits_value(s.drop_last()) * 10 + (s.last() as int - '0' as int)
    }
}

/// Every character of the text is an ASCII digit.
pub open spec fn all_digits(s: Seq<char>) -> bool {
    forall|i: int| 0 <= i < s.len() ==> '0' <= #[trigger] s[i] && s[i] <= '9'
}

/// The `i32` a text stands for, as `str::parse::<i32>` reads it: an optional
/// sign, then one or more decimal digits, of a value within range.
pub open spec fn spec_parse_i32(s: Seq<char>) -> Option<i32> {
    let neg = s.len() > 0 && s[0] == '-';
    let signed = s.len() > 0 && (s[0] == '-' || s[0] == '+');
    let body = if signed { s.subrange(1, s.len() as int) } else { s };
    let v = if neg { -digits_value(body) } else { digits_value(body) };
    if body.len() == 0 || !all_digits(body) || v < i32::MIN || v > i32::MAX {
        None
    } else {
        Some(v as i32)
    }
}

proof fn lemma_digits_nonneg(s: Seq<char>)
    requires
        all_digits(s),
    ensures
        digits_value(s) >= 0,
    decreases s.len(),
{
    if s.len() > 0 {
        assert(all_digits(s.drop_last()));
        lemma_digits_nonneg(s.drop_last());
        assert('0' <= s[s.len() - 1]);
    }
}

/// Reads an `i32` from decimal text, as `str::parse::<i32>` does.
pub fn parse_i32(s: &str) -> (r: Option<i32>)
    ensures
        r == spec_parse_i32(s@),
{
    let n = s.unicode_len();
    let neg = n > 0 && s.get_char(0) == '-';
    let signed = n > 0 && (s.get_char(0) == '-' || s.get_char(0) == '+');
    let start: usize = if signed { 1 } else { 0 };
    let body = s.substring_char(start, n);
    let ghost bs = body@;
    proof {
        assert(bs =~= (if signed { s@.subrange(1, s@.len() as int) } else { s@ }));
    }
    let m = body.unicode_len();
    if m == 0 {
        return None;
    }
    let mut acc: i64 = 0;
    let mut too_big = false;
    let mut i: usize = 0;
    while i < m
        invariant
            m == bs.len(),
            bs == body@,
            bs == (if signed { s@.subrange(1, s@.len() as int) } else { s@ }),
            signed == (s@.len() > 0 && (s@[0] == '-' || s@[0] == '+')),
            neg == (s@.len() > 0 && s@[0] == '-'),
            i <= m,
            all_digits(bs.subrange(0, i as int)),
            too_big ==> digits_value(bs.subrange(0, i as int)) > 2147483648,
            !too_big ==> acc == digits_value(bs.subrange(0, i as int)) && 0 <= acc <= 2147483648,
        decreases m - i,
    {
        let c = body.get_char(i);
        proof {
            let t = bs.subrange(0, i + 1);
            assert(t.drop_last() =~= bs.subrange(0, i as int));
            assert(t.last() == c);
        }
        if c < '0' || c > '9' {
            proof {
                assert(!all_digits(bs)) by {
                    assert(bs[i as int] == c);
                }
            }
            return None;
        }
        proof {
            assert(all_digits(bs.subrange(0, i + 1))) by {
                assert forall|j: int| 0 <= j < i + 1 implies '0' <= #[trigger] bs.subrange(0, i + 1)[j] && bs.subrange(0, i + 1)[j] <= '9' by {
                    if j < i {
                        assert(bs.subrange(0, i + 1)[j] == bs.subrange(0, i as int)[j]);
                    }
                }
            }
        }
        let d = (c as u32 - '0' as u32) as i64;
        if !too_big {
            let next = acc * 10 + d;
            if next > 2147483648 {
                too_big = true;
            } else {
                acc = next;
            }
        } else {
            proof {
                lemma_digits_nonneg(bs.subrange(0, i as int));
            }
        }
        i = i + 1;
    }
    proof {
        assert(bs.subrange(0, m as int) =~= bs);
        assert(body@ =~= (if signed { s@.subrange(1, s@.len() as int) } else { s@ }));
    }
    if too_big {
        return None;
    }
    if neg {
        Some((-acc) as i32)
    } else if acc > 2147483647 {
        None
    } else {
        Some(acc as i32)
    }
}

/// The decimal text of an `i32`, as `to_string` writes it.
pub fn i32_to_string(n: i32) -> (s: String)
    ensures
        s@ == signed_decimal(n as int),
{
    i64_to_string(n as i64)
}


/// The text `needle` occurs in `hay` at position `i`.
pub open spec fn occurs_at(hay: Seq<char>, needle: Seq<char>, i: int) -> bool {
    0 <= i && i + needle.len() <= hay.len() && hay.subrange(i, i + needle.len()) == needle
}

/// The text `needle` occurs in `hay`.
pub open spec fn spec_contains(hay: Seq<char>, needle: Seq<char>) -> bool {
    exists|i: int| occurs_at(hay, needle, i)
}

/// Whether `needle` occurs in `hay`.
pub fn str_contains(hay: &str, needle: &str) -> (r: bool)
    ensures
        r == spec_contains(hay@, needle@),
{
    let n = hay.unicode_len();
    let m = needle.unicode_len();
    if m > n {
        proof {
            assert forall|i: int| !occurs_at(hay@, needle@, i) by {}
        }
        return false;
    }
    if m == 0 {
        assert(hay@.subrange(0, 0) =~= needle@);
        assert(occurs_at(hay@, needle@, 0));
        return true;
    }
    let mut i: usize = 0;
    while i <= n - m
        invariant
            n == hay@.len(),
            m == needle@.len(),
            1 <= m <= n,
            i <= n - m + 1,
            forall|j: int| 0 <= j < i ==> !occurs_at(hay@, needle@, j),
        decreases n - m + 1 - i,
    {
        let piece = hay.substring_char(i, i + m);
        if str_eq(piece, needle) {
            assert(occurs_at(hay@, needle@, i as int));
            return true;
        }
        i = i + 1;
    }
    proof {
        assert forall|j: int| !occurs_at(hay@, needle@, j) by {
            if 0 <= j < i {
            }
        }
    }
    false
}


/// The lower-case hexadecimal digit of a number below sixteen.
pub open spec fn hex_digit(d: nat) -> char {
    if d < 10 {
        digit_char(d)
    } else if d == 10 { 'a' } else if d == 11 { 'b' } else if d == 12 { 'c' } else if d == 13 { 'd' }
    else if d == 14 { 'e' } else { 'f' }
}

/// The lower-case hexadecimal text of a number, as `{:x}` writes it.
pub open spec fn hex(n: nat) -> Seq<char>
    decreases n,
{
    if n < 16 {
        seq![hex_digit(n)]
    } else {
        hex(n / 16) + seq![hex_digit(n % 16)]
    }
}

/// The lower-case hexadecimal text of a `u64`.
pub fn u64_to_hex(n: u64) -> (s: String)
    ensures
        s@ == hex(n as nat),
    decreases n,
{
    let digits = "0123456789abcdef";
    proof {
        reveal_strlit("0123456789abcdef");
    }
    let d = (n % 16) as usize;
    let last = digits.substring_char(d, d + 1);
    proof {
        assert(last@ =~= seq![hex_digit(d as nat)]);
    }
    if n < 16 {
        last.to_string()
    } else {
        let head = u64_to_hex(n / 16);
        head.concat(last)
    }
}

} // verus!
