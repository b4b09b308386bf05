use vstd::prelude::*;

verus! {

/// `c` is an ASCII decimal digit.
pub open spec fn is_digit(c: char) -> bool {
    '0' <= c && c <= '9'
}

pub open spec fn digit_value(c: char) -> nat {
    (c as int - '0' as int) as nat
}

pub open spec fn all_digits(s: Seq<char>) -> bool {
    forall|i: int| 0 <= i < s.len() ==> is_digit(#[trigger] s[i])
}

/// The number that the decimal digits `s` spell (0 for no digits).
pub open spec fn digits_value(s: Seq<char>) -> nat
    decreases s.len(),
{
    if s.len() == 0 {
        0
    } else {
        digits_value(s.drop_last()) * 10 + digit_value(s.last())
    }
}

/// What `str::parse::<u32>` reads: an optional `+`, then one or more decimal digits
/// whose value fits in a `u32`.
pub open spec fn std_parse_u32(s: Seq<char>) -> Option<nat> {
    let d = if s.len() > 0 && s[0] == '+' { s.drop_first() } else { s };
    if d.len() > 0 && all_digits(d) && digits_value(d) <= u32::MAX {
        Some(digits_value(d))
    } else {
        None
    }
}

/// The Unicode `White_Space` characters, those that `char::is_whitespace` accepts
/// and `str::trim` and `str::split_whitespace` cut at.
pub open spec fn is_white(c: char) -> bool {
    ||| ('\u{9}' <= c && c <= '\u{d}')
    ||| c == ' '
    ||| c == '\u{85}'
    ||| c == '\u{a0}'
    ||| c == '\u{1680}'
    ||| ('\u{2000}' <= c && c <= '\u{200a}')
    ||| c == '\u{2028}'
    ||| c == '\u{2029}'
    ||| c == '\u{202f}'
    ||| c == '\u{205f}'
    ||| c == '\u{3000}'
}

/// Index of the first character of `s` that is not white space (`s.len()` if none).
pub open spec fn trim_start_index(s: Seq<char>) -> int
    decreases s.len(),
{
    if s.len() == 0 {
        0
    } else if is_white(s[0]) {
        1 + trim_start_index(s.drop_first())
    } else {
        0
    }
}

/// Index just past the last character of `s` that is not white space (0 if none).
pub open spec fn trim_end_index(s: Seq<char>) -> int
    decreases s.len(),
{
    if s.len() == 0 {
        0
    } else if is_white(s.last()) {
        trim_end_index(s.drop_last())
    } else {
        s.len() as int
    }
}

/// `s` with leading and trailing white space removed, as `str::trim` gives it.
pub open spec fn trimmed(s: Seq<char>) -> Seq<char> {
    let a = trim_start_index(s);
    let b = trim_end_index(s);
    if a < b { s.subrange(a, b) } else { Seq::empty() }
}

/// The pieces of `s` between occurrences of `sep`, as `str::split(sep)` gives them.
pub open spec fn split_on(s: Seq<char>, sep: char) -> Seq<Seq<char>>
    decreases s.len(),
{
    if s.len() == 0 {
        seq![Seq::<char>::empty()]
    } else {
        let rest = split_on(s.drop_first(), sep);
        if s[0] == sep {
            seq![Seq::<char>::empty()] + rest
        } else {
            rest.update(0, seq![s[0]] + rest[0])
        }
    }
}

pub open spec fn lacks(s: Seq<char>, c: char) -> bool {
    forall|i: int| 0 <= i < s.len() ==> s[i] != c
}

pub proof fn lemma_split_len(s: Seq<char>, sep: char)
    ensures
        split_on(s, sep).len() >= 1,
    decreases s.len(),
{
    if s.len() > 0 {
        lemma_split_len(s.drop_first(), sep);
    }
}

pub proof fn lemma_split_no_sep(c: Seq<char>, sep: char)
    requires
        lacks(c, sep),
    ensures
        split_on(c, sep) == seq![c],
    decreases c.len(),
{
    if c.len() > 0 {
        lemma_split_no_sep(c.drop_first(), sep);
        assert(seq![c[0]] + c.drop_first() =~= c);
        assert(split_on(c, sep) =~= seq![c]);
    } else {
        assert(c =~= Seq::<char>::empty());
    }
}

pub proof fn lemma_split_at_sep(c: Seq<char>, sep: char, u: Seq<char>)
    requires
        lacks(c, sep),
    ensures
        split_on(c + seq![sep] + u, sep) == seq![c] + split_on(u, sep),
    decreases c.len(),
{
    let s = c + seq![sep] + u;
    if c.len() == 0 {
        assert(s.drop_first() =~= u);
        assert(c =~= Seq::<char>::empty());
        assert(split_on(s, sep) =~= seq![c] + split_on(u, sep));
    } else {
        let c2 = c.drop_first();
        lemma_split_at_sep(c2, sep, u);
        assert(s.drop_first() =~= c2 + seq![sep] + u);
        assert(seq![c[0]] + c2 =~= c);
        lemma_split_len(u, sep);
        assert(split_on(s, sep) =~= seq![c] + split_on(u, sep));
    }
}

pub proof fn lemma_digits_value_grows(s: Seq<char>, k: int)
    requires
        0 <= k <= s.len(),
    ensures
        digits_value(s.take(k)) <= digits_value(s),
    decreases s.len(),
{
    if k < s.len() {
        lemma_digits_value_grows(s.drop_last(), k);
        assert(s.drop_last().take(k) =~= s.take(k));
    } else {
        assert(s.take(k) =~= s);
    }
}

/// The characters of `s`, read one by one from `str::chars`.
pub fn chars_of(s: &str) -> (r: Vec<char>)
    ensures
        r@ == s@,
{
    broadcast use vstd::string::axiom_spec_iter;
    let mut v: Vec<char> = Vec::new();
    for c in it: s.chars()
        invariant
            v@ == it.seq().take(it.index() as int),
    {
        v.push(c);
    }
    assert(v@ =~= s@);
    v
}

/// The string made of the characters `v`, by collecting them with `FromIterator`.
#[verifier::external_body]
pub(crate) fn string_of(v: &Vec<char>) -> (r: String)
    ensures
        r@ == v@,
{
    v.iter().collect()
}

/// `str::trim`: the contract states the documented result over the Unicode
/// `White_Space` set.
#[verifier::external_body]
pub(crate) fn trim(s: &str) -> (r: &str)
    ensures
        r@ == trimmed(s@),
{
    s.trim()
}

/// `String::push`.
#[verifier::external_body]
pub(crate) fn push_char(s: &mut String, c: char)
    ensures
        final(s)@ == old(s)@.push(c),
{
    s.push(c)
}

/// `String::pop`.
#[verifier::external_body]
pub(crate) fn pop_char(s: &mut String) -> (r: Option<char>)
    ensures
        old(s)@.len() == 0 ==> r is None && final(s)@ == old(s)@,
        old(s)@.len() > 0 ==> r == Some(old(s)@.last()) && final(s)@ == old(s)@.drop_last(),
{
    s.pop()
}

/// Copy of `v[lo..hi]`.
pub fn slice_chars(v: &Vec<char>, lo: usize, hi: usize) -> (r: Vec<char>)
    requires
        lo <= hi <= v.len(),
    ensures
        r@ == v@.subrange(lo as int, hi as int),
{
    let mut r: Vec<char> = Vec::new();
    let mut i: usize = lo;
    while i < hi
        invariant
            lo <= i <= hi <= v.len(),
            r@ == v@.subrange(lo as int, i as int),
        decreases hi - i,
    {
        r.push(v[i]);
        i = i + 1;
        assert(r@ =~= v@.subrange(lo as int, i as int));
    }
    r
}

/// `v` starts with `p`.
pub fn starts_with(v: &Vec<char>, p: &Vec<char>) -> (r: bool)
    ensures
        r == (p@.len() <= v@.len() && v@.take(p@.len() as int) == p@),
{
    if p.len() > v.len() {
        return false;
    }
    let mut i: usize = 0;
    while i < p.len()
        invariant
            p.len() <= v.len(),
            i <= p.len(),
            forall|j: int| 0 <= j < i ==> v@[j] == p@[j],
        decreases p.len() - i,
    {
        if v[i] != p[i] {
            assert(v@.take(p@.len() as int)[i as int] != p@[i as int]);
            return false;
        }
        i = i + 1;
    }
    assert(v@.take(p@.len() as int) =~= p@);
    true
}

/// `a` and `b` hold the same characters.
pub fn same_chars(a: &Vec<char>, b: &Vec<char>) -> (r: bool)
    ensures
        r == (a@ == b@),
{
    if a.len() != b.len() {
        return false;
    }
    let r = starts_with(a, b);
    assert(a@.take(b@.len() as int) =~= a@);
    r
}

/// The pieces of `v` between occurrences of `sep`.
pub fn split(v: &Vec<char>, sep: char) -> (r: Vec<Vec<char>>)
    ensures
        r@.map_values(|x: Vec<char>| x@) == split_on(v@, sep),
{
    let mut done: Vec<Vec<char>> = Vec::new();
    let mut cur: Vec<char> = Vec::new();
    let mut i: usize = 0;
    assert(cur@ + v@.skip(0) =~= v@);
    assert(done@.map_values(|x: Vec<char>| x@) =~= Seq::<Seq<char>>::empty());
    while i < v.len()
        invariant
            i <= v.len(),
            lacks(cur@, sep),
            split_on(v@, sep) == done@.map_values(|x: Vec<char>| x@) + split_on(cur@ + v@.skip(i as int), sep),
        decreases v.len() - i,
    {
        let c = v[i];
        if c == sep {
            proof {
                assert(cur@ + v@.skip(i as int) =~= cur@ + seq![sep] + v@.skip(i + 1));
                lemma_split_at_sep(cur@, sep, v@.skip(i + 1));
                assert(Seq::<char>::empty() + v@.skip(i + 1) =~= v@.skip(i + 1));
            }
            let ghost old_done = done@;
            let ghost old_cur = cur@;
            done.push(cur);
            cur = Vec::new();
            proof {
                assert(done@.map_values(|x: Vec<char>| x@) =~= old_done.map_values(|x: Vec<char>| x@) + seq![old_cur]);
            }
        } else {
            proof {
                assert(cur@.push(c) + v@.skip(i + 1) =~= cur@ + v@.skip(i as int));
            }
            cur.push(c);
        }
        i = i + 1;
    }
    proof {
        assert(cur@ + v@.skip(i as int) =~= cur@);
        lemma_split_no_sep(cur@, sep);
    }
    let ghost old_done = done@;
    let ghost old_cur = cur@;
    done.push(cur);
    proof {
        assert(done@.map_values(|x: Vec<char>| x@) =~= old_done.map_values(|x: Vec<char>| x@) + seq![old_cur]);
    }
    done
}

/// What `str::parse::<u32>` gives for the characters `v[lo..hi]`.
pub fn parse_u32(v: &Vec<char>, lo: usize, hi: usize) -> (r: Option<u32>)
    requires
        lo <= hi <= v.len(),
    ensures
        r matches Some(n) ==> std_parse_u32(v@.subrange(lo as int, hi as int)) == Some(n as nat),
        r is None ==> std_parse_u32(v@.subrange(lo as int, hi as int)) is None,
{
    let ghost s = v@.subrange(lo as int, hi as int);
    let mut start = lo;
    if lo < hi && v[lo] == '+' {
        start = lo + 1;
    }
    let ghost d = v@.subrange(start as int, hi as int);
    assert(d =~= (if s.len() > 0 && s[0] == '+' { s.drop_first() } else { s }));
    if start == hi {
        return None;
    }
    let mut val: u64 = 0;
    let mut i: usize = start;
    while i < hi
        invariant
            start <= i <= hi <= v.len(),
            d == v@.subrange(start as int, hi as int),
            std_parse_u32(v@.subrange(lo as int, hi as int)) == (if d.len() > 0 && all_digits(d) && digits_value(d) <= u32::MAX { Some(digits_value(d)) } else { None }),
            all_digits(v@.subrange(start as int, i as int)),
            val as nat == digits_value(v@.subrange(start as int, i as int)),
            val <= u32::MAX,
        decreases hi - i,
    {
        let c = v[i];
        if !('0' <= c && c <= '9') {
            assert(!is_digit(d[i - start]));
            assert(!all_digits(d));
            return None;
        }
        let dv = (c as u32 - '0' as u32) as u64;
        let ghost pre = v@.subrange(start as int, i as int);
        let ghost post = v@.subrange(start as int, i + 1);
        assert(post.drop_last() =~= pre);
        assert(post.last() == c);
        assert(digits_value(post) == digits_value(pre) * 10 + digit_value(c));
        val = val * 10 + dv;
        i = i + 1;
        if val > u32::MAX as u64 {
            proof {
                assert(d.take(i - start) =~= post);
                lemma_digits_value_grows(d, i - start);
                assert(digits_value(d) > u32::MAX);
            }
            return None;
        }
    }
    assert(v@.subrange(start as int, i as int) =~= d);
    Some(val as u32)
}


/// `str` equality: the same characters in the same order.
pub fn text_eq(a: &str, b: &str) -> (r: bool)
    ensures
        r == (a@ == b@),
{
    same_chars(&chars_of(a), &chars_of(b))
}

/// `a` followed by `b`.
pub fn concat(a: &str, b: &str) -> (r: String)
    ensures
        r@ == a@ + b@,
{
    let mut s = a.to_owned();
    s.append(b);
    s
}


/// `s` lower-cased, as `str::to_lowercase` maps Unicode text.
pub uninterp spec fn unicode_lower(s: Seq<char>) -> Seq<char>;

/// `str::to_lowercase`. The contract names the Unicode case mapping it performs.
#[verifier::external_body]
pub(crate) fn to_lower(s: &str) -> (r: String)
    ensures
        r@ == unicode_lower(s@),
{
    s.to_lowercase()
}

/// `n` occurs in `h` as a contiguous piece.
pub open spec fn contains_seq(h: Seq<char>, n: Seq<char>) -> bool {
    exists|i: int| 0 <= i && i + n.len() <= h.len() && #[trigger] h.subrange(i, i + n.len()) == n
}

/// Whether `n` occurs in `h`, as `str::contains` tells.
pub fn contains_chars(h: &Vec<char>, n: &Vec<char>) -> (r: bool)
    ensures
        r == contains_seq(h@, n@),
{
    if n.len() > h.len() {
        return false;
    }
    let mut i: usize = 0;
    while i <= h.len() - n.len()
        invariant
            n.len() <= h.len(),
            i <= h.len() - n.len() + 1,
            forall|j: int| 0 <= j < i ==> #[trigger] h@.subrange(j, j + n@.len()) != n@,
        decreases h.len() - i,
    {
        let mut k: usize = 0;
        let mut same = true;
        while k < n.len()
            invariant
                i + n.len() <= h.len(),
                k <= n.len(),
                same == (forall|m: int| 0 <= m < k ==> h@[i + m] == n@[m]),
            decreases n.len() - k,
        {
            if h[i + k] != n[k] {
                same = false;
            }
            k = k + 1;
        }
        if same {
            assert(h@.subrange(i as int, i + n@.len()) =~= n@);
            return true;
        }
        proof {
            if h@.subrange(i as int, i + n@.len()) == n@ {
                assert forall|m: int| 0 <= m < n.len() implies h@[i + m] == n@[m] by {
                    assert(h@.subrange(i as int, i + n@.len())[m] == h@[i + m]);
                }
            }
        }
        i = i + 1;
    }
    false
}

/// Lexicographic order of texts by character (the order `String`'s `Ord` gives,
/// since UTF-8 keeps the order of code points).
pub open spec fn text_le(a: Seq<char>, b: Seq<char>) -> bool
    decreases a.len(),
{
    if a.len() == 0 {
        true
    } else if b.len() == 0 {
        false
    } else if a[0] != b[0] {
        a[0] < b[0]
    } else {
        text_le(a.drop_first(), b.drop_first())
    }
}

pub proof fn lemma_text_le_refl(a: Seq<char>)
    ensures
        text_le(a, a),
    decreases a.len(),
{
    if a.len() > 0 {
        lemma_text_le_refl(a.drop_first());
    }
}

pub proof fn lemma_text_le_total(a: Seq<char>, b: Seq<char>)
    ensures
        text_le(a, b) || text_le(b, a),
    decreases a.len(),
{
    if a.len() > 0 && b.len() > 0 && a[0] == b[0] {
        lemma_text_le_total(a.drop_first(), b.drop_first());
    }
}

pub proof fn lemma_text_le_trans(a: Seq<char>, b: Seq<char>, c: Seq<char>)
    requires
        text_le(a, b),
        text_le(b, c),
    ensures
        text_le(a, c),
    decreases a.len(),
{
    if a.len() > 0 && b.len() > 0 && c.len() > 0 && a[0] == b[0] && b[0] == c[0] {
        lemma_text_le_trans(a.drop_first(), b.drop_first(), c.drop_first());
    }
}

/// Whether `a` comes no later than `b` in text order.
pub fn text_le_chars(a: &Vec<char>, b: &Vec<char>) -> (r: bool)
    ensures
        r == text_le(a@, b@),
{
    let mut i: usize = 0;
    assert(a@.skip(0) =~= a@);
    assert(b@.skip(0) =~= b@);
    while i < a.len() && i < b.len() && a[i] == b[i]
        invariant
            i <= a.len(),
            i <= b.len(),
            text_le(a@, b@) == text_le(a@.skip(i as int), b@.skip(i as int)),
        decreases a.len() - i,
    {
        assert(a@.skip(i as int).drop_first() =~= a@.skip(i + 1));
        assert(b@.skip(i as int).drop_first() =~= b@.skip(i + 1));
        i = i + 1;
    }
    if i == a.len() {
        true
    } else if i == b.len() {
        false
    } else {
        a[i] < b[i]
    }
}

/// Decimal digit character for `d < 10`.
pub open spec fn digit_char(d: nat) -> char {
    (d + '0' as nat) as char
}

/// The decimal numeral of `n`, as `Display` writes unsigned integers.
pub open spec fn decimal(n: nat) -> Seq<char>
    decreases n,
{
    if n < 10 {
        seq![digit_char(n)]
    } else {
        decimal(n / 10).push(digit_char(n % 10))
    }
}

/// The decimal numeral of `n` is made of digits and reads back as `n`.
pub proof fn lemma_decimal_reads_back(n: nat)
    ensures
        decimal(n).len() > 0,
        all_digits(decimal(n)),
        digits_value(decimal(n)) == n,
    decreases n,
{
    if n >= 10 {
        lemma_decimal_reads_back(n / 10);
        let s = decimal(n / 10);
        let c = digit_char(n % 10);
        assert(s.push(c).drop_last() =~= s);
        assert(digit_value(c) == n % 10);
        assert(digits_value(s.push(c)) == (n / 10) * 10 + n % 10);
        assert(decimal(n) == s.push(c));
    } else {
        let c = digit_char(n);
        assert(seq![c].drop_last() =~= Seq::<char>::empty());
        assert(digit_value(c) == n);
        assert(decimal(n) == seq![c]);
        assert(digits_value(seq![c]) == digits_value(seq![c].drop_last()) * 10 + digit_value(c));
    }
}

fn digit_of(d: u64) -> (r: char)
    requires
        d < 10,
    ensures
        r == digit_char(d as nat),
{
    if d == 0 {
        '0'
    } else if d == 1 {
        '1'
    } else if d == 2 {
        '2'
    } else if d == 3 {
        '3'
    } else if d == 4 {
        '4'
    } else if d == 5 {
        '5'
    } else if d == 6 {
        '6'
    } else if d == 7 {
        '7'
    } else if d == 8 {
        '8'
    } else {
        '9'
    }
}

fn decimal_chars(n: u64) -> (r: Vec<char>)
    ensures
        r@ == decimal(n as nat),
    decreases n,
{
    if n < 10 {
        let mut v: Vec<char> = Vec::new();
        v.push(digit_of(n));
        assert(v@ =~= decimal(n as nat));
        v
    } else {
        let mut v = decimal_chars(n / 10);
        v.push(digit_of(n % 10));
        v
    }
}

/// The decimal numeral of `n`, as `Display` writes it.
pub(crate) fn decimal_text(n: u64) -> (r: String)
    ensures
        r@ == decimal(n as nat),
{
    string_of(&decimal_chars(n))
}


/// The pieces of `s` between white-space characters (empty ones included).
pub open spec fn split_white(s: Seq<char>) -> Seq<Seq<char>>
    decreases s.len(),
{
    if s.len() == 0 {
        seq![Seq::<char>::empty()]
    } else {
        let rest = split_white(s.drop_first());
        if is_white(s[0]) {
            seq![Seq::<char>::empty()] + rest
        } else {
            rest.update(0, seq![s[0]] + rest[0])
        }
    }
}

pub open spec fn nonempty() -> spec_fn(Seq<char>) -> bool {
    |w: Seq<char>| w.len() > 0
}

/// The words of `s`, as `str::split_whitespace` gives them.
pub open spec fn words(s: Seq<char>) -> Seq<Seq<char>> {
    split_white(s).filter(nonempty())
}

pub open spec fn no_white(s: Seq<char>) -> bool {
    forall|i: int| 0 <= i < s.len() ==> !is_white(s[i])
}

proof fn lemma_split_white_len(s: Seq<char>)
    ensures
        split_white(s).len() >= 1,
    decreases s.len(),
{
    if s.len() > 0 {
        lemma_split_white_len(s.drop_first());
    }
}

proof fn lemma_split_white_plain(c: Seq<char>)
    requires
        no_white(c),
    ensures
        split_white(c) == seq![c],
    decreases c.len(),
{
    if c.len() > 0 {
        lemma_split_white_plain(c.drop_first());
        assert(seq![c[0]] + c.drop_first() =~= c);
        assert(split_white(c) =~= seq![c]);
    } else {
        assert(c =~= Seq::<char>::empty());
    }
}

proof fn lemma_split_white_at(c: Seq<char>, w: char, u: Seq<char>)
    requires
        no_white(c),
        is_white(w),
    ensures
        split_white(c + seq![w] + u) == seq![c] + split_white(u),
    decreases c.len(),
{
    let s = c + seq![w] + u;
    if c.len() == 0 {
        assert(s.drop_first() =~= u);
        assert(c =~= Seq::<char>::empty());
        assert(split_white(s) =~= seq![c] + split_white(u));
    } else {
        let c2 = c.drop_first();
        lemma_split_white_at(c2, w, u);
        assert(s.drop_first() =~= c2 + seq![w] + u);
        assert(seq![c[0]] + c2 =~= c);
        lemma_split_white_len(u);
        assert(split_white(s) =~= seq![c] + split_white(u));
    }
}

proof fn lemma_filter_one(w: Seq<char>)
    ensures
        seq![w].filter(nonempty()) == (if w.len() > 0 { seq![w] } else { Seq::<Seq<char>>::empty() }),
{
    reveal(Seq::filter);
    assert(seq![w].drop_last() =~= Seq::<Seq<char>>::empty());
    assert(Seq::<Seq<char>>::empty().filter(nonempty()) =~= Seq::<Seq<char>>::empty());
    assert(Seq::<Seq<char>>::empty().push(w) =~= seq![w]);
}

/// The words of `s`.
pub fn split_words(s: &str) -> (r: Vec<Vec<char>>)
    ensures
        r@.map_values(|x: Vec<char>| x@) == words(s@),
{
    let v = chars_of(s);
    let mut done: Vec<Vec<char>> = Vec::new();
    let mut cur: Vec<char> = Vec::new();
    let mut i: usize = 0;
    assert(cur@ + v@.skip(0) =~= v@);
    assert(done@.map_values(|x: Vec<char>| x@) =~= Seq::<Seq<char>>::empty());
    while i < v.len()
        invariant
            i <= v.len(),
            v@ == s@,
            no_white(cur@),
            words(s@) == done@.map_values(|x: Vec<char>| x@) + words(cur@ + v@.skip(i as int)),
        decreases v.len() - i,
    {
        let c = v[i];
        let white = c == '\u{9}' || c == '\u{a}' || c == '\u{b}' || c == '\u{c}' || c == '\u{d}' || c == ' ' || c == '\u{85}'
            || c == '\u{a0}' || c == '\u{1680}' || ('\u{2000}' <= c && c <= '\u{200a}') || c == '\u{2028}' || c == '\u{2029}'
            || c == '\u{202f}' || c == '\u{205f}' || c == '\u{3000}';
        assert(white == is_white(c));
        if white {
            let ghost old_done = done@;
            let ghost old_cur = cur@;
            proof {
                assert(cur@ + v@.skip(i as int) =~= cur@ + seq![c] + v@.skip(i + 1));
                lemma_split_white_at(cur@, c, v@.skip(i + 1));
                Seq::filter_distributes_over_add(seq![cur@], split_white(v@.skip(i + 1)), nonempty());
                lemma_filter_one(cur@);
                assert(Seq::<char>::empty() + v@.skip(i + 1) =~= v@.skip(i + 1));
            }
            if cur.len() > 0 {
                done.push(cur);
                cur = Vec::new();
                proof {
                    assert(done@.map_values(|x: Vec<char>| x@) =~= old_done.map_values(|x: Vec<char>| x@) + seq![old_cur]);
                }
            } else {
                proof {
                    assert(seq![old_cur].filter(nonempty()) =~= Seq::<Seq<char>>::empty());
                    assert(Seq::<Seq<char>>::empty() + words(v@.skip(i + 1)) =~= words(v@.skip(i + 1)));
                }
            }
        } else {
            proof {
                assert(cur@.push(c) + v@.skip(i + 1) =~= cur@ + v@.skip(i as int));
            }
            cur.push(c);
        }
        i = i + 1;
    }
    proof {
        assert(cur@ + v@.skip(i as int) =~= cur@);
        lemma_split_white_plain(cur@);
        lemma_filter_one(cur@);
    }
    let ghost old_done = done@;
    let ghost old_cur = cur@;
    if cur.len() > 0 {
        done.push(cur);
        proof {
            assert(done@.map_values(|x: Vec<char>| x@) =~= old_done.map_values(|x: Vec<char>| x@) + seq![old_cur]);
        }
    } else {
        assert(old_done.map_values(|x: Vec<char>| x@) + Seq::<Seq<char>>::empty() =~= old_done.map_values(|x: Vec<char>| x@));
    }
    done
}

} // verus!
