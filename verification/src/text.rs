//! Character-level helpers for building and inspecting strings.

use vstd::prelude::*;
use vstd::string::*;

verus! {

/// Appends one character to a string (std `String::push`).
#[verifier::external_body]
pub(crate) fn push_char(s: &mut String, c: char)
    ensures
        final(s)@ == old(s)@.push(c),
{
    s.push(c);
}

/// The characters of a string slice, in order.
pub fn chars_of(s: &str) -> (v: Vec<char>)
    ensures
        v@ == s@,
{
    let mut v: Vec<char> = Vec::new();
    for c in it: s.chars()
        invariant
            v@ == it.seq().take(it.index() as int),
            it.seq() == s@,
    {
        v.push(c);
    }
    v
}

/// A string holding exactly the given characters.
pub fn string_of(v: &[char]) -> (s: String)
    ensures
        s@ == v@,
{
    let mut s = String::new();
    let mut i: usize = 0;
    while i < v.len()
        invariant
            i <= v@.len(),
            s@ == v@.take(i as int),
        decreases v@.len() - i,
    {
        push_char(&mut s, v[i]);
        assert(v@.take(i as int).push(v@[i as int]) =~= v@.take(i + 1));
        i = i + 1;
    }
    assert(v@.take(v@.len() as int) =~= v@);
    s
}

/// An owned copy of a string slice.
pub fn owned(s: &str) -> (r: String)
    ensures
        r@ == s@,
{
    s.to_owned()
}

/// Appends a string slice to a string.
pub fn push_str(s: &mut String, t: &str)
    ensures
        final(s)@ == old(s)@ + t@,
{
    s.append(t);
}

/// The concatenation of two string slices.
pub fn concat2(a: &str, b: &str) -> (r: String)
    ensures
        r@ == a@ + b@,
{
    let mut r = a.to_owned();
    r.append(b);
    r
}

/// Whether two string slices hold the same characters.
pub fn str_eq(a: &str, b: &str) -> (r: bool)
    ensures
        r == (a@ == b@),
{
    let x = chars_of(a);
    let y = chars_of(b);
    if x.len() != y.len() {
        return false;
    }
    let mut i: usize = 0;
    while i < x.len()
        invariant
            x@ == a@,
            y@ == b@,
            x@.len() == y@.len(),
            i <= x@.len(),
            forall|j: int| 0 <= j < i ==> x@[j] == y@[j],
        decreases x@.len() - i,
    {
        if x[i] != y[i] {
            return false;
        }
        i = i + 1;
    }
    assert(x@ =~= y@);
    true
}


/// Whether a character has the Unicode `White_Space` property.
pub open spec fn is_ws(c: char) -> bool {
    let u = c as u32;
    (9 <= u && u <= 13) || u == 32 || u == 0x85 || u == 0xA0 || u == 0x1680 || (0x2000 <= u && u
        <= 0x200A) || u == 0x2028 || u == 0x2029 || u == 0x202F || u == 0x205F || u == 0x3000
}

/// Whether a character is whitespace (the Unicode `White_Space` property,
/// as `char::is_whitespace` defines it).
pub fn is_whitespace(c: char) -> (r: bool)
    ensures
        r == is_ws(c),
{
    let u = c as u32;
    (9 <= u && u <= 13) || u == 32 || u == 0x85 || u == 0xA0 || u == 0x1680 || (0x2000 <= u && u
        <= 0x200A) || u == 0x2028 || u == 0x2029 || u == 0x202F || u == 0x205F || u == 0x3000
}

/// Text without its leading whitespace.
pub open spec fn trim_start(s: Seq<char>) -> Seq<char>
    decreases s.len(),
{
    if s.len() > 0 && is_ws(s[0]) {
        trim_start(s.drop_first())
    } else {
        s
    }
}

/// Text without its trailing whitespace.
pub open spec fn trim_end(s: Seq<char>) -> Seq<char>
    decreases s.len(),
{
    if s.len() > 0 && is_ws(s.last()) {
        trim_end(s.drop_last())
    } else {
        s
    }
}

/// Text without leading and trailing whitespace, as `str::trim` gives it.
pub open spec fn trimmed(s: Seq<char>) -> Seq<char> {
    trim_end(trim_start(s))
}

/// Text without the trailing copies of `c`.
pub open spec fn trim_end_char(s: Seq<char>, c: char) -> Seq<char>
    decreases s.len(),
{
    if s.len() > 0 && s.last() == c {
        trim_end_char(s.drop_last(), c)
    } else {
        s
    }
}

/// Leading whitespace up to `i` leaves `trim_start` unchanged.
proof fn lemma_trim_start_skip(s: Seq<char>, i: int)
    requires
        0 <= i <= s.len(),
        forall|j: int| 0 <= j < i ==> is_ws(s[j]),
    ensures
        trim_start(s) == trim_start(s.skip(i)),
    decreases i,
{
    if i > 0 {
        assert(s.skip(1) =~= s.drop_first());
        lemma_trim_start_skip(s.drop_first(), i - 1);
        assert(s.drop_first().skip(i - 1) =~= s.skip(i));
    } else {
        assert(s.skip(0) =~= s);
    }
}

/// Trailing characters of one kind from `i` on leave `trim` unchanged.
proof fn lemma_trim_end_take(s: Seq<char>, i: int)
    requires
        0 <= i <= s.len(),
        forall|j: int| i <= j < s.len() ==> is_ws(s[j]),
    ensures
        trim_end(s) == trim_end(s.take(i)),
    decreases s.len() - i,
{
    if i < s.len() {
        assert(s.drop_last() =~= s.take(s.len() - 1));
        lemma_trim_end_take(s.drop_last(), i);
        assert(s.drop_last().take(i) =~= s.take(i));
    } else {
        assert(s.take(i) =~= s);
    }
}

proof fn lemma_trim_end_char_take(s: Seq<char>, c: char, i: int)
    requires
        0 <= i <= s.len(),
        forall|j: int| i <= j < s.len() ==> s[j] == c,
    ensures
        trim_end_char(s, c) == trim_end_char(s.take(i), c),
    decreases s.len() - i,
{
    if i < s.len() {
        assert(s.drop_last() =~= s.take(s.len() - 1));
        lemma_trim_end_char_take(s.drop_last(), c, i);
        assert(s.drop_last().take(i) =~= s.take(i));
    } else {
        assert(s.take(i) =~= s);
    }
}

/// A string without leading and trailing whitespace.
pub fn trim(s: &str) -> (r: String)
    ensures
        r@ == trimmed(s@),
{
    let v = chars_of(s);
    let n = v.len();
    let mut i: usize = 0;
    while i < n && is_whitespace(v[i])
        invariant
            n == v@.len(),
            v@ == s@,
            i <= n,
            forall|j: int| 0 <= j < i ==> is_ws(v@[j]),
        decreases n - i,
    {
        i = i + 1;
    }
    proof {
        lemma_trim_start_skip(s@, i as int);
    }
    let mut k: usize = n;
    while k > i && is_whitespace(v[k - 1])
        invariant
            n == v@.len(),
            v@ == s@,
            i <= k <= n,
            forall|j: int| k <= j < n ==> is_ws(v@[j]),
        decreases k,
    {
        k = k - 1;
    }
    let ghost t = s@.skip(i as int);
    proof {
        assert(i == n || !is_ws(t[0]));
        assert(trim_start(t) == t);
        lemma_trim_end_take(t, (k - i) as int);
        let u = t.take((k - i) as int);
        assert(u.len() == 0 || !is_ws(u.last()));
        assert(trim_end(u) == u);
        assert(u =~= v@.subrange(i as int, k as int));
    }
    string_of(slice_range(&v, i, k).as_slice())
}

/// A string without its leading whitespace.
pub fn trim_start_str(s: &str) -> (r: String)
    ensures
        r@ == trim_start(s@),
{
    let v = chars_of(s);
    let n = v.len();
    let mut i: usize = 0;
    while i < n && is_whitespace(v[i])
        invariant
            n == v@.len(),
            v@ == s@,
            i <= n,
            forall|j: int| 0 <= j < i ==> is_ws(v@[j]),
        decreases n - i,
    {
        i = i + 1;
    }
    proof {
        lemma_trim_start_skip(s@, i as int);
        let t = s@.skip(i as int);
        assert(i == n || !is_ws(t[0]));
        assert(trim_start(t) == t);
        assert(t =~= v@.subrange(i as int, n as int));
    }
    string_of(slice_range(&v, i, n).as_slice())
}

/// The characters from `i` up to `k`.
pub fn slice_range(v: &Vec<char>, i: usize, k: usize) -> (r: Vec<char>)
    requires
        i <= k <= v@.len(),
    ensures
        r@ == v@.subrange(i as int, k as int),
{
    let mut r: Vec<char> = Vec::new();
    let mut j: usize = i;
    while j < k
        invariant
            i <= j <= k <= v@.len(),
            r@ == v@.subrange(i as int, j as int),
        decreases k - j,
    {
        r.push(v[j]);
        j = j + 1;
        assert(r@ =~= v@.subrange(i as int, j as int));
    }
    r
}

/// A string without the trailing copies of `c`.
pub fn trim_end_matches_char(s: &str, c: char) -> (r: String)
    ensures
        r@ == trim_end_char(s@, c),
{
    let v = chars_of(s);
    let mut k: usize = v.len();
    while k > 0 && v[k - 1] == c
        invariant
            v@ == s@,
            k <= v@.len(),
            forall|j: int| k <= j < v@.len() ==> v@[j] == c,
        decreases k,
    {
        k = k - 1;
    }
    proof {
        lemma_trim_end_char_take(s@, c, k as int);
        let u = s@.take(k as int);
        assert(u.len() == 0 || u.last() != c);
        assert(trim_end_char(u, c) == u);
        assert(u =~= v@.subrange(0, k as int));
    }
    string_of(slice_range(&v, 0, k).as_slice())
}

/// ASCII lowercase of a character.
pub open spec fn ascii_lower(c: char) -> char {
    if 'A' <= c && c <= 'Z' {
        ((c as u32) + 32) as char
    } else {
        c
    }
}

/// ASCII lowercase of a text, as `str::to_ascii_lowercase` gives it.
pub open spec fn ascii_lowercase(s: Seq<char>) -> Seq<char> {
    Seq::new(s.len(), |i: int| ascii_lower(s[i]))
}

/// A copy with ASCII letters in lowercase; other characters unchanged.
pub fn to_ascii_lowercase(s: &str) -> (r: String)
    ensures
        r@ == ascii_lowercase(s@),
{
    let v = chars_of(s);
    let mut out: Vec<char> = Vec::new();
    let mut i: usize = 0;
    while i < v.len()
        invariant
            v@ == s@,
            i <= v@.len(),
            out@ =~= ascii_lowercase(s@).take(i as int),
        decreases v@.len() - i,
    {
        let c = v[i];
        let d = if 'A' <= c && c <= 'Z' {
            let b: u8 = (c as u32) as u8;
            ((b + 32) as char)
        } else {
            c
        };
        out.push(d);
        i = i + 1;
    }
    string_of(out.as_slice())
}

/// The first `n` characters.
pub fn prefix_chars(s: &str, n: usize) -> (r: String)
    requires
        n <= s@.len(),
    ensures
        r@ == s@.take(n as int),
{
    let v = chars_of(s);
    string_of(slice_range(&v, 0, n).as_slice())
}

/// Whether `s` begins with `p`.
pub open spec fn has_prefix(s: Seq<char>, p: Seq<char>) -> bool {
    p.len() <= s.len() && s.take(p.len() as int) == p
}

/// Whether `s` begins with `p`.
pub fn starts_with(s: &str, p: &str) -> (r: bool)
    ensures
        r == has_prefix(s@, p@),
{
    let v = chars_of(s);
    let w = chars_of(p);
    if w.len() > v.len() {
        return false;
    }
    let mut i: usize = 0;
    while i < w.len()
        invariant
            v@ == s@,
            w@ == p@,
            w@.len() <= v@.len(),
            i <= w@.len(),
            forall|j: int| 0 <= j < i ==> v@[j] == w@[j],
        decreases w@.len() - i,
    {
        if v[i] != w[i] {
            assert(s@.take(p@.len() as int)[i as int] != p@[i as int]);
            return false;
        }
        i = i + 1;
    }
    assert(s@.take(p@.len() as int) =~= p@);
    true
}


/// The decimal digit of a value below ten.
pub open spec fn digit_char(d: nat) -> char {
    (48 + d) as char
}

/// Decimal text of a natural number, without leading zeros.
pub open spec fn decimal(n: nat) -> Seq<char>
    decreases n,
{
    if n < 10 {
        seq![digit_char(n)]
    } else {
        decimal(n / 10).push(digit_char(n % 10))
    }
}

/// Decimal text of a number.
pub fn u128_to_decimal(n: u128) -> (r: String)
    ensures
        r@ == decimal(n as nat),
{
    let mut rest: u128 = n;
    let mut acc: Vec<char> = Vec::new();
    while rest >= 10
        invariant
            decimal(n as nat) == decimal(rest as nat) + acc@,
        decreases rest,
    {
        let d: u128 = rest % 10;
        let c: char = ((d as u8) + 48) as char;
        proof {
            assert(decimal(rest as nat) == decimal((rest / 10) as nat).push(digit_char((rest % 10) as nat)));
            assert(decimal((rest / 10) as nat).push(c) + acc@ =~= decimal((rest / 10) as nat) + seq![c].add(acc@));
        }
        acc.insert(0, c);
        assert(acc@ =~= seq![c].add(acc@.drop_first()));
        rest = rest / 10;
    }
    let c: char = ((rest as u8) + 48) as char;
    acc.insert(0, c);
    assert(acc@ =~= seq![c] + acc@.drop_first());
    string_of(acc.as_slice())
}

/// Decimal text of a number.
pub fn u64_to_decimal(n: u64) -> (r: String)
    ensures
        r@ == decimal(n as nat),
{
    u128_to_decimal(n as u128)
}

/// Decimal text of a signed number: a minus sign before negative ones.
pub open spec fn signed_decimal(n: int) -> Seq<char> {
    if n < 0 {
        "-"@ + decimal((-n) as nat)
    } else {
        decimal(n as nat)
    }
}

/// Decimal text of a signed number.
pub fn i64_to_decimal(n: i64) -> (r: String)
    ensures
        r@ == signed_decimal(n as int),
{
    if n < 0 {
        let m: u128 = (0i128 - (n as i128)) as u128;
        let digits = u128_to_decimal(m);
        concat2("-", digits.as_str())
    } else {
        u128_to_decimal(n as u128)
    }
}

/// Whether `i` is the first position of `c` in `s`.
pub open spec fn is_first_char(s: Seq<char>, c: char, i: int) -> bool {
    &&& 0 <= i < s.len()
    &&& s[i] == c
    &&& forall|j: int| 0 <= j < i ==> s[j] != c
}

/// The first position of `c` in `s`.
pub open spec fn index_of(s: Seq<char>, c: char) -> Option<int> {
    if exists|i: int| is_first_char(s, c, i) {
        Some(choose|i: int| is_first_char(s, c, i))
    } else {
        None
    }
}

/// The first position of `c` in `s` is the one found.
pub proof fn lemma_index_of(s: Seq<char>, c: char, i: int)
    requires
        0 <= i <= s.len(),
        forall|j: int| 0 <= j < i ==> s[j] != c,
        i == s.len() || s[i] == c,
    ensures
        index_of(s, c) == if i == s.len() {
            None::<int>
        } else {
            Some(i)
        },
{
    if i < s.len() {
        assert(is_first_char(s, c, i));
        let k = choose|k: int| is_first_char(s, c, k);
        assert(is_first_char(s, c, k));
        if k < i {
        } else if k > i {
            assert(s[i] == c);
        }
    } else {
        assert(!exists|k: int| is_first_char(s, c, k));
    }
}

/// Text cut at every `c`, as `str::split` with a character gives it.
pub open spec fn split_on(s: Seq<char>, c: char) -> Seq<Seq<char>>
    decreases s.len(),
{
    match index_of(s, c) {
        Some(i) => if 0 <= i < s.len() {
            seq![s.take(i)] + split_on(s.skip(i + 1), c)
        } else {
            seq![s]
        },
        None => seq![s],
    }
}

/// The pieces of a string between the occurrences of `c`.
pub fn split_char(s: &str, c: char) -> (r: Vec<String>)
    ensures
        r@.map_values(|p: String| p@) == split_on(s@, c),
{
    let v = chars_of(s);
    let n = v.len();
    let mut parts: Vec<String> = Vec::new();
    let mut start: usize = 0;
    let mut i: usize = 0;
    assert(s@.skip(0) =~= s@);
    assert(parts@.map_values(|p: String| p@) =~= Seq::<Seq<char>>::empty());
    while i < n
        invariant
            v@ == s@,
            n == v@.len(),
            start <= i <= n,
            split_on(s@, c) =~= parts@.map_values(|p: String| p@) + split_on(s@.skip(start as int), c),
            forall|j: int| start <= j < i ==> v@[j] != c,
        decreases n - i,
    {
        if v[i] == c {
            let ghost rest = s@.skip(start as int);
            proof {
                lemma_index_of(rest, c, (i - start) as int);
                assert(rest.take((i - start) as int) =~= v@.subrange(start as int, i as int));
                assert(rest.skip((i - start) as int + 1) =~= s@.skip(i + 1));
            }
            let piece = string_of(slice_range(&v, start, i).as_slice());
            let ghost before = parts@.map_values(|p: String| p@);
            parts.push(piece);
            assert(parts@.map_values(|p: String| p@) =~= before.push(piece@));
            assert(before + split_on(rest, c) =~= before.push(piece@) + split_on(s@.skip(i + 1), c));
            start = i + 1;
        }
        i = i + 1;
    }
    let ghost rest = s@.skip(start as int);
    proof {
        lemma_index_of(rest, c, (n - start) as int);
        assert(rest =~= v@.subrange(start as int, n as int));
    }
    let piece = string_of(slice_range(&v, start, n).as_slice());
    let ghost before = parts@.map_values(|p: String| p@);
    parts.push(piece);
    assert(parts@.map_values(|p: String| p@) =~= before.push(piece@));
    assert(before + split_on(rest, c) =~= before.push(piece@));
    parts
}

/// Text cut after every `c`, each piece keeping its `c`, as
/// `str::split_inclusive` with a character gives it.
pub open spec fn split_inclusive_on(s: Seq<char>, c: char) -> Seq<Seq<char>>
    decreases s.len(),
{
    if s.len() == 0 {
        Seq::empty()
    } else {
        match index_of(s, c) {
            Some(i) => if 0 <= i < s.len() {
                seq![s.take(i + 1)] + split_inclusive_on(s.skip(i + 1), c)
            } else {
                seq![s]
            },
            None => seq![s],
        }
    }
}

/// The pieces of a string cut after each `c` give the string back.
pub proof fn lemma_split_inclusive_flatten(s: Seq<char>, c: char)
    ensures
        split_inclusive_on(s, c).flatten() == s,
    decreases s.len(),
{
    if s.len() == 0 {
        assert(s =~= Seq::<char>::empty());
    } else {
        let parts = split_inclusive_on(s, c);
        match index_of(s, c) {
            Some(i) => if 0 <= i < s.len() {
                let rest = split_inclusive_on(s.skip(i + 1), c);
                lemma_split_inclusive_flatten(s.skip(i + 1), c);
                assert(parts == seq![s.take(i + 1)] + rest);
                assert(parts.first() == s.take(i + 1));
                assert(parts.drop_first() =~= rest);
                assert(parts.flatten() == parts.first() + parts.drop_first().flatten());
                assert(s.take(i + 1) + s.skip(i + 1) =~= s);
            } else {
                assert(parts == seq![s]);
                assert(parts.drop_first() =~= Seq::<Seq<char>>::empty());
                assert(parts.flatten() == parts.first() + parts.drop_first().flatten());
                assert(s + Seq::<char>::empty() =~= s);
            },
            None => {
                assert(parts == seq![s]);
                assert(parts.drop_first() =~= Seq::<Seq<char>>::empty());
                assert(parts.flatten() == parts.first() + parts.drop_first().flatten());
                assert(s + Seq::<char>::empty() =~= s);
            },
        }
    }
}

/// The pieces of a string cut after each `c`, each with its `c`.
pub fn split_inclusive_char(s: &str, c: char) -> (r: Vec<String>)
    ensures
        r@.map_values(|p: String| p@) == split_inclusive_on(s@, c),
{
    let v = chars_of(s);
    let n = v.len();
    let mut parts: Vec<String> = Vec::new();
    let mut start: usize = 0;
    let mut i: usize = 0;
    assert(s@.skip(0) =~= s@);
    assert(parts@.map_values(|p: String| p@) =~= Seq::<Seq<char>>::empty());
    while i < n
        invariant
            v@ == s@,
            n == v@.len(),
            start <= i <= n,
            split_inclusive_on(s@, c) =~= parts@.map_values(|p: String| p@) + split_inclusive_on(
                s@.skip(start as int),
                c,
            ),
            forall|j: int| start <= j < i ==> v@[j] != c,
        decreases n - i,
    {
        if v[i] == c {
            let ghost rest = s@.skip(start as int);
            proof {
                lemma_index_of(rest, c, (i - start) as int);
                assert(rest.take((i - start) as int + 1) =~= v@.subrange(start as int, i + 1));
                assert(rest.skip((i - start) as int + 1) =~= s@.skip(i + 1));
            }
            let piece = string_of(slice_range(&v, start, i + 1).as_slice());
            let ghost before = parts@.map_values(|p: String| p@);
            parts.push(piece);
            assert(parts@.map_values(|p: String| p@) =~= before.push(piece@));
            assert(before + split_inclusive_on(rest, c) =~= before.push(piece@) + split_inclusive_on(
                s@.skip(i + 1),
                c,
            ));
            start = i + 1;
        }
        i = i + 1;
    }
    let ghost rest = s@.skip(start as int);
    if start < n {
        proof {
            lemma_index_of(rest, c, (n - start) as int);
            assert(rest =~= v@.subrange(start as int, n as int));
        }
        let piece = string_of(slice_range(&v, start, n).as_slice());
        let ghost before = parts@.map_values(|p: String| p@);
        parts.push(piece);
        assert(parts@.map_values(|p: String| p@) =~= before.push(piece@));
        assert(before + split_inclusive_on(rest, c) =~= before.push(piece@));
    } else {
        assert(rest.len() == 0);
        assert(parts@.map_values(|p: String| p@) + Seq::<Seq<char>>::empty() =~= parts@.map_values(
            |p: String| p@,
        ));
    }
    parts
}

/// Whether `i` is the first whitespace position of `s`.
pub open spec fn is_first_ws(s: Seq<char>, i: int) -> bool {
    &&& 0 <= i < s.len()
    &&& is_ws(s[i])
    &&& forall|j: int| 0 <= j < i ==> !is_ws(s[j])
}

/// The first whitespace position of `s`.
pub open spec fn first_ws(s: Seq<char>) -> Option<int> {
    if exists|i: int| is_first_ws(s, i) {
        Some(choose|i: int| is_first_ws(s, i))
    } else {
        None
    }
}

proof fn lemma_first_ws(s: Seq<char>, i: int)
    requires
        0 <= i <= s.len(),
        forall|j: int| 0 <= j < i ==> !is_ws(s[j]),
        i == s.len() || is_ws(s[i]),
    ensures
        first_ws(s) == if i == s.len() {
            None::<int>
        } else {
            Some(i)
        },
{
    if i < s.len() {
        assert(is_first_ws(s, i));
        let k = choose|k: int| is_first_ws(s, k);
        assert(is_first_ws(s, k));
        if k < i {
        } else if k > i {
            assert(is_ws(s[i]));
        }
    } else {
        assert(!exists|k: int| is_first_ws(s, k));
    }
}

/// The whitespace-separated words of a text, as `str::split_whitespace`
/// gives them.
pub open spec fn words(s: Seq<char>) -> Seq<Seq<char>>
    decreases s.len(),
{
    match first_ws(s) {
        Some(i) => if 0 <= i < s.len() {
            if i == 0 {
                words(s.skip(1))
            } else {
                seq![s.take(i)] + words(s.skip(i + 1))
            }
        } else {
            seq![]
        },
        None => if s.len() == 0 {
            seq![]
        } else {
            seq![s]
        },
    }
}

/// The whitespace-separated words of a string.
pub fn split_whitespace(s: &str) -> (r: Vec<String>)
    ensures
        r@.map_values(|p: String| p@) == words(s@),
{
    let v = chars_of(s);
    let n = v.len();
    let mut parts: Vec<String> = Vec::new();
    let mut start: usize = 0;
    let mut i: usize = 0;
    assert(s@.skip(0) =~= s@);
    assert(parts@.map_values(|p: String| p@) =~= Seq::<Seq<char>>::empty());
    while i < n
        invariant
            v@ == s@,
            n == v@.len(),
            start <= i <= n,
            words(s@) =~= parts@.map_values(|p: String| p@) + words(s@.skip(start as int)),
            forall|j: int| start <= j < i ==> !is_ws(v@[j]),
        decreases n - i,
    {
        if is_whitespace(v[i]) {
            let ghost rest = s@.skip(start as int);
            proof {
                lemma_first_ws(rest, (i - start) as int);
                assert(rest.skip((i - start) as int + 1) =~= s@.skip(i + 1));
                assert(rest.skip(1) =~= s@.skip(start + 1));
            }
            if i > start {
                proof {
                    assert(rest.take((i - start) as int) =~= v@.subrange(start as int, i as int));
                }
                let piece = string_of(slice_range(&v, start, i).as_slice());
                let ghost before = parts@.map_values(|p: String| p@);
                parts.push(piece);
                assert(parts@.map_values(|p: String| p@) =~= before.push(piece@));
                assert(before + words(rest) =~= before.push(piece@) + words(s@.skip(i + 1)));
            }
            start = i + 1;
        }
        i = i + 1;
    }
    let ghost rest = s@.skip(start as int);
    proof {
        lemma_first_ws(rest, (n - start) as int);
        assert(rest =~= v@.subrange(start as int, n as int));
    }
    if n > start {
        let piece = string_of(slice_range(&v, start, n).as_slice());
        let ghost before = parts@.map_values(|p: String| p@);
        parts.push(piece);
        assert(parts@.map_values(|p: String| p@) =~= before.push(piece@));
        assert(before + words(rest) =~= before.push(piece@));
    } else {
        assert(parts@.map_values(|p: String| p@) + words(rest) =~= parts@.map_values(|p: String| p@));
    }
    parts
}

} // verus!
