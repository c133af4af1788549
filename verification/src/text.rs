//! Text primitives: trimming, ASCII case folding, splitting, ordering and
//! decimal rendering over the characters of a string.
//!
//! Every function works on `&str` and states its result over the sequence of
//! characters that the string holds.

use vstd::prelude::*;
use vstd::utf8::*;

verus! {

broadcast use vstd::string::group_string_axioms;

/// Whether `c` has the Unicode `White_Space` property.
pub open spec fn is_white_space(c: char) -> bool {
    let u = c as u32;
    ||| 0x9 <= u <= 0xd
    ||| u == 0x20
    ||| u == 0x85
    ||| u == 0xa0
    ||| u == 0x1680
    ||| 0x2000 <= u <= 0x200a
    ||| u == 0x2028
    ||| u == 0x2029
    ||| u == 0x202f
    ||| u == 0x205f
    ||| u == 0x3000
}

/// Executable form of [`is_white_space`].
pub fn white_space(c: char) -> (r: bool)
    ensures
        r == is_white_space(c),
{
    let u: u32 = c as u32;
    (0x9 <= u && u <= 0xd) || u == 0x20 || u == 0x85 || u == 0xa0 || u == 0x1680 || (0x2000 <= u
        && u <= 0x200a) || u == 0x2028 || u == 0x2029 || u == 0x202f || u == 0x205f || u == 0x3000
}

/// `s` without its leading white space.
pub open spec fn trim_start(s: Seq<char>) -> Seq<char>
    decreases s.len(),
{
    if s.len() > 0 && is_white_space(s[0]) {
        trim_start(s.drop_first())
    } else {
        s
    }
}

/// `s` without its trailing white space.
pub open spec fn trim_end(s: Seq<char>) -> Seq<char>
    decreases s.len(),
{
    if s.len() > 0 && is_white_space(s.last()) {
        trim_end(s.drop_last())
    } else {
        s
    }
}

/// `s` without leading and trailing white space.
pub open spec fn trim(s: Seq<char>) -> Seq<char> {
    trim_end(trim_start(s))
}

/// `s` without any trailing occurrence of `c`.
pub open spec fn trim_end_char(s: Seq<char>, c: char) -> Seq<char>
    decreases s.len(),
{
    if s.len() > 0 && s.last() == c {
        trim_end_char(s.drop_last(), c)
    } else {
        s
    }
}

/// `s` without one trailing occurrence of `c`, when it ends in `c`.
pub open spec fn strip_last(s: Seq<char>, c: char) -> Seq<char> {
    if s.len() > 0 && s.last() == c {
        s.drop_last()
    } else {
        s
    }
}

/// `c` in lower case when it is an ASCII letter, and `c` itself otherwise.
pub open spec fn lower_char(c: char) -> char {
    if 'A' <= c <= 'Z' {
        ((c as u8) + 32) as char
    } else {
        c
    }
}

/// `s` with its ASCII letters in lower case.
pub open spec fn lower(s: Seq<char>) -> Seq<char> {
    s.map_values(|c: char| lower_char(c))
}

/// Whether `part` occurs in `s` at position `i`.
pub open spec fn occurs_at(s: Seq<char>, part: Seq<char>, i: int) -> bool {
    0 <= i && i + part.len() <= s.len() && s.subrange(i, i + part.len()) == part
}

/// Whether `part` occurs anywhere in `s`.
pub open spec fn contains(s: Seq<char>, part: Seq<char>) -> bool {
    exists|i: int| occurs_at(s, part, i)
}

/// Whether `a` precedes `b` from position `i` on, comparing by code point.
pub open spec fn precedes_from(a: Seq<char>, b: Seq<char>, i: nat) -> bool
    decreases a.len() - i,
{
    if i >= b.len() {
        false
    } else if i >= a.len() {
        true
    } else if a[i as int] != b[i as int] {
        a[i as int] < b[i as int]
    } else {
        precedes_from(a, b, i + 1)
    }
}

/// Whether `a` comes strictly before `b` in the order of their code points.
pub open spec fn precedes(a: Seq<char>, b: Seq<char>) -> bool {
    precedes_from(a, b, 0)
}

/// The decimal digits of `n`.
pub open spec fn decimal(n: nat) -> Seq<char>
    decreases n,
{
    if n < 10 {
        seq![digit(n)]
    } else {
        decimal(n / 10).push(digit(n % 10))
    }
}

/// The character of one decimal digit.
pub open spec fn digit(n: nat) -> char {
    ((48 + n) as u8) as char
}

/// The characters of `s`.
pub fn chars_of(s: &str) -> (v: Vec<char>)
    ensures
        v@ == s@,
{
    let mut v: Vec<char> = Vec::new();
    for c in it: s.chars()
        invariant
            v@ == it.seq().take(it.index() as int),
    {
        v.push(c);
    }
    v
}


/// Whether two strings hold the same characters.
pub fn same_text(a: &str, b: &str) -> (r: bool)
    ensures
        r == (a@ == b@),
{
    let x: &[u8] = a.as_bytes();
    let y: &[u8] = b.as_bytes();
    proof {
        encode_utf8_decode_utf8(a@);
        encode_utf8_decode_utf8(b@);
    }
    if x.len() != y.len() {
        return false;
    }
    let mut i: usize = 0;
    while i < x.len()
        invariant
            i <= x.len(),
            x.len() == y.len(),
            x@ == encode_utf8(a@),
            y@ == encode_utf8(b@),
            forall|k: int| 0 <= k < i ==> x@[k] == y@[k],
        decreases x.len() - i,
    {
        if x[i] != y[i] {
            return false;
        }
        i += 1;
    }
    assert(x@ =~= y@);
    true
}

/// Whether a list of strings holds `needle`.
pub fn list_has(list: &Vec<String>, needle: &str) -> (r: bool)
    ensures
        r == texts(list@).contains(needle@),
{
    let mut i: usize = 0;
    while i < list.len()
        invariant
            i <= list.len(),
            forall|k: int| 0 <= k < i ==> list@[k]@ != needle@,
        decreases list.len() - i,
    {
        if same_text(list[i].as_str(), needle) {
            assert(texts(list@)[i as int] == needle@);
            return true;
        }
        i += 1;
    }
    assert forall|k: int| 0 <= k < texts(list@).len() implies texts(list@)[k] != needle@ by {
        assert(texts(list@)[k] == list@[k]@);
    }
    false
}

/// The characters held by each string of a list.
pub open spec fn texts(list: Seq<String>) -> Seq<Seq<char>> {
    list.map_values(|s: String| s@)
}

proof fn lemma_trim_start_skip(s: Seq<char>, n: nat)
    requires
        n <= s.len(),
        forall|k: int| 0 <= k < n ==> is_white_space(s[k]),
    ensures
        trim_start(s) == trim_start(s.skip(n as int)),
    decreases n,
{
    if n == 0 {
        assert(s.skip(0) =~= s);
    } else {
        lemma_trim_start_skip(s.drop_first(), (n - 1) as nat);
        assert(s.drop_first().skip(n - 1) =~= s.skip(n as int));
    }
}

proof fn lemma_trim_end_take(s: Seq<char>, n: nat)
    requires
        n <= s.len(),
        forall|k: int| n <= k < s.len() ==> is_white_space(s[k]),
    ensures
        trim_end(s) == trim_end(s.take(n as int)),
    decreases s.len() - n,
{
    if n == s.len() {
        assert(s.take(n as int) =~= s);
    } else {
        lemma_trim_end_take(s.drop_last(), n);
        assert(s.drop_last().take(n as int) =~= s.take(n as int));
    }
}

/// `s` without leading and trailing white space.
pub fn trimmed<'a>(s: &'a str) -> (r: &'a str)
    ensures
        r@ == trim(s@),
{
    let v: Vec<char> = chars_of(s);
    let mut from: usize = 0;
    while from < v.len() && white_space(v[from])
        invariant
            from <= v.len(),
            v@ == s@,
            forall|k: int| 0 <= k < from ==> is_white_space(v@[k]),
        decreases v.len() - from,
    {
        from += 1;
    }
    proof {
        lemma_trim_start_skip(s@, from as nat);
    }
    let mut to: usize = v.len();
    while from < to && white_space(v[to - 1])
        invariant
            from <= to <= v.len(),
            v@ == s@,
            forall|k: int| to <= k < v.len() ==> is_white_space(v@[k]),
        decreases to,
    {
        to -= 1;
    }
    proof {
        let t = s@.skip(from as int);
        assert(trim_start(s@) == t);
        lemma_trim_end_take(t, (to - from) as nat);
        assert(t.take(to - from) =~= s@.subrange(from as int, to as int));
    }
    s.substring_char(from, to)
}

/// `s` without any trailing occurrence of `c`.
pub fn trimmed_end_char<'a>(s: &'a str, c: char) -> (r: &'a str)
    ensures
        r@ == trim_end_char(s@, c),
{
    let v: Vec<char> = chars_of(s);
    let mut to: usize = v.len();
    assert(s@.take(to as int) =~= s@);
    while 0 < to && v[to - 1] == c
        invariant
            to <= v.len(),
            v@ == s@,
            trim_end_char(s@, c) == trim_end_char(s@.take(to as int), c),
        decreases to,
    {
        assert(s@.take(to as int).drop_last() =~= s@.take(to - 1));
        to -= 1;
    }
    assert(s@.take(to as int) =~= s@.subrange(0, to as int));
    s.substring_char(0, to)
}

/// `s` without one trailing occurrence of `c`, when it ends in `c`.
pub fn stripped_last<'a>(s: &'a str, c: char) -> (r: &'a str)
    ensures
        r@ == strip_last(s@, c),
{
    let v: Vec<char> = chars_of(s);
    if v.len() > 0 && v[v.len() - 1] == c {
        assert(s@.drop_last() =~= s@.subrange(0, s@.len() - 1));
        s.substring_char(0, v.len() - 1)
    } else {
        s
    }
}

/// `c` in lower case when it is an ASCII letter, and `c` itself otherwise.
pub fn lowered_char(c: char) -> (r: char)
    ensures
        r == lower_char(c),
{
    if 'A' <= c && c <= 'Z' {
        ((c as u8) + 32) as char
    } else {
        c
    }
}

/// Whether two strings agree up to the case of their ASCII letters.
pub fn same_ignoring_case(a: &str, b: &str) -> (r: bool)
    ensures
        r == (lower(a@) == lower(b@)),
{
    let x: Vec<char> = chars_of(a);
    let y: Vec<char> = chars_of(b);
    if x.len() != y.len() {
        assert(lower(a@).len() != lower(b@).len());
        return false;
    }
    let mut i: usize = 0;
    while i < x.len()
        invariant
            i <= x.len(),
            x.len() == y.len(),
            x@ == a@,
            y@ == b@,
            forall|k: int| 0 <= k < i ==> lower_char(x@[k]) == lower_char(y@[k]),
        decreases x.len() - i,
    {
        if lowered_char(x[i]) != lowered_char(y[i]) {
            assert(lower(a@)[i as int] != lower(b@)[i as int]);
            return false;
        }
        i += 1;
    }
    assert(lower(a@) =~= lower(b@));
    true
}

/// Whether `part` occurs in `v` at position `i`.
fn occurs_here(v: &Vec<char>, part: &Vec<char>, i: usize) -> (r: bool)
    ensures
        r == occurs_at(v@, part@, i as int),
{
    if part.len() > v.len() || i > v.len() - part.len() {
        return false;
    }
    let mut k: usize = 0;
    while k < part.len()
        invariant
            k <= part.len(),
            i + part.len() <= v.len(),
            forall|j: int| 0 <= j < k ==> v@[i + j] == part@[j],
        decreases part.len() - k,
    {
        if v[i + k] != part[k] {
            assert(v@.subrange(i as int, i + part@.len())[k as int] != part@[k as int]);
            return false;
        }
        k += 1;
    }
    assert(v@.subrange(i as int, i + part@.len()) =~= part@);
    true
}

/// Position of the first occurrence of `part` in `s`.
pub fn find_text(s: &str, part: &str) -> (r: Option<usize>)
    ensures
        match r {
            Some(i) => occurs_at(s@, part@, i as int) && forall|k: int|
                0 <= k < i ==> !occurs_at(s@, part@, k),
            None => !contains(s@, part@),
        },
{
    let v: Vec<char> = chars_of(s);
    let p: Vec<char> = chars_of(part);
    let mut i: usize = 0;
    while i < v.len()
        invariant
            i <= v.len(),
            v@ == s@,
            p@ == part@,
            forall|k: int| 0 <= k < i ==> !occurs_at(s@, part@, k),
        decreases v.len() - i,
    {
        if occurs_here(&v, &p, i) {
            return Some(i);
        }
        i += 1;
    }
    if occurs_here(&v, &p, i) {
        return Some(i);
    }
    None
}

/// Whether `part` occurs anywhere in `s`.
pub fn has_text(s: &str, part: &str) -> (r: bool)
    ensures
        r == contains(s@, part@),
{
    match find_text(s, part) {
        Some(_) => true,
        None => false,
    }
}

/// `s` with every occurrence of `part`, from the left, replaced by `with`.
pub open spec fn replaced(s: Seq<char>, part: Seq<char>, with: Seq<char>) -> Seq<char>
    decreases s.len(),
{
    if s.len() == 0 || part.len() == 0 {
        s
    } else if occurs_at(s, part, 0) {
        with + replaced(s.skip(part.len() as int), part, with)
    } else {
        seq![s[0]] + replaced(s.skip(1), part, with)
    }
}

/// `s` with every occurrence of `part`, from the left, replaced by `with`.
pub fn replace_text(s: &str, part: &str, with: &str) -> (r: String)
    requires
        part@.len() > 0,
    ensures
        r@ == replaced(s@, part@, with@),
{
    let v: Vec<char> = chars_of(s);
    let p: Vec<char> = chars_of(part);
    let mut out: String = String::new();
    let mut i: usize = 0;
    assert(s@.skip(0) =~= s@);
    while i < v.len()
        invariant
            i <= v.len(),
            v@ == s@,
            p@ == part@,
            p.len() > 0,
            replaced(s@, part@, with@) == out@ + replaced(s@.skip(i as int), part@, with@),
        decreases v.len() - i,
    {
        let ghost rest = s@.skip(i as int);
        let ghost before = out@;
        let here: bool = occurs_here(&v, &p, i);
        proof {
            if i + part@.len() <= s@.len() {
                assert(rest.subrange(0, part@.len() as int) =~= s@.subrange(
                    i as int,
                    i + part@.len(),
                ));
            }
            assert(here == occurs_at(rest, part@, 0));
        }
        if here {
            out.append(with);
            proof {
                assert(rest.skip(part@.len() as int) =~= s@.skip(i + part@.len()));
                let tail = replaced(s@.skip(i + part@.len()), part@, with@);
                assert(before + (with@ + tail) =~= (before + with@) + tail);
            }
            i += p.len();
        } else {
            out.append(s.substring_char(i, i + 1));
            proof {
                assert(rest.skip(1) =~= s@.skip(i + 1));
                let tail = replaced(s@.skip(i + 1), part@, with@);
                assert(s@.subrange(i as int, i + 1) =~= seq![rest[0]]);
                assert(before + (seq![rest[0]] + tail) =~= (before + seq![rest[0]]) + tail);
            }
            i += 1;
        }
    }
    assert(s@.skip(i as int) =~= Seq::<char>::empty());
    assert(out@ + Seq::<char>::empty() =~= out@);
    out
}

/// Whether `a` comes strictly before `b` in the order of their code points.
pub fn comes_before(a: &str, b: &str) -> (r: bool)
    ensures
        r == precedes(a@, b@),
{
    let x: Vec<char> = chars_of(a);
    let y: Vec<char> = chars_of(b);
    let mut i: usize = 0;
    while i < x.len() && i < y.len() && x[i] == y[i]
        invariant
            i <= x.len(),
            i <= y.len(),
            x@ == a@,
            y@ == b@,
            precedes(a@, b@) == precedes_from(a@, b@, i as nat),
        decreases x.len() - i,
    {
        i += 1;
    }
    if i >= y.len() {
        false
    } else if i >= x.len() {
        true
    } else {
        x[i] < y[i]
    }
}

/// `s` with its ASCII letters in lower case.
pub fn lowered(s: &str) -> (r: String)
    ensures
        r@ == lower(s@),
{
    let alphabet: &str = "abcdefghijklmnopqrstuvwxyz";
    proof {
        reveal_strlit("abcdefghijklmnopqrstuvwxyz");
    }
    let v: Vec<char> = chars_of(s);
    let mut out: String = String::new();
    let mut i: usize = 0;
    while i < v.len()
        invariant
            i <= v.len(),
            v@ == s@,
            alphabet@.len() == 26,
            forall|k: int| 0 <= k < 26 ==> alphabet@[k] as int == 97 + k,
            out@ =~= lower(s@.take(i as int)),
        decreases v.len() - i,
    {
        let c: char = v[i];
        proof {
            assert(s@.take(i + 1) =~= s@.take(i as int).push(c));
            assert(lower(s@.take(i + 1)) =~= lower(s@.take(i as int)).push(lower_char(c)));
        }
        if 'A' <= c && c <= 'Z' {
            let k: usize = (c as u8 - 65) as usize;
            out.append(alphabet.substring_char(k, k + 1));
        } else {
            out.append(s.substring_char(i, i + 1));
        }
        i += 1;
    }
    assert(s@.take(i as int) =~= s@);
    out
}

/// The decimal digits of `n`.
pub fn decimal_text(n: u64) -> (r: String)
    ensures
        r@ == decimal(n as nat),
    decreases n,
{
    let digits: &str = "0123456789";
    proof {
        reveal_strlit("0123456789");
    }
    let d: usize = (n % 10) as usize;
    let last: &str = digits.substring_char(d, d + 1);
    assert(last@ =~= seq![digit(n as nat % 10)]);
    let mut out: String = if n < 10 {
        String::new()
    } else {
        decimal_text(n / 10)
    };
    out.append(last);
    assert(out@ =~= decimal(n as nat));
    out
}


proof fn lemma_order_from(a: Seq<char>, b: Seq<char>, c: Seq<char>, i: nat)
    ensures
        !precedes_from(a, a, i),
        precedes_from(a, b, i) ==> !precedes_from(b, a, i),
        precedes_from(a, b, i) && precedes_from(b, c, i) ==> precedes_from(a, c, i),
        i <= a.len() && i <= b.len() && !precedes_from(a, b, i) && !precedes_from(b, a, i)
            ==> a.skip(i as int) == b.skip(i as int),
    decreases a.len() + b.len() + c.len() - i,
{
    if i < a.len() || i < b.len() || i < c.len() {
        lemma_order_from(a, b, c, i + 1);
        if i < a.len() && i < b.len() && a[i as int] == b[i as int] {
            assert(a.skip(i as int) =~= seq![a[i as int]] + a.skip((i + 1) as int));
            assert(b.skip(i as int) =~= seq![b[i as int]] + b.skip((i + 1) as int));
        }
    } else {
        if i <= a.len() && i <= b.len() {
            assert(a.skip(i as int) =~= b.skip(i as int));
        }
    }
}

/// The order of texts is a strict total order: no text precedes itself, no two
/// texts precede each other, precedence is transitive, and of two different
/// texts one precedes the other.
pub proof fn text_order_is_strict_and_total(a: Seq<char>, b: Seq<char>, c: Seq<char>)
    ensures
        !precedes(a, a),
        !(precedes(a, b) && precedes(b, a)),
        precedes(a, b) && precedes(b, c) ==> precedes(a, c),
        a == b || precedes(a, b) || precedes(b, a),
{
    lemma_order_from(a, b, c, 0);
    assert(a.skip(0) =~= a);
    assert(b.skip(0) =~= b);
}

proof fn lemma_trim_end_shape(s: Seq<char>)
    ensures
        trim_end(s).len() <= s.len(),
        trim_end(s) == s.take(trim_end(s).len() as int),
        trim_end(s).len() > 0 ==> !is_white_space(trim_end(s).last()),
        forall|k: int| trim_end(s).len() <= k < s.len() ==> is_white_space(#[trigger] s[k]),
    decreases s.len(),
{
    if s.len() > 0 && is_white_space(s.last()) {
        lemma_trim_end_shape(s.drop_last());
        let n = trim_end(s).len() as int;
        assert(s.drop_last().take(n) =~= s.take(n));
        assert forall|k: int| n <= k < s.len() implies is_white_space(#[trigger] s[k]) by {
            if k < s.len() - 1 {
                assert(s.drop_last()[k] == s[k]);
            }
        }
    } else {
        assert(s.take(s.len() as int) =~= s);
    }
}

proof fn lemma_trim_start_shape(s: Seq<char>)
    ensures
        trim_start(s).len() <= s.len(),
        trim_start(s) == s.skip(s.len() - trim_start(s).len()),
        trim_start(s).len() > 0 ==> !is_white_space(trim_start(s)[0]),
        forall|k: int|
            0 <= k < s.len() - trim_start(s).len() ==> is_white_space(#[trigger] s[k]),
    decreases s.len(),
{
    if s.len() > 0 && is_white_space(s[0]) {
        let t = s.drop_first();
        lemma_trim_start_shape(t);
        let n = trim_start(s).len() as int;
        assert(t.skip(t.len() - n) =~= s.skip(s.len() - n));
        assert forall|k: int| 0 <= k < s.len() - n implies is_white_space(#[trigger] s[k]) by {
            if k > 0 {
                assert(t[k - 1] == s[k]);
            }
        }
    } else {
        assert(s.skip(0) =~= s);
    }
}

/// Trimming cuts one piece out of a text: what is kept neither begins nor ends
/// in white space, and what is cut off is white space. Trimming again changes
/// nothing.
pub proof fn trim_keeps_the_middle(s: Seq<char>)
    ensures
        exists|i: int, j: int|
            #![trigger s.subrange(i, j)]
            0 <= i <= j <= s.len() && trim(s) == s.subrange(i, j) && (forall|k: int|
                0 <= k < i ==> is_white_space(#[trigger] s[k])) && (forall|k: int|
                j <= k < s.len() ==> is_white_space(#[trigger] s[k])),
        trim(s).len() > 0 ==> !is_white_space(trim(s)[0]) && !is_white_space(trim(s).last()),
        trim(trim(s)) == trim(s),
{
    let t = trim_start(s);
    lemma_trim_start_shape(s);
    lemma_trim_end_shape(t);
    let i = s.len() - t.len();
    let j = i + trim(s).len();
    assert(trim(s) =~= s.subrange(i, j));
    assert forall|k: int| j <= k < s.len() implies is_white_space(#[trigger] s[k]) by {
        assert(t[k - i] == s[k]);
    }
    if trim(s).len() > 0 {
        assert(trim(s)[0] == t[0]);
    }
}

/// A text that begins with a character other than white space does not trim to
/// nothing.
pub proof fn lemma_trim_not_blank(s: Seq<char>)
    requires
        s.len() > 0,
        !is_white_space(s[0]),
    ensures
        trim(s).len() > 0,
{
    lemma_trim_end_shape(s);
    if trim_end(s).len() == 0 {
        assert(is_white_space(s[0]));
    }
}

/// A text that neither begins nor ends in white space is left as it is by
/// trimming.
pub proof fn lemma_trim_of_solid(s: Seq<char>)
    requires
        s.len() > 0 ==> !is_white_space(s[0]) && !is_white_space(s.last()),
    ensures
        trim(s) == s,
{
}

/// Folding the case of a text twice is folding it once.
pub proof fn lower_is_idempotent(s: Seq<char>)
    ensures
        lower(lower(s)) == lower(s),
        lower(s).len() == s.len(),
{
    assert(lower(lower(s)) =~= lower(s));
}


/// The number that a text of decimal digits stands for.
pub open spec fn number_of(s: Seq<char>) -> nat
    decreases s.len(),
{
    if s.len() == 0 {
        0
    } else {
        (10 * number_of(s.drop_last()) + (s.last() as int - 48)) as nat
    }
}

/// A number written in decimal reads back as itself, in digits alone, and without
/// a leading zero unless it is zero.
pub proof fn a_decimal_reads_back(n: nat)
    ensures
        number_of(decimal(n)) == n,
        decimal(n).len() > 0,
        forall|i: int| 0 <= i < decimal(n).len() ==> '0' <= #[trigger] decimal(n)[i] <= '9',
        n > 0 ==> decimal(n)[0] != '0',
        n == 0 ==> decimal(n) == seq!['0'],
    decreases n,
{
    let text = decimal(n);
    if n < 10 {
        assert(text.drop_last() =~= Seq::empty());
        assert(number_of(text.drop_last()) == 0);
        assert(text.last() == digit(n));
    } else {
        a_decimal_reads_back(n / 10);
        assert(text.drop_last() =~= decimal(n / 10));
        assert(text.last() == digit(n % 10));
        assert(text[0] == decimal(n / 10)[0]);
        assert forall|i: int| 0 <= i < text.len() implies '0' <= #[trigger] text[i] <= '9' by {
            if i < text.len() - 1 {
                assert(text[i] == decimal(n / 10)[i]);
            }
        }
    }
}

/// Only ASCII capitals are folded, each to its small letter; every other
/// character stays, and so does every position.
pub proof fn folding_touches_ascii_capitals_alone(s: Seq<char>, i: int)
    requires
        0 <= i < s.len(),
    ensures
        lower(s).len() == s.len(),
        'A' <= s[i] <= 'Z' ==> lower(s)[i] as int == s[i] as int + 32,
        !('A' <= s[i] <= 'Z') ==> lower(s)[i] == s[i],
{
}

/// One text comes before another exactly where they differ first by a lesser
/// character, or where it is a proper beginning of the other.
pub proof fn texts_are_ordered_by_their_first_difference(a: Seq<char>, b: Seq<char>, n: int)
    requires
        0 <= n <= a.len(),
        n <= b.len(),
        forall|i: int| 0 <= i < n ==> a[i] == b[i],
        n == a.len() || n == b.len() || a[n] != b[n],
    ensures
        precedes(a, b) <==> n < b.len() && (n == a.len() || a[n] < b[n]),
{
    lemma_first_difference(a, b, n, 0);
}

proof fn lemma_first_difference(a: Seq<char>, b: Seq<char>, n: int, i: nat)
    requires
        i <= n <= a.len(),
        n <= b.len(),
        forall|k: int| 0 <= k < n ==> a[k] == b[k],
        n == a.len() || n == b.len() || a[n] != b[n],
    ensures
        precedes_from(a, b, i) <==> n < b.len() && (n == a.len() || a[n] < b[n]),
    decreases n - i,
{
    if i < n {
        lemma_first_difference(a, b, n, i + 1);
    }
}

/// A text without the part keeps every character; otherwise the first occurrence
/// is replaced, and what follows it is treated the same way.
pub proof fn the_first_occurrence_is_replaced(
    s: Seq<char>,
    part: Seq<char>,
    with: Seq<char>,
    i: int,
)
    requires
        part.len() > 0,
    ensures
        (forall|j: int| !#[trigger] occurs_at(s, part, j)) ==> replaced(s, part, with) == s,
        occurs_at(s, part, i) && (forall|j: int| 0 <= j < i ==> !#[trigger] occurs_at(s, part, j))
            ==> replaced(s, part, with) == s.take(i) + with + replaced(
            s.skip(i + part.len()),
            part,
            with,
        ),
    decreases s.len(),
{
    if s.len() > 0 && !occurs_at(s, part, 0) {
        let rest = s.skip(1);
        the_first_occurrence_is_replaced(rest, part, with, i - 1);
        assert forall|j: int| #[trigger] occurs_at(rest, part, j) implies occurs_at(
            s,
            part,
            j + 1,
        ) by {
            assert(s.subrange(j + 1, j + 1 + part.len()) =~= rest.subrange(j, j + part.len()));
        }
        if forall|j: int| !#[trigger] occurs_at(s, part, j) {
            assert forall|j: int| !#[trigger] occurs_at(rest, part, j) by {
                if occurs_at(rest, part, j) {
                    assert(occurs_at(s, part, j + 1));
                }
            }
            assert(seq![s[0]] + rest =~= s);
        }
        if occurs_at(s, part, i) && (forall|j: int|
            0 <= j < i ==> !#[trigger] occurs_at(s, part, j)) {
            assert(rest.subrange(i - 1, i - 1 + part.len()) =~= s.subrange(i, i + part.len()));
            assert(occurs_at(rest, part, i - 1));
            assert forall|j: int| 0 <= j < i - 1 implies !#[trigger] occurs_at(rest, part, j) by {
                if occurs_at(rest, part, j) {
                    assert(occurs_at(s, part, j + 1));
                }
            }
            assert(rest.skip(i - 1 + part.len()) =~= s.skip(i + part.len()));
            assert(seq![s[0]] + rest.take(i - 1) =~= s.take(i));
            assert(seq![s[0]] + (rest.take(i - 1) + with + replaced(
                rest.skip(i - 1 + part.len()),
                part,
                with,
            )) =~= s.take(i) + with + replaced(s.skip(i + part.len()), part, with));
        }
    } else if s.len() > 0 {
        if occurs_at(s, part, i) && (forall|j: int|
            0 <= j < i ==> !#[trigger] occurs_at(s, part, j)) {
            assert(i == 0);
            assert(s.take(0) + with =~= with);
        }
    }
}

/// One trailing character is taken off where it is there, and all of them where
/// all are asked for.
pub proof fn trailing_characters_are_taken_off(s: Seq<char>, c: char)
    ensures
        strip_last(s.push(c), c) == s,
        trim_end_char(s.push(c), c) == trim_end_char(s, c),
        s.len() == 0 || s.last() != c ==> strip_last(s, c) == s && trim_end_char(s, c) == s,
{
    assert(s.push(c).drop_last() =~= s);
}


/// What white space is: of the ASCII characters the tab, the line and form feeds,
/// the carriage return and the space; of the others the Unicode separators, none
/// of them beyond the ideographic space.
pub proof fn white_space_is_what_unicode_calls_so(c: char)
    ensures
        (c as u32) < 0x80 ==> (is_white_space(c) <==> c == '\t' || c == '\n' || c == '\r' || c
            == ' ' || c as u32 == 0xb || c as u32 == 0xc),
        0x80 <= c as u32 && (c as u32) < 0x2000 ==> (is_white_space(c) <==> c as u32 == 0x85
            || c as u32 == 0xa0 || c as u32 == 0x1680),
        0x2000 <= c as u32 && (c as u32) < 0x2010 ==> (is_white_space(c) <==> c as u32 <= 0x200a),
        0x2010 <= c as u32 ==> (is_white_space(c) <==> c as u32 == 0x2028 || c as u32 == 0x2029
            || c as u32 == 0x202f || c as u32 == 0x205f || c as u32 == 0x3000),
{
}

} // verus!
