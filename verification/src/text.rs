//! Verified text building blocks: conversions between strings and character
//! vectors, decimal rendering of integers, and padding.
//!
//! Transcripts, command lines and report lines are all built from these, so
//! every contract speaks of the `Seq<char>` view of the strings involved.

use vstd::prelude::*;
use vstd::string::StrSliceExecFns;

verus! {

/// Relies on `String::push`: appends exactly the one character to the string.
#[verifier::external_body]
pub fn push_char(s: &mut String, c: char)
    ensures
        final(s)@ == old(s)@.push(c),
{
    s.push(c);
}

/// The characters of `s`, in order, as a vector.
pub fn str_chars(s: &str) -> (r: Vec<char>)
    ensures
        r@ == s@,
{
    let n = s.unicode_len();
    let mut r: Vec<char> = Vec::new();
    let mut i: usize = 0;
    while i < n
        invariant
            i <= n,
            n == s@.len(),
            r@ == s@.subrange(0, i as int),
        decreases n - i,
    {
        r.push(s.get_char(i));
        i = i + 1;
        assert(r@ =~= s@.subrange(0, i as int));
    }
    assert(r@ =~= s@);
    r
}

/// A string holding exactly the characters of `v`, in order.
pub fn string_from_chars(v: &Vec<char>) -> (r: String)
    ensures
        r@ == v@,
{
    let mut r = String::new();
    let mut i: usize = 0;
    while i < v.len()
        invariant
            i <= v.len(),
            r@ == v@.subrange(0, i as int),
        decreases v.len() - i,
    {
        push_char(&mut r, v[i]);
        i = i + 1;
        assert(r@ =~= v@.subrange(0, i as int));
    }
    assert(r@ =~= v@);
    r
}

/// The character for one decimal digit.
pub open spec fn digit_char(d: int) -> char {
    if d == 0 {
        '0'
    } else if d == 1 {
        '1'
    } else if d == 2 {
        '2'
    } else if d == 3 {
        '3'
    } else if d == 4 {
        '4'
    } else if d == 5 {
        '5'
    } else if d == 6 {
        '6'
    } else if d == 7 {
        '7'
    } else if d == 8 {
        '8'
    } else {
        '9'
    }
}

/// Decimal notation of a natural number, most significant digit first.
pub open spec fn spec_decimal(n: nat) -> Seq<char>
    decreases n,
{
    if n < 10 {
        seq![digit_char(n as int)]
    } else {
        spec_decimal((n / 10) as nat).push(digit_char((n % 10) as int))
    }
}

/// Decimal notation of an integer: a minus sign before the magnitude when
/// negative.
pub open spec fn spec_decimal_signed(n: int) -> Seq<char> {
    if n >= 0 {
        spec_decimal(n as nat)
    } else {
        seq!['-'] + spec_decimal((-n) as nat)
    }
}

pub fn digit_to_char(d: u64) -> (c: char)
    requires
        d < 10,
    ensures
        c == digit_char(d as int),
{
    match d {
        0 => '0',
        1 => '1',
        2 => '2',
        3 => '3',
        4 => '4',
        5 => '5',
        6 => '6',
        7 => '7',
        8 => '8',
        _ => '9',
    }
}

/// `n` written in decimal.
pub fn u64_to_string(n: u64) -> (r: String)
    ensures
        r@ == spec_decimal(n as nat),
    decreases n,
{
    if n < 10 {
        let mut s = String::new();
        push_char(&mut s, digit_to_char(n));
        s
    } else {
        let mut s = u64_to_string(n / 10);
        push_char(&mut s, digit_to_char(n % 10));
        s
    }
}

/// `n` written in decimal, with a minus sign when negative.
pub fn i64_to_string(n: i64) -> (r: String)
    ensures
        r@ == spec_decimal_signed(n as int),
{
    if n >= 0 {
        u64_to_string(n as u64)
    } else {
        let magnitude: u64 = if n == i64::MIN {
            9223372036854775808u64
        } else {
            (-n) as u64
        };
        assert(magnitude == -(n as int));
        let mut s = String::new();
        push_char(&mut s, '-');
        let digits = u64_to_string(magnitude);
        s.append(digits.as_str());
        s
    }
}

/// A run of `n` spaces.
pub open spec fn spec_spaces(n: nat) -> Seq<char>
    decreases n,
{
    if n == 0 {
        Seq::empty()
    } else {
        spec_spaces((n - 1) as nat).push(' ')
    }
}

/// `s` padded on the right with spaces to at least `width` characters.
pub open spec fn spec_pad_right(s: Seq<char>, width: nat) -> Seq<char> {
    if s.len() >= width {
        s
    } else {
        s + spec_spaces((width - s.len()) as nat)
    }
}

/// `s` followed by spaces until it is at least `width` characters wide.
pub fn pad_right(s: &str, width: usize) -> (r: String)
    ensures
        r@ == spec_pad_right(s@, width as nat),
{
    let n = s.unicode_len();
    let mut r = s.to_owned();
    if n >= width {
        return r;
    }
    let mut i: usize = n;
    while i < width
        invariant
            n <= i <= width,
            n == s@.len(),
            r@ == s@ + spec_spaces((i - n) as nat),
        decreases width - i,
    {
        push_char(&mut r, ' ');
        i = i + 1;
        assert(r@ =~= s@ + spec_spaces((i - n) as nat));
    }
    r
}

/// Append a string to a vector of strings; the vector's character image
/// grows by exactly that string's characters.
pub fn push_string(v: &mut Vec<String>, s: String)
    ensures
        final(v).deep_view() == old(v).deep_view().push(s@),
{
    let ghost prev_vec: Seq<String> = v@;
    let ghost sv: Seq<char> = s@;
    v.push(s);
    proof {
        let target = old(v).deep_view().push(sv);
        assert forall|k: int| 0 <= k < v@.len() implies #[trigger] v.deep_view()[k] == target[k] by {
            if k < prev_vec.len() {
                assert(v@[k] == prev_vec[k]);
                assert(old(v).deep_view()[k] == prev_vec[k].deep_view());
            } else {
                assert(v@[k] == s);
            }
        }
        assert(v.deep_view() =~= target);
    }
}

/// Do two string slices hold the same characters?
pub fn str_eq(a: &str, b: &str) -> (r: bool)
    ensures
        r == (a@ == b@),
{
    let na = a.unicode_len();
    let nb = b.unicode_len();
    if na != nb {
        return false;
    }
    let mut i: usize = 0;
    while i < na
        invariant
            i <= na,
            na == a@.len(),
            na == b@.len(),
            forall|k: int| 0 <= k < i ==> a@[k] == b@[k],
        decreases na - i,
    {
        if a.get_char(i) != b.get_char(i) {
            return false;
        }
        i = i + 1;
    }
    proof {
        assert(a@ =~= b@);
    }
    true
}

/// The whitespace characters commands are split on.
pub open spec fn is_space_char(c: char) -> bool {
    c == ' ' || c == '\t' || c == '\n' || c == '\r'
}

fn is_space(c: char) -> (r: bool)
    ensures
        r == is_space_char(c),
{
    c == ' ' || c == '\t' || c == '\n' || c == '\r'
}

/// The longest prefix of `s` free of whitespace.
pub open spec fn token_prefix(s: Seq<char>) -> Seq<char>
    decreases s.len(),
{
    if s.len() == 0 || is_space_char(s[0]) {
        Seq::empty()
    } else {
        seq![s[0]] + token_prefix(s.drop_first())
    }
}

pub proof fn lemma_token_prefix(s: Seq<char>)
    ensures
        token_prefix(s).len() <= s.len(),
        s.len() > 0 && !is_space_char(s[0]) ==> token_prefix(s).len() >= 1,
        token_prefix(s) == s.take(token_prefix(s).len() as int),
        forall|k: int| 0 <= k < token_prefix(s).len() ==> !is_space_char(#[trigger] s[k]),
        token_prefix(s).len() < s.len() ==> is_space_char(s[token_prefix(s).len() as int]),
    decreases s.len(),
{
    if s.len() == 0 || is_space_char(s[0]) {
        assert(token_prefix(s) =~= s.take(0));
    } else {
        let rest = s.drop_first();
        lemma_token_prefix(rest);
        assert(token_prefix(s) =~= s.take(token_prefix(s).len() as int)) by {
            assert(forall|k: int| 0 <= k < token_prefix(rest).len() ==> token_prefix(rest)[k]
                == rest[k]);
        }
        assert forall|k: int| 1 <= k < token_prefix(s).len() implies !is_space_char(
            #[trigger] s[k],
        ) by {
            assert(s[k] == rest[k - 1]);
            assert(k - 1 < token_prefix(rest).len());
        }
    }
}

/// The whitespace-separated words of `s`, in order, empty words dropped.
pub open spec fn spec_tokens(s: Seq<char>) -> Seq<Seq<char>>
    decreases s.len(),
    via spec_tokens_dec
{
    if s.len() == 0 {
        Seq::empty()
    } else if is_space_char(s[0]) {
        spec_tokens(s.drop_first())
    } else {
        seq![token_prefix(s)] + spec_tokens(s.skip(token_prefix(s).len() as int))
    }
}

#[via_fn]
proof fn spec_tokens_dec(s: Seq<char>) {
    if s.len() > 0 && !is_space_char(s[0]) {
        lemma_token_prefix(s);
    }
}

/// Splitting the tail of `s` behind a clean prefix boundary leaves the word
/// list unchanged: scanning may resume at any point up to which every word
/// has been taken whole.
proof fn lemma_tokens_skip_space(s: Seq<char>, i: int)
    requires
        0 <= i < s.len(),
        is_space_char(s[i]),
    ensures
        spec_tokens(s.skip(i)) == spec_tokens(s.skip(i + 1)),
{
    assert(s.skip(i).len() > 0);
    assert(s.skip(i)[0] == s[i]);
    assert(s.skip(i).drop_first() =~= s.skip(i + 1));
}

/// The words of `s`, split on whitespace, as strings.
pub fn split_tokens(s: &str) -> (r: Vec<String>)
    ensures
        r.deep_view() == spec_tokens(s@),
{
    let v = str_chars(s);
    let n = v.len();
    let mut r: Vec<String> = Vec::new();
    let mut i: usize = 0;
    proof {
        assert(s@.skip(0) =~= s@);
        assert(r.deep_view() =~= Seq::<Seq<char>>::empty());
        assert(Seq::<Seq<char>>::empty() + spec_tokens(s@) =~= spec_tokens(s@));
    }
    while i < n
        invariant
            i <= n,
            n == s@.len(),
            v@ == s@,
            spec_tokens(s@) == r.deep_view() + spec_tokens(s@.skip(i as int)),
        decreases n - i,
    {
        if is_space(v[i]) {
            proof {
                lemma_tokens_skip_space(s@, i as int);
            }
            i = i + 1;
        } else {
            let start = i;
            let mut j = i + 1;
            while j < n && !(v[j] == ' ' || v[j] == '\t' || v[j] == '\n' || v[j] == '\r')
                invariant
                    start < j <= n,
                    n == s@.len(),
                    v@ == s@,
                    forall|k: int| start <= k < j ==> !is_space_char(#[trigger] s@[k]),
                    !is_space_char(s@[start as int]),
                decreases n - j,
            {
                j = j + 1;
            }
            assert(j < n ==> is_space_char(s@[j as int]));
            let mut word: Vec<char> = Vec::new();
            let mut k = start;
            while k < j
                invariant
                    start <= k <= j <= n,
                    v@ == s@,
                    n == s@.len(),
                    word@ == s@.subrange(start as int, k as int),
                decreases j - k,
            {
                word.push(v[k]);
                k = k + 1;
                assert(word@ =~= s@.subrange(start as int, k as int));
            }
            proof {
                let tail = s@.skip(start as int);
                lemma_token_prefix(tail);
                assert(forall|m: int| 0 <= m < j - start ==> tail[m] == s@[start + m]);
                assert(j < n ==> is_space_char(tail[j - start]));
                // the scanned word is exactly the token prefix of the tail
                assert(token_prefix(tail).len() == j - start) by {
                    if token_prefix(tail).len() < j - start {
                        assert(is_space_char(tail[token_prefix(tail).len() as int]));
                        assert(is_space_char(s@[start + token_prefix(tail).len()]));
                    }
                    if token_prefix(tail).len() > j - start {
                        assert(!is_space_char(tail[(j - start) as int]));
                    }
                }
                assert(token_prefix(tail) =~= word@) by {
                    assert(forall|m: int| 0 <= m < j - start ==> #[trigger] tail.take(j - start)[m]
                        == s@[start + m]);
                }
                assert(tail.skip((j - start) as int) =~= s@.skip(j as int));
                assert(spec_tokens(tail) == seq![word@] + spec_tokens(s@.skip(j as int)));
            }
            let ghost old_r = r.deep_view();
            r.push(string_from_chars(&word));
            proof {
                assert(r.deep_view() =~= old_r + seq![word@]);
                assert(old_r + seq![word@] + spec_tokens(s@.skip(j as int)) =~= old_r + (seq![
                    word@
                ] + spec_tokens(s@.skip(j as int))));
            }
            i = j;
        }
    }
    proof {
        assert(s@.skip(n as int) =~= Seq::<char>::empty());
        assert(spec_tokens(s@) =~= r.deep_view() + Seq::<Seq<char>>::empty());
        assert(r.deep_view() + Seq::<Seq<char>>::empty() =~= r.deep_view());
    }
    r
}

/// The longest prefix of `s` free of `sep`.
pub open spec fn prefix_until(s: Seq<char>, sep: char) -> Seq<char>
    decreases s.len(),
{
    if s.len() == 0 || s[0] == sep {
        Seq::empty()
    } else {
        seq![s[0]] + prefix_until(s.drop_first(), sep)
    }
}

pub proof fn lemma_prefix_until(s: Seq<char>, sep: char)
    ensures
        prefix_until(s, sep).len() <= s.len(),
        prefix_until(s, sep) == s.take(prefix_until(s, sep).len() as int),
        forall|k: int| 0 <= k < prefix_until(s, sep).len() ==> s[k] != sep,
        prefix_until(s, sep).len() < s.len() ==> s[prefix_until(s, sep).len() as int] == sep,
    decreases s.len(),
{
    if s.len() == 0 || s[0] == sep {
        assert(prefix_until(s, sep) =~= s.take(0));
    } else {
        let rest = s.drop_first();
        lemma_prefix_until(rest, sep);
        assert(prefix_until(s, sep) =~= s.take(prefix_until(s, sep).len() as int)) by {
            assert(forall|k: int| 0 <= k < prefix_until(rest, sep).len() ==> prefix_until(
                rest,
                sep,
            )[k] == rest[k]);
        }
        assert forall|k: int| 1 <= k < prefix_until(s, sep).len() implies s[k] != sep by {
            assert(s[k] == rest[k - 1]);
            assert(k - 1 < prefix_until(rest, sep).len());
        }
    }
}

/// `s` cut at every occurrence of `sep`: one piece more than there are
/// separators, empty pieces kept.
pub open spec fn spec_split_char(s: Seq<char>, sep: char) -> Seq<Seq<char>>
    decreases s.len(),
    via spec_split_char_dec
{
    let p = prefix_until(s, sep);
    if p.len() == s.len() {
        seq![s]
    } else {
        seq![p] + spec_split_char(s.skip(p.len() as int + 1), sep)
    }
}

#[via_fn]
proof fn spec_split_char_dec(s: Seq<char>, sep: char) {
    lemma_prefix_until(s, sep);
}

/// The words of `s`, split at every occurrence of `sep`.
pub fn split_char(s: &str, sep: char) -> (r: Vec<String>)
    ensures
        r.deep_view() == spec_split_char(s@, sep),
{
    let v = str_chars(s);
    let n = v.len();
    let mut r: Vec<String> = Vec::new();
    let mut i: usize = 0;
    proof {
        assert(s@.skip(0) =~= s@);
        assert(r.deep_view() =~= Seq::<Seq<char>>::empty());
        assert(Seq::<Seq<char>>::empty() + spec_split_char(s@, sep) =~= spec_split_char(s@, sep));
    }
    loop
        invariant_except_break
            i <= n,
            n == s@.len(),
            v@ == s@,
            spec_split_char(s@, sep) == r.deep_view() + spec_split_char(s@.skip(i as int), sep),
        ensures
            r.deep_view() == spec_split_char(s@, sep),
        decreases n - i,
    {
        let mut j = i;
        while j < n && v[j] != sep
            invariant
                i <= j <= n,
                n == s@.len(),
                v@ == s@,
                forall|k: int| i <= k < j ==> s@[k] != sep,
            decreases n - j,
        {
            j = j + 1;
        }
        let mut piece: Vec<char> = Vec::new();
        let mut k = i;
        while k < j
            invariant
                i <= k <= j <= n,
                v@ == s@,
                n == s@.len(),
                piece@ == s@.subrange(i as int, k as int),
            decreases j - k,
        {
            piece.push(v[k]);
            k = k + 1;
            assert(piece@ =~= s@.subrange(i as int, k as int));
        }
        proof {
            let tail = s@.skip(i as int);
            lemma_prefix_until(tail, sep);
            assert(forall|m: int| 0 <= m < tail.len() ==> tail[m] == s@[i + m]);
            assert(prefix_until(tail, sep).len() == j - i) by {
                if prefix_until(tail, sep).len() < j - i {
                    assert(tail[prefix_until(tail, sep).len() as int] == sep);
                }
                if prefix_until(tail, sep).len() > j - i {
                    assert(j < n);
                    assert(tail[(j - i) as int] != sep);
                }
            }
            assert(prefix_until(tail, sep) =~= piece@) by {
                assert(forall|m: int| 0 <= m < j - i ==> #[trigger] tail.take(j - i)[m] == s@[i
                    + m]);
            }
        }
        let ghost old_r = r.deep_view();
        r.push(string_from_chars(&piece));
        proof {
            assert(r.deep_view() =~= old_r.push(piece@));
        }
        if j == n {
            proof {
                let tail = s@.skip(i as int);
                assert(tail =~= piece@);
                assert(spec_split_char(tail, sep) == seq![tail]);
                assert(old_r.push(piece@) =~= old_r + seq![tail]);
            }
            break;
        }
        proof {
            let tail = s@.skip(i as int);
            assert(spec_split_char(tail, sep) == seq![piece@] + spec_split_char(
                tail.skip((j - i) as int + 1),
                sep,
            ));
            assert(tail.skip((j - i) as int + 1) =~= s@.skip(j as int + 1));
            assert(old_r.push(piece@) + spec_split_char(s@.skip(j as int + 1), sep) =~= old_r + (
            seq![piece@] + spec_split_char(s@.skip(j as int + 1), sep)));
        }
        i = j + 1;
    }
    r
}

/// A line with a carriage return left before its line feed loses it.
pub open spec fn strip_cr(l: Seq<char>) -> Seq<char> {
    if l.len() > 0 && l.last() == '\r' {
        l.drop_last()
    } else {
        l
    }
}

/// The lines of `s`: pieces between line feeds, a final line ending
/// ignored, a carriage return before a line feed stripped.
pub open spec fn spec_lines(s: Seq<char>) -> Seq<Seq<char>> {
    if s.len() == 0 {
        Seq::empty()
    } else {
        let body = if s.last() == '\n' {
            s.drop_last()
        } else {
            s
        };
        spec_split_char(body, '\n').map_values(|l: Seq<char>| strip_cr(l))
    }
}

/// The lines of `s`, as strings.
pub fn split_lines(s: &str) -> (r: Vec<String>)
    ensures
        r.deep_view() == spec_lines(s@),
{
    let v = str_chars(s);
    let n = v.len();
    if n == 0 {
        let r: Vec<String> = Vec::new();
        proof {
            assert(r.deep_view() =~= spec_lines(s@));
        }
        return r;
    }
    let m: usize = if v[n - 1] == '\n' {
        n - 1
    } else {
        n
    };
    let ghost body = if s@.last() == '\n' {
        s@.drop_last()
    } else {
        s@
    };
    proof {
        assert(body =~= s@.take(m as int));
    }
    let pieces = split_char_range(&v, m, '\n');
    proof {
        assert(pieces.deep_view() == spec_split_char(body, '\n'));
    }
    let mut r: Vec<String> = Vec::new();
    let mut i: usize = 0;
    while i < pieces.len()
        invariant
            i <= pieces@.len(),
            pieces.deep_view() == spec_split_char(body, '\n'),
            r.deep_view() == spec_split_char(body, '\n').map_values(
                |l: Seq<char>| strip_cr(l),
            ).take(i as int),
        decreases pieces@.len() - i,
    {
        let piece = &pieces[i];
        let stripped: String = strip_cr_exec(piece);
        push_string(&mut r, stripped);
        i = i + 1;
        proof {
            assert(r.deep_view() =~= spec_split_char(body, '\n').map_values(
                |l: Seq<char>| strip_cr(l),
            ).take(i as int));
        }
    }
    proof {
        assert(r.deep_view() =~= spec_lines(s@));
    }
    r
}

fn strip_cr_exec(piece: &String) -> (r: String)
    ensures
        r@ == strip_cr(piece@),
{
    let chars = str_chars(piece.as_str());
    let n = chars.len();
    if n > 0 && chars[n - 1] == '\r' {
        let mut out: Vec<char> = Vec::new();
        let mut k: usize = 0;
        while k < n - 1
            invariant
                k <= n - 1,
                n == chars@.len(),
                chars@ == piece@,
                out@ == piece@.subrange(0, k as int),
            decreases n - 1 - k,
        {
            out.push(chars[k]);
            k = k + 1;
            assert(out@ =~= piece@.subrange(0, k as int));
        }
        let r = string_from_chars(&out);
        proof {
            assert(r@ =~= strip_cr(piece@));
        }
        r
    } else {
        piece.clone()
    }
}

/// The pieces of the first `m` characters of `v`, split at `sep`.
fn split_char_range(v: &Vec<char>, m: usize, sep: char) -> (r: Vec<String>)
    requires
        m <= v@.len(),
    ensures
        r.deep_view() == spec_split_char(v@.take(m as int), sep),
{
    let ghost s = v@.take(m as int);
    let mut r: Vec<String> = Vec::new();
    let mut i: usize = 0;
    proof {
        assert(s.skip(0) =~= s);
        assert(r.deep_view() =~= Seq::<Seq<char>>::empty());
        assert(Seq::<Seq<char>>::empty() + spec_split_char(s, sep) =~= spec_split_char(s, sep));
    }
    loop
        invariant_except_break
            i <= m,
            m <= v@.len(),
            s == v@.take(m as int),
            spec_split_char(s, sep) == r.deep_view() + spec_split_char(s.skip(i as int), sep),
        ensures
            r.deep_view() == spec_split_char(v@.take(m as int), sep),
        decreases m - i,
    {
        let mut j = i;
        while j < m && v[j] != sep
            invariant
                i <= j <= m,
                m <= v@.len(),
                s == v@.take(m as int),
                forall|k: int| i <= k < j ==> s[k] != sep,
            decreases m - j,
        {
            j = j + 1;
        }
        let mut piece: Vec<char> = Vec::new();
        let mut k = i;
        while k < j
            invariant
                i <= k <= j <= m,
                m <= v@.len(),
                s == v@.take(m as int),
                piece@ == s.subrange(i as int, k as int),
            decreases j - k,
        {
            piece.push(v[k]);
            k = k + 1;
            assert(piece@ =~= s.subrange(i as int, k as int));
        }
        proof {
            let tail = s.skip(i as int);
            lemma_prefix_until(tail, sep);
            assert(forall|q: int| 0 <= q < tail.len() ==> tail[q] == s[i + q]);
            assert(prefix_until(tail, sep).len() == j - i) by {
                if prefix_until(tail, sep).len() < j - i {
                    assert(tail[prefix_until(tail, sep).len() as int] == sep);
                }
                if prefix_until(tail, sep).len() > j - i {
                    assert(j < m);
                    assert(tail[(j - i) as int] != sep);
                }
            }
            assert(prefix_until(tail, sep) =~= piece@) by {
                assert(forall|q: int| 0 <= q < j - i ==> #[trigger] tail.take(j - i)[q] == s[i
                    + q]);
            }
        }
        let ghost old_r = r.deep_view();
        r.push(string_from_chars(&piece));
        proof {
            assert(r.deep_view() =~= old_r.push(piece@));
        }
        if j == m {
            proof {
                let tail = s.skip(i as int);
                assert(tail =~= piece@);
                assert(spec_split_char(tail, sep) == seq![tail]);
                assert(old_r.push(piece@) =~= old_r + seq![tail]);
            }
            break;
        }
        proof {
            let tail = s.skip(i as int);
            assert(spec_split_char(tail, sep) == seq![piece@] + spec_split_char(
                tail.skip((j - i) as int + 1),
                sep,
            ));
            assert(tail.skip((j - i) as int + 1) =~= s.skip(j as int + 1));
            assert(old_r.push(piece@) + spec_split_char(s.skip(j as int + 1), sep) =~= old_r + (
            seq![piece@] + spec_split_char(s.skip(j as int + 1), sep)));
        }
        i = j + 1;
    }
    r
}

/// Does `haystack` hold `needle` as a contiguous run of characters?
pub open spec fn contains_seq(haystack: Seq<char>, needle: Seq<char>) -> bool {
    exists|off: int|
        0 <= off && off + needle.len() <= haystack.len() && #[trigger] haystack.subrange(
            off,
            off + needle.len(),
        ) == needle
}

/// Does the string hold `needle` as a substring?
pub fn str_contains(haystack: &str, needle: &str) -> (r: bool)
    ensures
        r == contains_seq(haystack@, needle@),
{
    let h = str_chars(haystack);
    let nd = str_chars(needle);
    let hn = h.len();
    let nn = nd.len();
    if nn > hn {
        return false;
    }
    let mut off: usize = 0;
    while off <= hn - nn
        invariant
            nn <= hn,
            hn == haystack@.len(),
            nn == needle@.len(),
            h@ == haystack@,
            nd@ == needle@,
            off <= hn - nn + 1,
            forall|o: int|
                0 <= o < off ==> #[trigger] haystack@.subrange(o, o + needle@.len()) != needle@,
        decreases hn - nn - off + 1,
    {
        let mut k: usize = 0;
        while k < nn && h[off + k] == nd[k]
            invariant
                off + nn <= hn,
                hn == haystack@.len(),
                nn == needle@.len(),
                h@ == haystack@,
                nd@ == needle@,
                k <= nn,
                forall|q: int| 0 <= q < k ==> haystack@[off + q] == needle@[q],
            decreases nn - k,
        {
            k = k + 1;
        }
        if k == nn {
            proof {
                assert(haystack@.subrange(off as int, off as int + needle@.len()) =~= needle@);
            }
            return true;
        }
        proof {
            assert(haystack@.subrange(off as int, off as int + needle@.len()) != needle@) by {
                assert(haystack@.subrange(off as int, off as int + needle@.len())[k as int]
                    == haystack@[off as int + k]);
            }
        }
        off = off + 1;
    }
    false
}

/// The pieces joined with a line feed between each two.
pub open spec fn spec_join_nl(pieces: Seq<Seq<char>>) -> Seq<char>
    decreases pieces.len(),
{
    if pieces.len() == 0 {
        Seq::empty()
    } else if pieces.len() == 1 {
        pieces[0]
    } else {
        pieces[0] + seq!['\n'] + spec_join_nl(pieces.drop_first())
    }
}

proof fn lemma_join_push(pieces: Seq<Seq<char>>, x: Seq<char>)
    ensures
        spec_join_nl(pieces.push(x)) == if pieces.len() == 0 {
            x
        } else {
            spec_join_nl(pieces) + seq!['\n'] + x
        },
    decreases pieces.len(),
{
    if pieces.len() == 0 {
        assert(pieces.push(x)[0] == x);
        assert(pieces.push(x).len() == 1);
    } else {
        lemma_join_push(pieces.drop_first(), x);
        assert(pieces.push(x).drop_first() =~= pieces.drop_first().push(x));
        assert(pieces.push(x)[0] == pieces[0]);
        if pieces.len() == 1 {
            assert(pieces.drop_first().len() == 0);
            assert(spec_join_nl(pieces) == pieces[0]);
        } else {
            assert((pieces[0] + seq!['\n'] + (spec_join_nl(pieces.drop_first()) + seq!['\n'] + x))
                =~= ((pieces[0] + seq!['\n'] + spec_join_nl(pieces.drop_first())) + seq!['\n']
                + x));
        }
    }
}

/// The strings joined with a line feed between each two.
pub fn join_lines(pieces: &Vec<String>) -> (r: String)
    ensures
        r@ == spec_join_nl(pieces.deep_view()),
{
    let mut r = String::new();
    let mut i: usize = 0;
    while i < pieces.len()
        invariant
            i <= pieces@.len(),
            r@ == spec_join_nl(pieces.deep_view().take(i as int)),
        decreases pieces@.len() - i,
    {
        if i > 0 {
            push_char(&mut r, '\n');
        }
        r.append(pieces[i].as_str());
        i = i + 1;
        proof {
            lemma_join_push(pieces.deep_view().take(i - 1), pieces.deep_view()[i - 1]);
            assert(pieces.deep_view().take(i - 1).push(pieces.deep_view()[i - 1])
                =~= pieces.deep_view().take(i as int));
        }
    }
    proof {
        assert(pieces.deep_view().take(pieces@.len() as int) =~= pieces.deep_view());
    }
    r
}

/// The pieces joined with `sep` between each two.
pub open spec fn spec_join_sep(pieces: Seq<Seq<char>>, sep: Seq<char>) -> Seq<char>
    decreases pieces.len(),
{
    if pieces.len() == 0 {
        Seq::empty()
    } else if pieces.len() == 1 {
        pieces[0]
    } else {
        pieces[0] + sep + spec_join_sep(pieces.drop_first(), sep)
    }
}

proof fn lemma_join_sep_push(pieces: Seq<Seq<char>>, sep: Seq<char>, x: Seq<char>)
    ensures
        spec_join_sep(pieces.push(x), sep) == if pieces.len() == 0 {
            x
        } else {
            spec_join_sep(pieces, sep) + sep + x
        },
    decreases pieces.len(),
{
    if pieces.len() == 0 {
        assert(pieces.push(x)[0] == x);
        assert(pieces.push(x).len() == 1);
    } else {
        lemma_join_sep_push(pieces.drop_first(), sep, x);
        assert(pieces.push(x).drop_first() =~= pieces.drop_first().push(x));
        assert(pieces.push(x)[0] == pieces[0]);
        if pieces.len() == 1 {
            assert(pieces.drop_first().len() == 0);
            assert(spec_join_sep(pieces, sep) == pieces[0]);
        } else {
            assert((pieces[0] + sep + (spec_join_sep(pieces.drop_first(), sep) + sep + x)) =~= ((
            pieces[0] + sep + spec_join_sep(pieces.drop_first(), sep)) + sep + x));
        }
    }
}

/// The strings joined with `sep` between each two.
pub fn join_with(pieces: &Vec<String>, sep: &str) -> (r: String)
    ensures
        r@ == spec_join_sep(pieces.deep_view(), sep@),
{
    let mut r = String::new();
    let mut i: usize = 0;
    while i < pieces.len()
        invariant
            i <= pieces@.len(),
            r@ == spec_join_sep(pieces.deep_view().take(i as int), sep@),
        decreases pieces@.len() - i,
    {
        if i > 0 {
            r.append(sep);
        }
        r.append(pieces[i].as_str());
        i = i + 1;
        proof {
            lemma_join_sep_push(pieces.deep_view().take(i - 1), sep@, pieces.deep_view()[i - 1]);
            assert(pieces.deep_view().take(i - 1).push(pieces.deep_view()[i - 1])
                =~= pieces.deep_view().take(i as int));
        }
    }
    proof {
        assert(pieces.deep_view().take(pieces@.len() as int) =~= pieces.deep_view());
    }
    r
}

/// A capital ASCII letter lowered; any other character unchanged.
pub open spec fn spec_lower_char(c: char) -> char {
    if c == 'A' {
        'a'
    } else if c == 'B' {
        'b'
    } else if c == 'C' {
        'c'
    } else if c == 'D' {
        'd'
    } else if c == 'E' {
        'e'
    } else if c == 'F' {
        'f'
    } else if c == 'G' {
        'g'
    } else if c == 'H' {
        'h'
    } else if c == 'I' {
        'i'
    } else if c == 'J' {
        'j'
    } else if c == 'K' {
        'k'
    } else if c == 'L' {
        'l'
    } else if c == 'M' {
        'm'
    } else if c == 'N' {
        'n'
    } else if c == 'O' {
        'o'
    } else if c == 'P' {
        'p'
    } else if c == 'Q' {
        'q'
    } else if c == 'R' {
        'r'
    } else if c == 'S' {
        's'
    } else if c == 'T' {
        't'
    } else if c == 'U' {
        'u'
    } else if c == 'V' {
        'v'
    } else if c == 'W' {
        'w'
    } else if c == 'X' {
        'x'
    } else if c == 'Y' {
        'y'
    } else if c == 'Z' {
        'z'
    } else {
        c
    }
}

/// `s` with every capital ASCII letter lowered.
pub open spec fn spec_lower(s: Seq<char>) -> Seq<char> {
    s.map_values(|c: char| spec_lower_char(c))
}

fn lower_char(c: char) -> (r: char)
    ensures
        r == spec_lower_char(c),
{
    match c {
        'A' => 'a',
        'B' => 'b',
        'C' => 'c',
        'D' => 'd',
        'E' => 'e',
        'F' => 'f',
        'G' => 'g',
        'H' => 'h',
        'I' => 'i',
        'J' => 'j',
        'K' => 'k',
        'L' => 'l',
        'M' => 'm',
        'N' => 'n',
        'O' => 'o',
        'P' => 'p',
        'Q' => 'q',
        'R' => 'r',
        'S' => 's',
        'T' => 't',
        'U' => 'u',
        'V' => 'v',
        'W' => 'w',
        'X' => 'x',
        'Y' => 'y',
        'Z' => 'z',
        _ => c,
    }
}

/// `s` with every capital ASCII letter lowered.
pub fn ascii_lower(s: &str) -> (r: String)
    ensures
        r@ == spec_lower(s@),
{
    let v = str_chars(s);
    let mut out: Vec<char> = Vec::new();
    let mut i: usize = 0;
    while i < v.len()
        invariant
            i <= v@.len(),
            v@ == s@,
            out@ == spec_lower(s@).take(i as int),
        decreases v@.len() - i,
    {
        out.push(lower_char(v[i]));
        i = i + 1;
        assert(out@ =~= spec_lower(s@).take(i as int));
    }
    proof {
        assert(spec_lower(s@).take(s@.len() as int) =~= spec_lower(s@));
    }
    string_from_chars(&out)
}

/// `s` without its leading whitespace.
pub open spec fn spec_trim_start(s: Seq<char>) -> Seq<char>
    decreases s.len(),
{
    if s.len() > 0 && is_space_char(s[0]) {
        spec_trim_start(s.drop_first())
    } else {
        s
    }
}

/// `s` without its trailing whitespace.
pub open spec fn spec_trim_end(s: Seq<char>) -> Seq<char>
    decreases s.len(),
{
    if s.len() > 0 && is_space_char(s.last()) {
        spec_trim_end(s.drop_last())
    } else {
        s
    }
}

/// `s` without leading and trailing whitespace.
pub open spec fn spec_trim(s: Seq<char>) -> Seq<char> {
    spec_trim_end(spec_trim_start(s))
}

proof fn lemma_trim_start_skip(s: Seq<char>, lo: int)
    requires
        0 <= lo <= s.len(),
        forall|k: int| 0 <= k < lo ==> is_space_char(#[trigger] s[k]),
        lo == s.len() || !is_space_char(s[lo]),
    ensures
        spec_trim_start(s) == s.skip(lo),
    decreases lo,
{
    if lo == 0 {
        assert(s.skip(0) =~= s);
    } else {
        assert(is_space_char(s[0]));
        lemma_trim_start_skip(s.drop_first(), lo - 1);
        assert(s.drop_first().skip(lo - 1) =~= s.skip(lo));
    }
}

proof fn lemma_trim_end_take(s: Seq<char>, hi: int)
    requires
        0 <= hi <= s.len(),
        forall|k: int| hi <= k < s.len() ==> is_space_char(#[trigger] s[k]),
        hi == 0 || !is_space_char(s[hi - 1]),
    ensures
        spec_trim_end(s) == s.take(hi),
    decreases s.len() - hi,
{
    if hi == s.len() {
        if s.len() > 0 && is_space_char(s.last()) {
            assert(!is_space_char(s[hi - 1]));
            assert(false);
        }
        assert(s.take(hi) =~= s);
    } else {
        assert(is_space_char(s.last()));
        lemma_trim_end_take(s.drop_last(), hi);
        assert(s.drop_last().take(hi) =~= s.take(hi));
    }
}

/// `s` with whitespace cut from both ends.
pub fn trim_spaces(s: &str) -> (r: String)
    ensures
        r@ == spec_trim(s@),
{
    let v = str_chars(s);
    let n = v.len();
    let mut lo: usize = 0;
    while lo < n && (v[lo] == ' ' || v[lo] == '\t' || v[lo] == '\n' || v[lo] == '\r')
        invariant
            lo <= n,
            n == s@.len(),
            v@ == s@,
            forall|k: int| 0 <= k < lo ==> is_space_char(#[trigger] s@[k]),
        decreases n - lo,
    {
        lo = lo + 1;
    }
    proof {
        lemma_trim_start_skip(s@, lo as int);
    }
    let mut hi: usize = n;
    while hi > lo && (v[hi - 1] == ' ' || v[hi - 1] == '\t' || v[hi - 1] == '\n' || v[hi - 1]
        == '\r')
        invariant
            lo <= hi <= n,
            n == s@.len(),
            v@ == s@,
            forall|k: int| hi <= k < n ==> is_space_char(#[trigger] s@[k]),
        decreases hi,
    {
        hi = hi - 1;
    }
    proof {
        let t = s@.skip(lo as int);
        assert(forall|k: int|
            hi - lo <= k < t.len() ==> is_space_char(#[trigger] t[k]));
        if hi > lo {
            assert(!is_space_char(t[hi - lo - 1]));
        }
        lemma_trim_end_take(t, hi - lo);
    }
    let mut out: Vec<char> = Vec::new();
    let mut k = lo;
    while k < hi
        invariant
            lo <= k <= hi <= n,
            n == s@.len(),
            v@ == s@,
            out@ == s@.subrange(lo as int, k as int),
        decreases hi - k,
    {
        out.push(v[k]);
        k = k + 1;
        assert(out@ =~= s@.subrange(lo as int, k as int));
    }
    proof {
        assert(s@.skip(lo as int).take(hi - lo) =~= s@.subrange(lo as int, hi as int));
    }
    string_from_chars(&out)
}

} // verus!
