//! String and number helpers shared by the parsers and encoders.
use vstd::prelude::*;

verus! {

/// Decimal digit character for a value below ten.
pub open spec fn digit_char(d: nat) -> char {
    if d == 0 { '0' } else if d == 1 { '1' } else if d == 2 { '2' } else if d == 3 { '3' }
    else if d == 4 { '4' } else if d == 5 { '5' } else if d == 6 { '6' } else if d == 7 { '7' }
    else if d == 8 { '8' } else { '9' }
}

/// Decimal rendering of a natural number, without leading zeros.
pub open spec fn nat_digits(n: nat) -> Seq<char>
    decreases n,
{
    if n < 10 {
        seq![digit_char(n)]
    } else {
        nat_digits(n / 10).push(digit_char(n % 10))
    }
}

/// Decimal rendering of an integer, with a leading `-` when negative.
pub open spec fn int_digits(n: int) -> Seq<char> {
    if n < 0 { seq!['-'] + nat_digits((-n) as nat) } else { nat_digits(n as nat) }
}

/// Appends a character to a string.
#[verifier::external_body]
pub(crate) fn push_char(s: &mut String, c: char)
    ensures
        final(s)@ == old(s)@.push(c),
{
    s.push(c)
}

/// Characters of a string slice, in order.
pub fn chars_of(s: &str) -> (v: Vec<char>)
    ensures
        v@ == s@,
{
    let n = s.unicode_len();
    let mut v: Vec<char> = Vec::new();
    let mut i: usize = 0;
    while i < n
        invariant
            n == s@.len(),
            i <= n,
            v@ == s@.subrange(0, i as int),
        decreases n - i,
    {
        let c = s.get_char(i);
        v.push(c);
        i = i + 1;
    }
    v
}

/// A string holding the characters of `s[from..to]`.
pub fn string_of(s: &[char], from: usize, to: usize) -> (r: String)
    requires
        from <= to <= s@.len(),
    ensures
        r@ == s@.subrange(from as int, to as int),
{
    let mut r = String::new();
    let mut i = from;
    while i < to
        invariant
            from <= i <= to <= s@.len(),
            r@ == s@.subrange(from as int, i as int),
        decreases to - i,
    {
        push_char(&mut r, s[i]);
        i = i + 1;
    }
    r
}

/// A copy of a string slice as an owned string.
pub fn owned(s: &str) -> (r: String)
    ensures
        r@ == s@,
{
    s.to_owned()
}

/// Concatenation of two strings.
pub fn concat(a: &str, b: &str) -> (r: String)
    ensures
        r@ == a@ + b@,
{
    let mut r = a.to_owned();
    r.append(b);
    r
}

/// Whether two character sequences are equal.
pub fn chars_eq(a: &[char], b: &[char]) -> (r: bool)
    ensures
        r == (a@ == b@),
{
    if a.len() != b.len() {
        return false;
    }
    let mut i: usize = 0;
    while i < a.len()
        invariant
            a@.len() == b@.len(),
            i <= a@.len(),
            forall|j: int| 0 <= j < i ==> a@[j] == b@[j],
        decreases a.len() - i,
    {
        if a[i] != b[i] {
            return false;
        }
        i = i + 1;
    }
    assert(a@ =~= b@);
    true
}

/// Whether two string slices hold the same characters.
pub fn str_eq(a: &str, b: &str) -> (r: bool)
    ensures
        r == (a@ == b@),
{
    let x = chars_of(a);
    let y = chars_of(b);
    chars_eq(x.as_slice(), y.as_slice())
}

/// Decimal rendering of an unsigned integer.
pub fn u64_to_string(n: u64) -> (r: String)
    ensures
        r@ == nat_digits(n as nat),
    decreases n,
{
    let d = n % 10;
    let c: char = if d == 0 { '0' } else if d == 1 { '1' } else if d == 2 { '2' } else if d == 3 { '3' }
        else if d == 4 { '4' } else if d == 5 { '5' } else if d == 6 { '6' } else if d == 7 { '7' }
        else if d == 8 { '8' } else { '9' };
    if n < 10 {
        let mut r = String::new();
        push_char(&mut r, c);
        assert(r@ =~= seq![digit_char(n as nat)]);
        r
    } else {
        let mut r = u64_to_string(n / 10);
        push_char(&mut r, c);
        r
    }
}

/// First index at or after `i` where `n` occurs in `h`.
pub open spec fn find_from(h: Seq<char>, n: Seq<char>, i: int) -> Option<int>
    decreases h.len() + 1 - i,
{
    if i < 0 || i + n.len() > h.len() {
        None
    } else if h.subrange(i, i + n.len()) == n {
        Some(i)
    } else {
        find_from(h, n, i + 1)
    }
}

/// Whether `n` occurs in `h`.
pub open spec fn contains(h: Seq<char>, n: Seq<char>) -> bool {
    find_from(h, n, 0) is Some
}

/// Splits `h` around the first occurrence of `n`.
pub open spec fn split_once(h: Seq<char>, n: Seq<char>) -> Option<(Seq<char>, Seq<char>)> {
    match find_from(h, n, 0) {
        Some(i) => Some((h.subrange(0, i), h.subrange(i + n.len(), h.len() as int))),
        None => None,
    }
}

/// Pieces of `s` between occurrences of the separator `c`, empty pieces included.
pub open spec fn split_char(s: Seq<char>, c: char) -> Seq<Seq<char>>
    decreases s.len(),
{
    if s.len() == 0 {
        seq![Seq::<char>::empty()]
    } else {
        let p = split_char(s.drop_last(), c);
        if s.last() == c {
            p.push(Seq::<char>::empty())
        } else {
            p.update(p.len() - 1, p.last().push(s.last()))
        }
    }
}

/// Elements of `list` joined by `sep`.
pub open spec fn seq_join(list: Seq<Seq<char>>, sep: Seq<char>) -> Seq<char>
    decreases list.len(),
{
    if list.len() == 0 {
        Seq::<char>::empty()
    } else if list.len() == 1 {
        list[0]
    } else {
        seq_join(list.drop_last(), sep) + sep + list.last()
    }
}

/// Whether `s` starts with `p`.
pub open spec fn has_prefix(s: Seq<char>, p: Seq<char>) -> bool {
    p.len() <= s.len() && s.subrange(0, p.len() as int) == p
}

proof fn lemma_split_char_nonempty(s: Seq<char>, c: char)
    ensures
        split_char(s, c).len() >= 1,
    decreases s.len(),
{
    if s.len() > 0 {
        lemma_split_char_nonempty(s.drop_last(), c);
    }
}

/// Appending text without the separator extends the last piece of a split.
proof fn lemma_split_char_append(s: Seq<char>, t: Seq<char>, c: char)
    requires
        !t.contains(c),
    ensures
        split_char(s + t, c) == split_char(s, c).update(
            split_char(s, c).len() - 1,
            split_char(s, c).last() + t,
        ),
    decreases t.len(),
{
    lemma_split_char_nonempty(s, c);
    let p = split_char(s, c);
    if t.len() == 0 {
        assert(s + t =~= s);
        assert(p.last() + t =~= p.last());
        assert(p.update(p.len() - 1, p.last() + t) =~= p);
    } else {
        let t0 = t.drop_last();
        assert(!t0.contains(c)) by {
            if t0.contains(c) {
                let k = choose|k: int| 0 <= k < t0.len() && t0[k] == c;
                assert(t[k] == c);
            }
        }
        lemma_split_char_append(s, t0, c);
        assert((s + t).drop_last() =~= s + t0);
        assert((s + t).last() == t.last());
        assert(t.last() != c) by {
            if t.last() == c {
                assert(t[t.len() - 1] == c);
            }
        }
        let q = split_char(s + t0, c);
        assert(q.len() == p.len());
        assert(q.last() == p.last() + t0);
        assert(q.last().push(t.last()) =~= p.last() + t);
        assert(split_char(s + t, c) == q.update(q.len() - 1, q.last().push(t.last())));
        assert(split_char(s + t, c) =~= p.update(p.len() - 1, p.last() + t));
    }
}

/// Splitting pieces joined by a separator they do not hold gives the pieces back.
pub proof fn lemma_split_join(xs: Seq<Seq<char>>, c: char)
    requires
        xs.len() >= 1,
        forall|i: int| 0 <= i < xs.len() ==> !(#[trigger] xs[i]).contains(c),
    ensures
        split_char(seq_join(xs, seq![c]), c) == xs,
    decreases xs.len(),
{
    if xs.len() == 1 {
        lemma_split_char_append(Seq::empty(), xs[0], c);
        assert(Seq::<char>::empty() + xs[0] =~= xs[0]);
        assert(Seq::<char>::empty() + xs[0] =~= xs[0]);
        assert(split_char(xs[0], c) =~= xs);
    } else {
        let init = xs.drop_last();
        assert forall|i: int| 0 <= i < init.len() implies !(#[trigger] init[i]).contains(c) by {
            assert(init[i] == xs[i]);
        }
        lemma_split_join(init, c);
        let j = seq_join(init, seq![c]);
        assert((j + seq![c]).drop_last() =~= j);
        assert(split_char(j + seq![c], c) == split_char(j, c).push(Seq::<char>::empty()));
        lemma_split_char_nonempty(j + seq![c], c);
        assert(!xs.last().contains(c)) by {
            assert(xs.last() == xs[xs.len() - 1]);
        }
        lemma_split_char_append(j + seq![c], xs.last(), c);
        assert(Seq::<char>::empty() + xs.last() =~= xs.last());
        assert(split_char(seq_join(xs, seq![c]), c) =~= init.push(xs.last()));
        assert(init.push(xs.last()) =~= xs);
    }
}

proof fn lemma_find_from_bounds(h: Seq<char>, n: Seq<char>, i: int)
    ensures
        find_from(h, n, i) matches Some(j) ==> i <= j && j + n.len() <= h.len()
            && h.subrange(j, j + n.len()) == n,
    decreases h.len() + 1 - i,
{
    if !(i < 0 || i + n.len() > h.len()) && h.subrange(i, i + n.len()) != n {
        lemma_find_from_bounds(h, n, i + 1);
    }
}

/// Index of the first occurrence of `n` in `h`, if any.
pub fn find(h: &[char], n: &[char]) -> (r: Option<usize>)
    ensures
        match r {
            Some(i) => find_from(h@, n@, 0) == Some(i as int),
            None => find_from(h@, n@, 0) is None,
        },
        r matches Some(i) ==> i + n.len() <= h.len(),
{
    proof { lemma_find_from_bounds(h@, n@, 0); }
    if n.len() > h.len() {
        return None;
    }
    if n.len() == 0 {
        assert(h@.subrange(0, 0) =~= n@);
        return Some(0);
    }
    let last = h.len() - n.len();
    let mut i: usize = 0;
    while i <= last
        invariant
            last + n.len() == h.len(),
            n.len() >= 1,
            i <= last + 1,
            find_from(h@, n@, 0) == find_from(h@, n@, i as int),
        decreases last + 1 - i,
    {
        let mut j: usize = 0;
        let mut same = true;
        while j < n.len()
            invariant
                i <= last,
                last + n.len() == h.len(),
                j <= n@.len(),
                same == (forall|k: int| 0 <= k < j ==> h@[i + k] == n@[k]),
            decreases n.len() - j,
        {
            if h[i + j] != n[j] {
                same = false;
            }
            j = j + 1;
        }
        if same {
            assert(h@.subrange(i as int, i + n@.len()) =~= n@);
            return Some(i);
        }
        assert(h@.subrange(i as int, i + n@.len()) != n@) by {
            let k = choose|k: int| 0 <= k < n@.len() && h@[i + k] != n@[k];
            assert(h@.subrange(i as int, i + n@.len())[k] != n@[k]);
        }
        i = i + 1;
    }
    None
}


/// A copy of an optional text.
pub fn dup_text(o: &Option<String>) -> (r: Option<String>)
    ensures
        r == *o,
{
    match o {
        Some(s) => Some(s.clone()),
        None => None,
    }
}

/// Whether `n` occurs in `h`.
pub fn str_contains(h: &str, n: &str) -> (r: bool)
    ensures
        r == contains(h@, n@),
{
    let hc = chars_of(h);
    let nc = chars_of(n);
    find(hc.as_slice(), nc.as_slice()).is_some()
}

/// Splits the characters of `h` around the first occurrence of `n`.
pub fn split_once_chars(h: &[char], n: &[char]) -> (r: Option<(String, String)>)
    ensures
        match r {
            Some((a, b)) => split_once(h@, n@) == Some((a@, b@)),
            None => split_once(h@, n@) is None,
        },
{
    match find(h, n) {
        Some(i) => {
            let a = string_of(h, 0, i);
            let b = string_of(h, i + n.len(), h.len());
            Some((a, b))
        },
        None => None,
    }
}

/// The pieces of `s` between occurrences of `c`, empty pieces included.
pub fn split_on(s: &str, c: char) -> (r: Vec<String>)
    ensures
        r@.len() == split_char(s@, c).len(),
        forall|i: int| 0 <= i < r@.len() ==> #[trigger] r@[i]@ == split_char(s@, c)[i],
{
    let v = chars_of(s);
    let mut out: Vec<String> = Vec::new();
    let mut start: usize = 0;
    let mut k: usize = 0;
    proof { lemma_split_char_nonempty(v@.subrange(0, 0), c); }
    assert(v@.subrange(0, 0) =~= Seq::<char>::empty());
    while k < v.len()
        invariant
            v@ == s@,
            start <= k <= v@.len(),
            split_char(v@.subrange(0, k as int), c).len() == out@.len() + 1,
            forall|i: int| 0 <= i < out@.len() ==> #[trigger] out@[i]@ == split_char(v@.subrange(0, k as int), c)[i],
            split_char(v@.subrange(0, k as int), c).last() == v@.subrange(start as int, k as int),
        decreases v.len() - k,
    {
        let ghost pre = v@.subrange(0, k as int);
        let ghost nxt = v@.subrange(0, k + 1);
        assert(nxt.drop_last() =~= pre);
        assert(nxt.last() == v@[k as int]);
        if v[k] == c {
            let piece = string_of(v.as_slice(), start, k);
            out.push(piece);
            start = k + 1;
            assert(v@.subrange(start as int, k + 1) =~= Seq::<char>::empty());
        } else {
            assert(v@.subrange(start as int, k + 1) =~= v@.subrange(start as int, k as int).push(v@[k as int]));
        }
        k = k + 1;
    }
    let last = string_of(v.as_slice(), start, k);
    out.push(last);
    assert(v@.subrange(0, k as int) =~= s@);
    out
}

/// Whether the characters of `s` start with `p`.
pub fn starts_with(s: &[char], p: &[char]) -> (r: bool)
    ensures
        r == has_prefix(s@, p@),
{
    if p.len() > s.len() {
        return false;
    }
    let mut i: usize = 0;
    while i < p.len()
        invariant
            p@.len() <= s@.len(),
            i <= p@.len(),
            forall|k: int| 0 <= k < i ==> s@[k] == p@[k],
        decreases p.len() - i,
    {
        if s[i] != p[i] {
            assert(s@.subrange(0, p@.len() as int)[i as int] != p@[i as int]);
            return false;
        }
        i = i + 1;
    }
    assert(s@.subrange(0, p@.len() as int) =~= p@);
    true
}

/// Joins strings with a separator.
pub fn join(list: &Vec<String>, sep: &str) -> (r: String)
    ensures
        r@ == seq_join(list@.map_values(|x: String| x@), sep@),
{
    let ghost views = list@.map_values(|x: String| x@);
    let mut r = String::new();
    let mut i: usize = 0;
    while i < list.len()
        invariant
            i <= list@.len(),
            views == list@.map_values(|x: String| x@),
            r@ == seq_join(views.subrange(0, i as int), sep@),
        decreases list.len() - i,
    {
        let ghost prev = views.subrange(0, i as int);
        let ghost next = views.subrange(0, i + 1);
        assert(next.drop_last() =~= prev);
        if i > 0 {
            r.append(sep);
        }
        r.append(list[i].as_str());
        proof {
            if i == 0 {
                assert(next.len() == 1);
            }
        }
        i = i + 1;
    }
    assert(views.subrange(0, list@.len() as int) =~= views);
    r
}

/// `s` without the trailing run of `c`.
pub open spec fn trim_end_char(s: Seq<char>, c: char) -> Seq<char>
    decreases s.len(),
{
    if s.len() > 0 && s.last() == c {
        trim_end_char(s.drop_last(), c)
    } else {
        s
    }
}

/// `s` without the trailing run of `c`.
pub fn trim_end_matches(s: &str, c: char) -> (r: String)
    ensures
        r@ == trim_end_char(s@, c),
{
    let v = chars_of(s);
    let mut n = v.len();
    assert(v@.subrange(0, n as int) =~= s@);
    while n > 0 && v[n - 1] == c
        invariant
            n <= v@.len(),
            v@ == s@,
            trim_end_char(s@, c) == trim_end_char(v@.subrange(0, n as int), c),
        decreases n,
    {
        assert(v@.subrange(0, n as int).drop_last() =~= v@.subrange(0, n - 1));
        n = n - 1;
    }
    assert(v@.subrange(0, 0) =~= Seq::<char>::empty());
    string_of(v.as_slice(), 0, n)
}


/// A line without the carriage return that ended it.
pub open spec fn strip_cr(p: Seq<char>) -> Seq<char> {
    if p.len() > 0 && p.last() == '\r' {
        p.drop_last()
    } else {
        p
    }
}

/// Lines of `s` as `str::lines` yields them: the pieces between newlines, each without a
/// carriage return before its newline, and no empty piece after a final newline.
pub open spec fn text_lines(s: Seq<char>) -> Seq<Seq<char>> {
    let parts = split_char(s, '\n');
    let n: int = if s.len() == 0 || s.last() == '\n' {
        parts.len() - 1
    } else {
        parts.len() as int
    };
    Seq::new(n as nat, |i: int| if i < parts.len() - 1 { strip_cr(parts[i]) } else { parts[i] })
}

/// The last `n` elements of `s`, or all of them when there are fewer.
pub open spec fn take_last<A>(s: Seq<A>, n: nat) -> Seq<A> {
    if n >= s.len() {
        s
    } else {
        s.subrange(s.len() - n, s.len() as int)
    }
}

/// `s` without a final carriage return.
fn strip_cr_exec(s: &str) -> (r: String)
    ensures
        r@ == strip_cr(s@),
{
    let c = chars_of(s);
    if c.len() > 0 && c[c.len() - 1] == '\r' {
        string_of(c.as_slice(), 0, c.len() - 1)
    } else {
        owned(s)
    }
}

/// Lines of `s`, as `str::lines` yields them.
pub fn lines(s: &str) -> (r: Vec<String>)
    ensures
        r@.map_values(|x: String| x@) == text_lines(s@),
{
    let c = chars_of(s);
    let parts = split_on(s, '\n');
    proof { lemma_split_char_nonempty(s@, '\n'); }
    let n: usize = if c.len() == 0 || c[c.len() - 1] == '\n' {
        parts.len() - 1
    } else {
        parts.len()
    };
    let ghost want = text_lines(s@);
    let mut r: Vec<String> = Vec::new();
    let mut i: usize = 0;
    while i < n
        invariant
            i <= n,
            n == want.len(),
            n <= parts@.len(),
            parts@.len() == split_char(s@, '\n').len(),
            forall|j: int| 0 <= j < parts@.len() ==> #[trigger] parts@[j]@ == split_char(s@, '\n')[j],
            want == text_lines(s@),
            r@.map_values(|x: String| x@) == want.subrange(0, i as int),
        decreases n - i,
    {
        let piece = if i + 1 < parts.len() {
            strip_cr_exec(parts[i].as_str())
        } else {
            parts[i].clone()
        };
        let ghost before = r@;
        r.push(piece);
        assert(r@.map_values(|x: String| x@) =~= before.map_values(|x: String| x@).push(piece@));
        assert(want.subrange(0, i + 1) =~= want.subrange(0, i as int).push(want[i as int]));
        i = i + 1;
    }
    assert(want.subrange(0, n as int) =~= want);
    r
}

/// The last `count` lines of `text`, joined by newlines.
pub open spec fn spec_last_lines(text: Seq<char>, count: nat) -> Seq<char> {
    seq_join(take_last(text_lines(text), count), "\n"@)
}

/// The last `count` lines of `text` (all of them when there are fewer), joined by newlines.
pub fn last_lines(text: &str, count: usize) -> (r: String)
    ensures
        r@ == spec_last_lines(text@, count as nat),
{
    let ls = lines(text);
    let ghost all = ls@.map_values(|x: String| x@);
    let start: usize = if count >= ls.len() { 0 } else { ls.len() - count };
    let mut kept: Vec<String> = Vec::new();
    let mut i: usize = start;
    while i < ls.len()
        invariant
            start <= i <= ls@.len(),
            all == ls@.map_values(|x: String| x@),
            kept@.map_values(|x: String| x@) == all.subrange(start as int, i as int),
        decreases ls.len() - i,
    {
        let ghost before = kept@;
        kept.push(ls[i].clone());
        assert(kept@.map_values(|x: String| x@) =~= before.map_values(|x: String| x@).push(ls@[i as int]@));
        assert(all.subrange(start as int, i + 1) =~= all.subrange(start as int, i as int).push(all[i as int]));
        i = i + 1;
    }
    assert(take_last(all, count as nat) =~= all.subrange(start as int, ls@.len() as int));
    join(&kept, "\n")
}


/// Message of the error `String::from_utf8` gives for bytes that are not UTF-8.
pub uninterp spec fn utf8_error_message(data: Seq<u8>) -> Seq<char>;

/// `String::from_utf8`, its error shown by `Display`. Claimed, as std documents it: the
/// bytes are accepted exactly when they are valid UTF-8, giving the text they encode; the
/// message of a refusal is the name `utf8_error_message` of the bytes.
#[verifier::external_body]
pub(crate) fn decode_utf8(data: Vec<u8>) -> (r: Result<String, String>)
    ensures
        r is Ok <==> vstd::utf8::valid_utf8(data@),
        r matches Ok(s) ==> s@ == vstd::utf8::decode_utf8(data@),
        r matches Err(m) ==> m@ == utf8_error_message(data@),
{
    match String::from_utf8(data) {
        Ok(s) => Ok(s),
        Err(e) => Err(e.to_string()),
    }
}

/// `std::str::from_utf8`, only whether it succeeds. Claimed, as std documents it: it
/// succeeds exactly when the bytes are valid UTF-8.
#[verifier::external_body]
pub(crate) fn is_utf8(data: &[u8]) -> (r: bool)
    ensures
        r == vstd::utf8::valid_utf8(data@),
{
    std::str::from_utf8(data).is_ok()
}

/// UTF-8 bytes of a text.
pub fn encode_utf8(s: &str) -> (r: Vec<u8>)
    ensures
        r@ == vstd::utf8::encode_utf8(s@),
{
    vstd::slice::slice_to_vec(s.as_bytes())
}


/// Number of bytes of the UTF-8 encoding of a text.
pub fn utf8_len(s: &str) -> (r: u128)
    ensures
        r == vstd::utf8::encode_utf8(s@).len(),
        r <= 4 * (usize::MAX as nat),
{
    let c = chars_of(s);
    let n = c.len();
    let mut total: u128 = 0;
    let mut i: usize = n;
    while i > 0
        invariant
            i <= n,
            n == s@.len(),
            c@ == s@,
            total == vstd::utf8::encode_utf8(s@.subrange(i as int, n as int)).len(),
            total <= 4 * (n - i),
        decreases i,
    {
        i = i - 1;
        let v: u32 = c[i] as u32;
        let w: u128 = if v <= 0x7F {
            1
        } else if v <= 0x7FF {
            2
        } else if v <= 0xFFFF {
            3
        } else {
            4
        };
        let ghost sub = s@.subrange(i as int, n as int);
        assert(sub.drop_first() =~= s@.subrange(i + 1, n as int));
        assert(sub[0] == s@[i as int]);
        assert(v == sub[0] as u32);
        proof {
            vstd::utf8::char_is_scalar(sub[0]);
        }
        assert(vstd::utf8::encode_scalar(v).len() == w);
        total = total + w;
    }
    assert(s@.subrange(0, n as int) =~= s@);
    total
}


/// Whether a character has the Unicode `White_Space` property, as `char::is_whitespace`
/// tells.
pub open spec fn is_whitespace(c: char) -> bool {
    let v = c as u32;
    ||| 0x09 <= v <= 0x0D
    ||| v == 0x20
    ||| v == 0x85
    ||| v == 0xA0
    ||| v == 0x1680
    ||| 0x2000 <= v <= 0x200A
    ||| v == 0x2028
    ||| v == 0x2029
    ||| v == 0x202F
    ||| v == 0x205F
    ||| v == 0x3000
}

/// A text without leading whitespace.
pub open spec fn trim_start(s: Seq<char>) -> Seq<char>
    decreases s.len(),
{
    if s.len() > 0 && is_whitespace(s[0]) {
        trim_start(s.drop_first())
    } else {
        s
    }
}

/// A text without trailing whitespace.
pub open spec fn trim_end(s: Seq<char>) -> Seq<char>
    decreases s.len(),
{
    if s.len() > 0 && is_whitespace(s.last()) {
        trim_end(s.drop_last())
    } else {
        s
    }
}

/// A text without leading and trailing whitespace, as `str::trim` gives it.
pub open spec fn spec_trim(s: Seq<char>) -> Seq<char> {
    trim_end(trim_start(s))
}

fn whitespace(c: char) -> (r: bool)
    ensures
        r == is_whitespace(c),
{
    let v = c as u32;
    (0x09 <= v && v <= 0x0D) || v == 0x20 || v == 0x85 || v == 0xA0 || v == 0x1680 || (0x2000 <= v
        && v <= 0x200A) || v == 0x2028 || v == 0x2029 || v == 0x202F || v == 0x205F || v == 0x3000
}

proof fn lemma_trim_start_from(s: Seq<char>, i: int)
    requires
        0 <= i <= s.len(),
        forall|j: int| 0 <= j < i ==> is_whitespace(#[trigger] s[j]),
    ensures
        trim_start(s) == trim_start(s.subrange(i, s.len() as int)),
    decreases i,
{
    if i > 0 {
        assert(s.drop_first().subrange(i - 1, s.drop_first().len() as int) =~= s.subrange(i, s.len() as int));
        lemma_trim_start_from(s.drop_first(), i - 1);
    } else {
        assert(s.subrange(0, s.len() as int) =~= s);
    }
}

proof fn lemma_trim_end_to(s: Seq<char>, k: int)
    requires
        0 <= k <= s.len(),
        forall|j: int| k <= j < s.len() ==> is_whitespace(#[trigger] s[j]),
    ensures
        trim_end(s) == trim_end(s.subrange(0, k)),
    decreases s.len() - k,
{
    if k < s.len() {
        assert(s.drop_last().subrange(0, k) =~= s.subrange(0, k));
        lemma_trim_end_to(s.drop_last(), k);
    } else {
        assert(s.subrange(0, k) =~= s);
    }
}

/// A text without leading and trailing whitespace.
pub fn trim(s: &str) -> (r: String)
    ensures
        r@ == spec_trim(s@),
{
    let c = chars_of(s);
    let mut i: usize = 0;
    while i < c.len() && whitespace(c[i])
        invariant
            i <= c@.len(),
            c@ == s@,
            forall|j: int| 0 <= j < i ==> is_whitespace(#[trigger] s@[j]),
        decreases c.len() - i,
    {
        i = i + 1;
    }
    proof { lemma_trim_start_from(s@, i as int); }
    let ghost rest = s@.subrange(i as int, s@.len() as int);
    assert(trim_start(rest) == rest);
    let mut k: usize = c.len();
    while k > i && whitespace(c[k - 1])
        invariant
            i <= k <= c@.len(),
            c@ == s@,
            rest == s@.subrange(i as int, s@.len() as int),
            forall|j: int| k - i <= j < rest.len() ==> is_whitespace(#[trigger] rest[j]),
        decreases k,
    {
        k = k - 1;
    }
    proof {
        lemma_trim_end_to(rest, k - i);
        let kept = rest.subrange(0, k - i);
        assert(kept =~= s@.subrange(i as int, k as int));
        if kept.len() > 0 {
            assert(!is_whitespace(kept.last()));
        }
    }
    string_of(c.as_slice(), i, k)
}

} // verus!
