//! Functions to format text before sending it.
//!
//! Lengths and positions here count characters.

use vstd::prelude::*;

use crate::strings::{chars_of, push_char, string_of};

verus! {

/// The character put after the `@` of a mass mention to escape it.
pub const ZERO_WIDTH_SPACE: char = '\u{200b}';

/// `d` occurs in `t` starting at position `p`.
pub open spec fn occurs_at(t: Seq<char>, d: Seq<char>, p: int) -> bool {
    &&& 0 <= p
    &&& p + d.len() <= t.len()
    &&& t.subrange(p, p + d.len()) == d
}

/// The mention of everyone in a channel.
pub open spec fn everyone_mention() -> Seq<char> {
    seq!['@', 'e', 'v', 'e', 'r', 'y', 'o', 'n', 'e']
}

/// The mention of everyone online in a channel.
pub open spec fn here_mention() -> Seq<char> {
    seq!['@', 'h', 'e', 'r', 'e']
}

/// A mass mention starts in `t` at position `p`.
pub open spec fn mention_at(t: Seq<char>, p: int) -> bool {
    occurs_at(t, everyone_mention(), p) || occurs_at(t, here_mention(), p)
}

/// `s` with a zero-width space after the `@` of each mass mention.
pub open spec fn escaped(s: Seq<char>) -> Seq<char>
    decreases s.len(),
{
    if s.len() == 0 {
        Seq::empty()
    } else if mention_at(s, 0) {
        seq!['@', ZERO_WIDTH_SPACE] + escaped(s.drop_first())
    } else {
        seq![s[0]] + escaped(s.drop_first())
    }
}

/// The number of mass mentions that start in `t` before position `n`.
pub open spec fn mentions_before(t: Seq<char>, n: int) -> nat
    decreases n,
{
    if n <= 0 {
        0
    } else {
        mentions_before(t, n - 1) + if mention_at(t, n - 1) {
            1nat
        } else {
            0nat
        }
    }
}

/// The number of mass mentions in `t`.
pub open spec fn mention_count(t: Seq<char>) -> nat {
    mentions_before(t, t.len() as int)
}

pub proof fn lemma_mentions_before_bound(t: Seq<char>, n: int)
    requires
        n >= 0,
    ensures
        mentions_before(t, n) <= n,
    decreases n,
{
    if n > 0 {
        lemma_mentions_before_bound(t, n - 1);
    }
}

/// A non-empty text holds fewer mass mentions than characters.
pub proof fn lemma_mentions_fewer(t: Seq<char>)
    requires
        t.len() >= 1,
    ensures
        mention_count(t) < t.len(),
{
    lemma_mentions_before_bound(t, t.len() - 1);
}

/// Whether `c` is white space in Unicode's sense.
pub open spec fn is_white_space(c: char) -> bool {
    let u = c as u32;
    ||| 0x9 <= u <= 0xd
    ||| u == 0x20
    ||| u == 0x85
    ||| u == 0xa0
    ||| u == 0x1680
    ||| 0x2000 <= u <= 0x200a
    ||| u == 0x2028
    ||| u == 0x2029
    ||| u == 0x202f
    ||| u == 0x205f
    ||| u == 0x3000
}

/// `t` holds white space only.
pub open spec fn is_blank(t: Seq<char>) -> bool {
    forall|i: int| 0 <= i < t.len() ==> is_white_space(#[trigger] t[i])
}

/// The last position `p`, from `start` down to 1, where `d` occurs in `w`.
pub open spec fn last_from(w: Seq<char>, d: Seq<char>, start: int) -> Option<int>
    decreases start,
{
    if start < 1 {
        None
    } else if occurs_at(w, d, start) {
        Some(start)
    } else {
        last_from(w, d, start - 1)
    }
}

/// The last position, from 1 on, where `d` occurs in `w`.
pub open spec fn last_delim(w: Seq<char>, d: Seq<char>) -> Option<int> {
    last_from(w, d, w.len() - d.len())
}

/// The break point in `w` by delimiter priority: the last occurrence of the
/// first delimiter that occurs past position 1.
pub open spec fn priority_cut(w: Seq<char>, delims: Seq<Seq<char>>) -> Option<int>
    decreases delims.len(),
{
    if delims.len() == 0 {
        None
    } else {
        match last_delim(w, delims[0]) {
            Some(p) => if p > 1 {
                Some(p)
            } else {
                priority_cut(w, delims.drop_first())
            },
            None => priority_cut(w, delims.drop_first()),
        }
    }
}

/// The larger of two positions, either of which may be missing.
pub open spec fn opt_max(a: Option<int>, b: Option<int>) -> Option<int> {
    match (a, b) {
        (Some(p), Some(q)) => Some(if p >= q {
            p
        } else {
            q
        }),
        (Some(p), None) => Some(p),
        (None, _) => b,
    }
}

/// The break point in `w` at the last occurrence of any delimiter.
pub open spec fn max_cut(w: Seq<char>, delims: Seq<Seq<char>>) -> Option<int>
    decreases delims.len(),
{
    if delims.len() == 0 {
        None
    } else {
        opt_max(last_delim(w, delims[0]), max_cut(w, delims.drop_first()))
    }
}

/// How many characters the next page of `t` may take: `len`, less one for
/// each mass mention among its first `len` characters when they are escaped.
pub open spec fn page_limit(t: Seq<char>, len: int, escape: bool) -> int {
    if escape {
        len - mention_count(t.take(len))
    } else {
        len
    }
}

/// Where the next page of `t` ends.
pub open spec fn cut(
    t: Seq<char>,
    len: int,
    escape: bool,
    priority: bool,
    delims: Seq<Seq<char>>,
) -> int {
    let hi = page_limit(t, len, escape);
    let w = t.take(hi);
    match if priority {
        priority_cut(w, delims)
    } else {
        max_cut(w, delims)
    } {
        Some(p) => p,
        None => hi,
    }
}

/// A page as it is sent: escaped or not.
pub open spec fn page_text(s: Seq<char>, escape: bool) -> Seq<char> {
    if escape {
        escaped(s)
    } else {
        s
    }
}

/// The pages of `t`, each at most `len` characters before escaping. A last
/// page of white space only is dropped.
pub open spec fn pages(
    t: Seq<char>,
    len: int,
    escape: bool,
    priority: bool,
    delims: Seq<Seq<char>>,
) -> Seq<Seq<char>>
    decreases t.len(),
    when len >= 1
{
    if t.len() > len {
        let c = cut(t, len, escape, priority, delims);
        proof {
            lemma_cut_bounds(t, len, escape, priority, delims);
        }
        seq![page_text(t.take(c), escape)] + pages(t.skip(c), len, escape, priority, delims)
    } else if is_blank(t) {
        Seq::empty()
    } else {
        seq![page_text(t, escape)]
    }
}

pub proof fn lemma_last_from_bounds(w: Seq<char>, d: Seq<char>, start: int)
    ensures
        last_from(w, d, start) matches Some(p) ==> 1 <= p <= start && occurs_at(w, d, p),
    decreases start,
{
    if start >= 1 && !occurs_at(w, d, start) {
        lemma_last_from_bounds(w, d, start - 1);
    }
}

pub proof fn lemma_priority_cut_bounds(w: Seq<char>, delims: Seq<Seq<char>>)
    ensures
        priority_cut(w, delims) matches Some(p) ==> 1 <= p <= w.len(),
    decreases delims.len(),
{
    if delims.len() > 0 {
        lemma_last_from_bounds(w, delims[0], w.len() - delims[0].len());
        lemma_priority_cut_bounds(w, delims.drop_first());
    }
}

pub proof fn lemma_max_cut_bounds(w: Seq<char>, delims: Seq<Seq<char>>)
    ensures
        max_cut(w, delims) matches Some(p) ==> 1 <= p <= w.len(),
    decreases delims.len(),
{
    if delims.len() > 0 {
        lemma_last_from_bounds(w, delims[0], w.len() - delims[0].len());
        lemma_max_cut_bounds(w, delims.drop_first());
    }
}

/// The next page of a text longer than a page is neither empty nor the
/// whole text.
pub proof fn lemma_cut_bounds(
    t: Seq<char>,
    len: int,
    escape: bool,
    priority: bool,
    delims: Seq<Seq<char>>,
)
    requires
        len >= 1,
        t.len() > len,
    ensures
        1 <= page_limit(t, len, escape) <= len,
        1 <= cut(t, len, escape, priority, delims) <= page_limit(t, len, escape),
{
    lemma_mentions_fewer(t.take(len));
    let hi = page_limit(t, len, escape);
    lemma_priority_cut_bounds(t.take(hi), delims);
    lemma_max_cut_bounds(t.take(hi), delims);
}

/// Looking for `d` at the start of `t` past `i` characters is looking for
/// it at `i` in `t`.
pub proof fn lemma_occurs_skip(t: Seq<char>, d: Seq<char>, i: int)
    requires
        0 <= i <= t.len(),
    ensures
        occurs_at(t.skip(i), d, 0) == occurs_at(t, d, i),
{
    if i + d.len() <= t.len() {
        assert(t.skip(i).subrange(0, d.len() as int) =~= t.subrange(i, i + d.len()));
    }
}

/// Whether `d` occurs at position `p` of the first `hi` characters of `t`.
fn occurs_in(t: &Vec<char>, hi: usize, d: &Vec<char>, p: usize) -> (r: bool)
    requires
        hi <= t@.len(),
    ensures
        r == occurs_at(t@.take(hi as int), d@, p as int),
{
    if p > hi || d.len() > hi - p {
        return false;
    }
    let mut k: usize = 0;
    while k < d.len()
        invariant
            p + d@.len() <= hi <= t@.len(),
            k <= d@.len(),
            forall|m: int| 0 <= m < k ==> t@[p + m] == d@[m],
        decreases d@.len() - k,
    {
        if t[p + k] != d[k] {
            assert(t@.take(hi as int).subrange(p as int, p + d@.len())[k as int] != d@[k as int]);
            return false;
        }
        k = k + 1;
    }
    assert(t@.take(hi as int).subrange(p as int, p + d@.len()) =~= d@);
    true
}

/// Whether a mass mention starts at position `p` of the first `hi`
/// characters of `t`.
fn mention_in(t: &Vec<char>, hi: usize, p: usize) -> (r: bool)
    requires
        hi <= t@.len(),
    ensures
        r == mention_at(t@.take(hi as int), p as int),
{
    let everyone = vec!['@', 'e', 'v', 'e', 'r', 'y', 'o', 'n', 'e'];
    let here = vec!['@', 'h', 'e', 'r', 'e'];
    assert(everyone@ =~= everyone_mention());
    assert(here@ =~= here_mention());
    occurs_in(t, hi, &everyone, p) || occurs_in(t, hi, &here, p)
}

/// The number of mass mentions in the first `hi` characters of `t`.
fn count_mentions(t: &Vec<char>, hi: usize) -> (r: usize)
    requires
        hi <= t@.len(),
    ensures
        r == mention_count(t@.take(hi as int)),
{
    let ghost w = t@.take(hi as int);
    let mut n: usize = 0;
    let mut count: usize = 0;
    while n < hi
        invariant
            hi <= t@.len(),
            w == t@.take(hi as int),
            n <= hi,
            count == mentions_before(w, n as int),
            count <= n,
        decreases hi - n,
    {
        if mention_in(t, hi, n) {
            count = count + 1;
        }
        n = n + 1;
    }
    count
}

/// The characters of `cs`, escaped.
fn escape_chars(cs: &Vec<char>) -> (r: String)
    ensures
        r@ == escaped(cs@),
{
    let mut r = String::new();
    let mut i: usize = 0;
    assert(cs@.take(cs@.len() as int) =~= cs@);
    while i < cs.len()
        invariant
            i <= cs@.len(),
            cs@.take(cs@.len() as int) == cs@,
            escaped(cs@) == r@ + escaped(cs@.skip(i as int)),
        decreases cs@.len() - i,
    {
        let ghost rest = cs@.skip(i as int);
        assert(rest.drop_first() =~= cs@.skip(i + 1));
        assert(rest[0] == cs@[i as int]);
        proof {
            lemma_occurs_skip(cs@, everyone_mention(), i as int);
            lemma_occurs_skip(cs@, here_mention(), i as int);
        }
        if mention_in(cs, cs.len(), i) {
            push_char(&mut r, '@');
            push_char(&mut r, ZERO_WIDTH_SPACE);
            assert(seq!['@', ZERO_WIDTH_SPACE] =~= seq!['@'].push(ZERO_WIDTH_SPACE));
        } else {
            push_char(&mut r, cs[i]);
        }
        i = i + 1;
    }
    assert(cs@.skip(cs@.len() as int) =~= Seq::<char>::empty());
    assert(r@ + Seq::<char>::empty() =~= r@);
    r
}

/// The views of the delimiters, in order.
pub open spec fn chars_views(v: Seq<Vec<char>>) -> Seq<Seq<char>> {
    v.map_values(|d: Vec<char>| d@)
}

/// The last position, from 1 on, where `d` occurs in the first `hi`
/// characters of `t`.
fn rfind_in(t: &Vec<char>, hi: usize, d: &Vec<char>) -> (r: Option<usize>)
    requires
        hi <= t@.len(),
    ensures
        match last_delim(t@.take(hi as int), d@) {
            Some(p) => r == Some(p as usize),
            None => r is None,
        },
{
    let ghost w = t@.take(hi as int);
    if d.len() > hi {
        return None;
    }
    let mut p: usize = hi - d.len();
    while p >= 1
        invariant
            hi <= t@.len(),
            w == t@.take(hi as int),
            p <= hi,
            last_delim(w, d@) == last_from(w, d@, p as int),
        decreases p,
    {
        if occurs_in(t, hi, d, p) {
            return Some(p);
        }
        p = p - 1;
    }
    None
}

/// [`priority_cut`] of the first `hi` characters of `t`.
fn priority_cut_in(t: &Vec<char>, hi: usize, ds: &Vec<Vec<char>>) -> (r: Option<usize>)
    requires
        hi <= t@.len(),
    ensures
        match priority_cut(t@.take(hi as int), chars_views(ds@)) {
            Some(p) => r == Some(p as usize),
            None => r is None,
        },
{
    let ghost w = t@.take(hi as int);
    let ghost all = chars_views(ds@);
    assert(all.skip(0) =~= all);
    let mut i: usize = 0;
    while i < ds.len()
        invariant
            hi <= t@.len(),
            w == t@.take(hi as int),
            all == chars_views(ds@),
            i <= ds@.len(),
            priority_cut(w, all) == priority_cut(w, all.skip(i as int)),
        decreases ds@.len() - i,
    {
        assert(all.skip(i as int).drop_first() =~= all.skip(i + 1));
        assert(all.skip(i as int)[0] == ds@[i as int]@);
        proof {
            lemma_last_from_bounds(w, ds@[i as int]@, w.len() - ds@[i as int]@.len());
        }
        match rfind_in(t, hi, &ds[i]) {
            Some(p) => {
                if p > 1 {
                    return Some(p);
                }
            },
            None => {},
        }
        i = i + 1;
    }
    assert(all.skip(i as int) =~= Seq::<Seq<char>>::empty());
    None
}

/// [`max_cut`] of the first `hi` characters of `t`.
fn max_cut_in(t: &Vec<char>, hi: usize, ds: &Vec<Vec<char>>) -> (r: Option<usize>)
    requires
        hi <= t@.len(),
    ensures
        match max_cut(t@.take(hi as int), chars_views(ds@)) {
            Some(p) => r == Some(p as usize),
            None => r is None,
        },
{
    let ghost w = t@.take(hi as int);
    let ghost all = chars_views(ds@);
    assert(all.skip(0) =~= all);
    let mut best: Option<usize> = None;
    let mut i: usize = 0;
    while i < ds.len()
        invariant
            hi <= t@.len(),
            w == t@.take(hi as int),
            all == chars_views(ds@),
            i <= ds@.len(),
            best matches Some(b) ==> b <= hi,
            max_cut(w, all) == opt_max(
                match best {
                    Some(b) => Some(b as int),
                    None => None,
                },
                max_cut(w, all.skip(i as int)),
            ),
        decreases ds@.len() - i,
    {
        assert(all.skip(i as int).drop_first() =~= all.skip(i + 1));
        assert(all.skip(i as int)[0] == ds@[i as int]@);
        proof {
            lemma_last_from_bounds(w, ds@[i as int]@, w.len() - ds@[i as int]@.len());
        }
        match rfind_in(t, hi, &ds[i]) {
            Some(p) => {
                best = match best {
                    Some(b) => Some(if p >= b {
                        p
                    } else {
                        b
                    }),
                    None => Some(p),
                };
            },
            None => {},
        }
        i = i + 1;
    }
    assert(all.skip(i as int) =~= Seq::<Seq<char>>::empty());
    best
}

/// [`cut`] of `t`.
fn cut_point(t: &Vec<char>, len: usize, escape: bool, priority: bool, ds: &Vec<Vec<char>>) -> (r:
    usize)
    requires
        len >= 1,
        t@.len() > len,
    ensures
        r == cut(t@, len as int, escape, priority, chars_views(ds@)),
{
    proof {
        lemma_cut_bounds(t@, len as int, escape, priority, chars_views(ds@));
    }
    let hi = if escape {
        len - count_mentions(t, len)
    } else {
        len
    };
    let found = if priority {
        priority_cut_in(t, hi, ds)
    } else {
        max_cut_in(t, hi, ds)
    };
    match found {
        Some(p) => p,
        None => hi,
    }
}

/// The first `n` characters of `t`.
fn take_chars(t: &Vec<char>, n: usize) -> (r: Vec<char>)
    requires
        n <= t@.len(),
    ensures
        r@ == t@.take(n as int),
{
    let mut r: Vec<char> = Vec::new();
    let mut i: usize = 0;
    while i < n
        invariant
            n <= t@.len(),
            i <= n,
            r@ == t@.take(i as int),
        decreases n - i,
    {
        r.push(t[i]);
        assert(t@.take(i + 1) =~= t@.take(i as int).push(t@[i as int]));
        i = i + 1;
    }
    r
}

/// The characters of `t` past the first `n`.
fn skip_chars(t: &Vec<char>, n: usize) -> (r: Vec<char>)
    requires
        n <= t@.len(),
    ensures
        r@ == t@.skip(n as int),
{
    let mut r: Vec<char> = Vec::new();
    let mut i: usize = n;
    while i < t.len()
        invariant
            n <= i <= t@.len(),
            r@ == t@.subrange(n as int, i as int),
        decreases t@.len() - i,
    {
        r.push(t[i]);
        assert(t@.subrange(n as int, i + 1) =~= t@.subrange(n as int, i as int).push(t@[i as int]));
        i = i + 1;
    }
    assert(t@.subrange(n as int, t@.len() as int) =~= t@.skip(n as int));
    r
}

/// Whether `c` is white space in Unicode's sense.
fn white_space(c: char) -> (r: bool)
    ensures
        r == is_white_space(c),
{
    let u = c as u32;
    (0x9 <= u && u <= 0xd) || u == 0x20 || u == 0x85 || u == 0xa0 || u == 0x1680 || (0x2000 <= u
        && u <= 0x200a) || u == 0x2028 || u == 0x2029 || u == 0x202f || u == 0x205f || u == 0x3000
}

/// Whether `t` holds white space only.
fn blank(t: &Vec<char>) -> (r: bool)
    ensures
        r == is_blank(t@),
{
    let mut i: usize = 0;
    while i < t.len()
        invariant
            i <= t@.len(),
            forall|k: int| 0 <= k < i ==> is_white_space(#[trigger] t@[k]),
        decreases t@.len() - i,
    {
        if !white_space(t[i]) {
            return false;
        }
        i = i + 1;
    }
    true
}

/// The delimiters, as characters.
fn delim_chars(delims: &[&str]) -> (r: Vec<Vec<char>>)
    ensures
        chars_views(r@) == delim_views(delims@),
{
    let mut r: Vec<Vec<char>> = Vec::new();
    let mut i: usize = 0;
    while i < delims.len()
        invariant
            i <= delims@.len(),
            r@.len() == i,
            forall|k: int| 0 <= k < i ==> r@[k]@ == delims@[k]@,
        decreases delims@.len() - i,
    {
        r.push(chars_of(delims[i]));
        i = i + 1;
    }
    assert(chars_views(r@) =~= delim_views(delims@));
    r
}

/// Breaks a long text into pages.
///
/// While the text is longer than `page_length - shorten_by` characters, a
/// page is cut off its front: at a delimiter if one occurs in the allowed
/// span (see [`PagifyOptions`]), else at the full length. The delimiter
/// starts the next page. With `escape_mass_mentions`, each page is escaped,
/// and the allowed span shrinks by one for each mass mention in it. What is
/// left at the end is the last page, unless it is white space only.
pub fn pagify(text: &str, options: PagifyOptions) -> (r: Vec<String>)
    requires
        options.shorten_by < options.page_length,
    ensures
        string_views(r@) == pages(
            text@,
            options.page_length - options.shorten_by,
            options.escape_mass_mentions,
            options.priority,
            delim_views(options.delims@),
        ),
{
    let len = options.page_length - options.shorten_by;
    let escape = options.escape_mass_mentions;
    let priority = options.priority;
    let ds = delim_chars(options.delims);
    let ghost dv = chars_views(ds@);
    let ghost all = pages(text@, len as int, escape, priority, dv);
    let mut in_text = chars_of(text);
    let mut texts: Vec<String> = Vec::new();
    while in_text.len() > len
        invariant
            len >= 1,
            dv == chars_views(ds@),
            all == string_views(texts@) + pages(in_text@, len as int, escape, priority, dv),
        decreases in_text@.len(),
    {
        let c = cut_point(&in_text, len, escape, priority, &ds);
        proof {
            lemma_cut_bounds(in_text@, len as int, escape, priority, dv);
        }
        let head = take_chars(&in_text, c);
        let page = if escape {
            escape_chars(&head)
        } else {
            string_of(&head)
        };
        let rest = skip_chars(&in_text, c);
        let ghost before = texts@;
        texts.push(page);
        assert(string_views(texts@) =~= string_views(before).push(page@));
        assert(pages(in_text@, len as int, escape, priority, dv) == seq![page@] + pages(
            rest@,
            len as int,
            escape,
            priority,
            dv,
        ));
        assert(string_views(before) + (seq![page@] + pages(rest@, len as int, escape, priority, dv))
            =~= string_views(before).push(page@) + pages(rest@, len as int, escape, priority, dv));
        in_text = rest;
    }
    if !blank(&in_text) {
        let page = if escape {
            escape_chars(&in_text)
        } else {
            string_of(&in_text)
        };
        let ghost before = texts@;
        texts.push(page);
        assert(string_views(texts@) =~= string_views(before) + seq![page@]);
    } else {
        assert(string_views(texts@) + Seq::<Seq<char>>::empty() =~= string_views(texts@));
    }
    texts
}

/// Returns `text` with mass mentions ("@everyone" and "@here") escaped: a
/// zero-width space goes after their `@`.
pub fn escape_mass_mentions(text: &str) -> (r: String)
    ensures
        r@ == escaped(text@),
{
    escape_chars(&chars_of(text))
}

/// The views of the strings, in order.
pub open spec fn string_views(v: Seq<String>) -> Seq<Seq<char>> {
    v.map_values(|s: String| s@)
}

/// The views of the delimiters, in order.
pub open spec fn delim_views(v: Seq<&str>) -> Seq<Seq<char>> {
    v.map_values(|s: &str| s@)
}

/// Options for [`pagify`].
///
/// The defaults are: delimiters `"\n"` and `" "`, escaping of mass mentions,
/// shortening by 8, a page length of 2000, and no priority.
pub struct PagifyOptions<'a> {
    /// Where pages may be broken. With no delimiters, pages are broken at
    /// the page length.
    pub delims: &'a [&'a str],
    /// Whether "@everyone" and "@here" are escaped.
    pub escape_mass_mentions: bool,
    /// How much shorter than `page_length` each page is.
    pub shorten_by: usize,
    /// The longest a page may be.
    pub page_length: usize,
    /// Whether pages are broken at the first delimiter in order that occurs,
    /// rather than at the last possible delimiter.
    pub priority: bool,
}

impl<'a> PagifyOptions<'a> {
    /// Creates a [`PagifyOptions`] with the default values.
    pub fn new() -> (r: Self)
        ensures
            delim_views(r.delims@) == seq![seq!['\n'], seq![' ']],
            r.escape_mass_mentions,
            r.shorten_by == 8,
            r.page_length == 2000,
            !r.priority,
    {
        Self::default()
    }

    /// Sets the delimiters; returns the options for chaining.
    pub fn delims(&mut self, delims: &'a [&'a str]) -> (r: &mut Self)
        ensures
            *r == (PagifyOptions { delims, ..*old(self) }),
            *final(self) == *final(r),
    {
        self.delims = delims;
        self
    }

    /// Sets whether mass mentions are escaped; returns the options for
    /// chaining.
    pub fn escape_mass_mentions(&mut self, setting: bool) -> (r: &mut Self)
        ensures
            *r == (PagifyOptions { escape_mass_mentions: setting, ..*old(self) }),
            *final(self) == *final(r),
    {
        self.escape_mass_mentions = setting;
        self
    }

    /// Sets how much shorter than the page length each page is; returns the
    /// options for chaining.
    pub fn shorten_by(&mut self, length: usize) -> (r: &mut Self)
        ensures
            *r == (PagifyOptions { shorten_by: length, ..*old(self) }),
            *final(self) == *final(r),
    {
        self.shorten_by = length;
        self
    }

    /// Sets the longest a page may be; returns the options for chaining.
    pub fn page_length(&mut self, length: usize) -> (r: &mut Self)
        ensures
            *r == (PagifyOptions { page_length: length, ..*old(self) }),
            *final(self) == *final(r),
    {
        self.page_length = length;
        self
    }

    /// Sets whether delimiters are taken by priority; returns the options
    /// for chaining.
    pub fn priority(&mut self, priority: bool) -> (r: &mut Self)
        ensures
            *r == (PagifyOptions { priority, ..*old(self) }),
            *final(self) == *final(r),
    {
        self.priority = priority;
        self
    }
}

impl<'a> Default for PagifyOptions<'a> {
    fn default() -> (r: Self)
        ensures
            delim_views(r.delims@) == seq![seq!['\n'], seq![' ']],
            r.escape_mass_mentions,
            r.shorten_by == 8,
            r.page_length == 2000,
            !r.priority,
    {
        let delims: &'a [&'a str] = &["\n", " "];
        proof {
            reveal_strlit("\n");
            reveal_strlit(" ");
            assert(delims@.len() == 2);
            assert(delims@[0]@ =~= seq!['\n']);
            assert(delims@[1]@ =~= seq![' ']);
            assert(delim_views(delims@) =~= seq![seq!['\n'], seq![' ']]);
        }
        PagifyOptions {
            delims,
            escape_mass_mentions: true,
            shorten_by: 8,
            page_length: 2000,
            priority: false,
        }
    }
}

} // verus!
