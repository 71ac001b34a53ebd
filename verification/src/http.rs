//! Reading the routing key out of the first bytes of an HTTP request.

use vstd::prelude::*;

verus! {

/// Unicode `White_Space`, as `char::is_whitespace` decides it.
pub open spec fn is_whitespace(c: char) -> bool {
    ||| ('\t' <= c && c <= '\r')
    ||| c == ' '
    ||| c == '\u{85}'
    ||| c == '\u{a0}'
    ||| c == '\u{1680}'
    ||| ('\u{2000}' <= c && c <= '\u{200a}')
    ||| c == '\u{2028}'
    ||| c == '\u{2029}'
    ||| c == '\u{202f}'
    ||| c == '\u{205f}'
    ||| c == '\u{3000}'
}

/// Executable form of [`is_whitespace`].
pub fn char_is_whitespace(c: char) -> (b: bool)
    ensures
        b == is_whitespace(c),
        c <= '\u{7f}' ==> (b <==> (c == ' ' || ('\t' <= c && c <= '\r'))),
        ('\u{80}' <= c && c <= '\u{ff}') ==> (b <==> (c == '\u{85}' || c == '\u{a0}')),
{
    ('\t' <= c && c <= '\r') || c == ' ' || c == '\u{85}' || c == '\u{a0}' || c == '\u{1680}'
        || ('\u{2000}' <= c && c <= '\u{200a}') || c == '\u{2028}' || c == '\u{2029}'
        || c == '\u{202f}' || c == '\u{205f}' || c == '\u{3000}'
}

/// The kinds of character a scan of a request stops at.
pub enum Stop {
    Newline,
    Whitespace,
    NotSlash,
    Slash,
}

impl Stop {
    pub open spec fn holds(self, c: char) -> bool {
        match self {
            Stop::Newline => c == '\n',
            Stop::Whitespace => is_whitespace(c),
            Stop::NotSlash => c != '/',
            Stop::Slash => c == '/',
        }
    }
}

/// The first index in `[i, end)` whose character `stop` holds of, or `end`.
pub open spec fn first_from(s: Seq<char>, i: int, end: int, stop: Stop) -> int
    decreases end - i,
{
    if i >= end {
        end
    } else if stop.holds(s[i]) {
        i
    } else {
        first_from(s, i + 1, end, stop)
    }
}

/// `first_from` lies in `[i, end]`, nothing before it stops the scan, and
/// it stops the scan unless it is `end`.
pub proof fn lemma_first_from(s: Seq<char>, i: int, end: int, stop: Stop)
    requires
        i <= end,
    ensures
        i <= first_from(s, i, end, stop) <= end,
        forall|k: int| i <= k < first_from(s, i, end, stop) ==> !stop.holds(#[trigger] s[k]),
        first_from(s, i, end, stop) < end ==> stop.holds(s[first_from(s, i, end, stop)]),
    decreases end - i,
{
    if i < end && !stop.holds(s[i]) {
        lemma_first_from(s, i + 1, end, stop);
    }
}

/// A scan that passes over `[i, k)` and stops at `k` (or meets `end` there)
/// ends at `k`.
pub proof fn lemma_first_from_is(s: Seq<char>, i: int, k: int, end: int, stop: Stop)
    requires
        i <= k <= end,
        forall|m: int| i <= m < k ==> !stop.holds(#[trigger] s[m]),
        k == end || stop.holds(s[k]),
    ensures
        first_from(s, i, end, stop) == k,
    decreases k - i,
{
    if i < k {
        lemma_first_from_is(s, i + 1, k, end, stop);
    }
}

/// The line `[st, le)` begins with `GET /`.
pub open spec fn opens_get_request(s: Seq<char>, st: int, le: int) -> bool {
    &&& le - st >= 5
    &&& s[st] == 'G'
    &&& s[st + 1] == 'E'
    &&& s[st + 2] == 'T'
    &&& s[st + 3] == ' '
    &&& s[st + 4] == '/'
}

/// Where the routing key of the line `[st, le)` stands, if it names one.
///
/// The line must begin with `GET /`. Its second whitespace-separated word
/// starts at the `/` after `GET `; with its leading slashes dropped and cut
/// at the next slash, a non-empty rest is the key.
pub open spec fn line_subdomain(s: Seq<char>, st: int, le: int) -> Option<(int, int)> {
    if !opens_get_request(s, st, le) {
        None
    } else {
        let e = first_from(s, st + 4, le, Stop::Whitespace);
        let j = first_from(s, st + 4, e, Stop::NotSlash);
        if j == e {
            None
        } else {
            Some((j, first_from(s, j, e, Stop::Slash)))
        }
    }
}

/// The routing key of the first line from `st` on that names one.
///
/// Lines end at `\n`; a `\r` before it is whitespace, so dropping it, as
/// `str::lines` does, changes no line's key.
pub open spec fn scan_lines(s: Seq<char>, st: int) -> Option<(int, int)>
    decreases s.len() - st,
{
    if st < 0 || st > s.len() {
        None
    } else {
        let le = first_from(s, st, s.len() as int, Stop::Newline);
        match line_subdomain(s, st, le) {
            Some(r) => Some(r),
            None => if le >= s.len() {
                None
            } else {
                proof {
                    lemma_first_from(s, st, s.len() as int, Stop::Newline);
                }
                scan_lines(s, le + 1)
            },
        }
    }
}

/// The subdomain that a request is routed by: the key of its first
/// `GET /<key>` line, else `default`.
pub open spec fn spec_extract_subdomain(request: Seq<char>) -> Seq<char> {
    match scan_lines(request, 0) {
        Some((a, b)) => request.subrange(a, b),
        None => "default"@,
    }
}

/// A key found by the scan is a non-empty run of characters that are
/// neither `/`, nor whitespace, nor a line break.
pub proof fn lemma_scan_lines_key(s: Seq<char>, st: int)
    requires
        scan_lines(s, st) is Some,
    ensures
        ({
            let (a, b) = scan_lines(s, st)->0;
            &&& 0 <= a < b <= s.len()
            &&& s[a] != '/'
            &&& forall|k: int| a <= k < b ==> s[k] != '/' && !is_whitespace(#[trigger] s[k])
        }),
    decreases s.len() - st,
{
    let le = first_from(s, st, s.len() as int, Stop::Newline);
    lemma_first_from(s, st, s.len() as int, Stop::Newline);
    match line_subdomain(s, st, le) {
        Some(r) => {
            let e = first_from(s, st + 4, le, Stop::Whitespace);
            lemma_first_from(s, st + 4, le, Stop::Whitespace);
            let j = first_from(s, st + 4, e, Stop::NotSlash);
            lemma_first_from(s, st + 4, e, Stop::NotSlash);
            lemma_first_from(s, j, e, Stop::Slash);
            assert forall|k: int| j <= k < first_from(s, j, e, Stop::Slash) implies s[k] != '/'
                && !is_whitespace(#[trigger] s[k]) by {
                assert(!Stop::Slash.holds(s[k]));
                assert(!Stop::Whitespace.holds(s[k]));
            }
        },
        None => {
            lemma_scan_lines_key(s, le + 1);
        },
    }
}

/// A request that opens with `GET /<key>`, the key followed by whitespace, a
/// `/` or nothing, is routed by that key, whenever the key is a non-empty
/// run of characters that are neither `/` nor whitespace.
pub proof fn law_request_line_routes_by_its_key(key: Seq<char>, rest: Seq<char>)
    requires
        key.len() > 0,
        forall|k: int| 0 <= k < key.len() ==> #[trigger] key[k] != '/' && !is_whitespace(key[k]),
        rest.len() == 0 || is_whitespace(rest[0]) || rest[0] == '/',
    ensures
        spec_extract_subdomain(seq!['G', 'E', 'T', ' ', '/'] + key + rest) == key,
{
    let s = seq!['G', 'E', 'T', ' ', '/'] + key + rest;
    let n = s.len() as int;
    let kend = 5 + key.len() as int;
    assert forall|k: int| 0 <= k < kend implies !is_whitespace(#[trigger] s[k]) || k == 3 by {
        if k >= 5 {
            assert(s[k] == key[k - 5]);
        }
    }
    assert forall|k: int| 0 <= k < kend implies #[trigger] s[k] != '\n' by {
        if k >= 5 {
            assert(s[k] == key[k - 5]);
        }
    }
    let le = first_from(s, 0, n, Stop::Newline);
    lemma_first_from(s, 0, n, Stop::Newline);
    if le < kend {
        assert(s[le] != '\n');
    }
    assert(le >= kend);
    assert(opens_get_request(s, 0, le));
    let e = first_from(s, 4, le, Stop::Whitespace);
    lemma_first_from(s, 4, le, Stop::Whitespace);
    if e < kend {
        assert(!is_whitespace(s[e]));
    }
    assert(e >= kend);
    assert(s[4] == '/');
    assert(s[5] == key[0]);
    lemma_first_from_is(s, 4, 5, e, Stop::NotSlash);
    if rest.len() == 0 {
        assert(e == kend);
    } else if is_whitespace(rest[0]) {
        assert(s[kend] == rest[0]);
        if kend < le {
            assert(e <= kend);
        }
        assert(e == kend);
    } else {
        assert(s[kend] == rest[0]);
    }
    assert forall|m: int| 5 <= m < kend implies !Stop::Slash.holds(#[trigger] s[m]) by {
        assert(s[m] == key[m - 5]);
    }
    lemma_first_from_is(s, 5, kend, e, Stop::Slash);
    assert(line_subdomain(s, 0, le) == Some((5int, kend)));
    assert(scan_lines(s, 0) == Some((5int, kend)));
    assert(s.subrange(5, kend) =~= key);
}

/// A key's position moved right by `d`.
pub open spec fn shift_key(r: Option<(int, int)>, d: int) -> Option<(int, int)> {
    match r {
        Some((a, b)) => Some((a + d, b + d)),
        None => None,
    }
}

/// A scan of `q + r` past `q` ends where the scan of `r` does, moved by `q`.
pub proof fn lemma_first_from_shift(q: Seq<char>, r: Seq<char>, i: int, e: int, stop: Stop)
    requires
        0 <= i <= e <= r.len(),
    ensures
        first_from(q + r, q.len() + i, q.len() + e, stop) == q.len() + first_from(r, i, e, stop),
    decreases e - i,
{
    if i < e {
        assert((q + r)[q.len() + i] == r[i]);
        lemma_first_from_shift(q, r, i + 1, e, stop);
    }
}

/// The key of a line of `r` is found in `q + r`, moved by `q`.
pub proof fn lemma_line_subdomain_shift(q: Seq<char>, r: Seq<char>, st: int, le: int)
    requires
        0 <= st <= le <= r.len(),
    ensures
        line_subdomain(q + r, q.len() + st, q.len() + le) == shift_key(line_subdomain(r, st, le), q.len() as int),
{
    let s = q + r;
    let d = q.len() as int;
    if le - st >= 5 {
        assert(s[d + st] == r[st]);
        assert(s[d + st + 1] == r[st + 1]);
        assert(s[d + st + 2] == r[st + 2]);
        assert(s[d + st + 3] == r[st + 3]);
        assert(s[d + st + 4] == r[st + 4]);
    }
    if opens_get_request(r, st, le) {
        lemma_first_from_shift(q, r, st + 4, le, Stop::Whitespace);
        let e = first_from(r, st + 4, le, Stop::Whitespace);
        lemma_first_from(r, st + 4, le, Stop::Whitespace);
        lemma_first_from_shift(q, r, st + 4, e, Stop::NotSlash);
        let j = first_from(r, st + 4, e, Stop::NotSlash);
        lemma_first_from(r, st + 4, e, Stop::NotSlash);
        lemma_first_from_shift(q, r, j, e, Stop::Slash);
    }
}

/// The scan of `q + r` from a line start in `r` finds what the scan of `r`
/// finds, moved by `q`.
pub proof fn lemma_scan_lines_shift(q: Seq<char>, r: Seq<char>, st: int)
    requires
        0 <= st <= r.len(),
    ensures
        scan_lines(q + r, q.len() + st) == shift_key(scan_lines(r, st), q.len() as int),
    decreases r.len() - st,
{
    let s = q + r;
    let d = q.len() as int;
    lemma_first_from_shift(q, r, st, r.len() as int, Stop::Newline);
    assert(s.len() == d + r.len());
    let le = first_from(r, st, r.len() as int, Stop::Newline);
    lemma_first_from(r, st, r.len() as int, Stop::Newline);
    lemma_line_subdomain_shift(q, r, st, le);
    if line_subdomain(r, st, le) is None && le < r.len() {
        lemma_scan_lines_shift(q, r, le + 1);
    }
}

/// A line that does not open with `GET /`, put before a request, leaves its
/// routing key as it was.
pub proof fn law_leading_other_line_keeps_the_key(p: Seq<char>, r: Seq<char>)
    requires
        forall|k: int| 0 <= k < p.len() ==> #[trigger] p[k] != '\n',
        !(p.len() >= 5 && p.subrange(0, 5) == seq!['G', 'E', 'T', ' ', '/']),
    ensures
        spec_extract_subdomain(p + seq!['\n'] + r) == spec_extract_subdomain(r),
{
    let q = p + seq!['\n'];
    let s = q + r;
    assert(p + seq!['\n'] + r == s);
    let n = s.len() as int;
    let pl = p.len() as int;
    assert forall|m: int| 0 <= m < pl implies !Stop::Newline.holds(#[trigger] s[m]) by {
        assert(s[m] == p[m]);
    }
    assert(s[pl] == '\n');
    lemma_first_from_is(s, 0, pl, n, Stop::Newline);
    if pl >= 5 && opens_get_request(s, 0, pl) {
        assert(p.subrange(0, 5) =~= seq!['G', 'E', 'T', ' ', '/']) by {
            assert(s[0] == p[0]);
            assert(s[1] == p[1]);
            assert(s[2] == p[2]);
            assert(s[3] == p[3]);
            assert(s[4] == p[4]);
        }
    }
    assert(line_subdomain(s, 0, pl) is None);
    assert(scan_lines(s, 0) == scan_lines(s, pl + 1));
    lemma_scan_lines_shift(q, r, 0);
    assert(q.len() == pl + 1);
    match scan_lines(r, 0) {
        Some((a, b)) => {
            lemma_scan_lines_key(r, 0);
            assert(s.subrange(a + pl + 1, b + pl + 1) =~= r.subrange(a, b));
        },
        None => {},
    }
}

/// Among ASCII characters exactly the space, tab, line feed, vertical tab,
/// form feed and carriage return are whitespace; so no letter, digit or
/// punctuation mark ends a routing key. Among the other Latin-1 characters
/// only the next-line mark and the no-break space are.
pub proof fn law_ascii_whitespace(c: char)
    ensures
        c <= '\u{7f}' ==> (is_whitespace(c) <==> (c == ' ' || ('\t' <= c && c <= '\r'))),
        ('!' <= c && c <= '~') ==> !is_whitespace(c),
        ('\u{80}' <= c && c <= '\u{ff}') ==> (is_whitespace(c) <==> (c == '\u{85}' || c
            == '\u{a0}')),
{
}

/// A request line `GET /<key> HTTP/1.1`, for a key of printable ASCII
/// characters other than `/`, is routed by the whole key.
pub proof fn law_printable_key_routes_by_itself(key: Seq<char>)
    requires
        key.len() > 0,
        forall|k: int| 0 <= k < key.len() ==> '!' <= #[trigger] key[k] <= '~' && key[k] != '/',
    ensures
        spec_extract_subdomain(seq!['G', 'E', 'T', ' ', '/'] + key + seq![' ', 'H', 'T', 'T', 'P', '/', '1', '.', '1'])
            == key,
{
    assert forall|k: int| 0 <= k < key.len() implies #[trigger] key[k] != '/' && !is_whitespace(key[k]) by {
        law_ascii_whitespace(key[k]);
    }
    let rest = seq![' ', 'H', 'T', 'T', 'P', '/', '1', '.', '1'];
    assert(is_whitespace(rest[0]));
    law_request_line_routes_by_its_key(key, rest);
}

/// The characters of `s`, in order.
fn chars_of(s: &str) -> (v: Vec<char>)
    ensures
        v@ == s@,
{
    let n = s.unicode_len();
    let mut v: Vec<char> = Vec::new();
    let mut i: usize = 0;
    while i < n
        invariant
            n == s@.len(),
            i <= n,
            v@ == s@.subrange(0, i as int),
        decreases n - i,
    {
        v.push(s.get_char(i));
        i = i + 1;
    }
    v
}

/// The executable scan of `first_from`.
fn find_first(chars: &Vec<char>, from: usize, end: usize, stop: Stop) -> (r: usize)
    requires
        from <= end <= chars@.len(),
    ensures
        r == first_from(chars@, from as int, end as int, stop),
{
    let mut k = from;
    while k < end
        invariant
            from <= k <= end <= chars@.len(),
            first_from(chars@, from as int, end as int, stop) == first_from(
                chars@,
                k as int,
                end as int,
                stop,
            ),
        decreases end - k,
    {
        let c = chars[k];
        let hit = match stop {
            Stop::Newline => c == '\n',
            Stop::Whitespace => char_is_whitespace(c),
            Stop::NotSlash => c != '/',
            Stop::Slash => c == '/',
        };
        if hit {
            return k;
        }
        k = k + 1;
    }
    k
}

/// The key of the line `[st, le)`, as `line_subdomain` gives it.
fn find_line_subdomain(chars: &Vec<char>, st: usize, le: usize) -> (r: Option<(usize, usize)>)
    requires
        st <= le <= chars@.len(),
    ensures
        r is Some <==> line_subdomain(chars@, st as int, le as int) is Some,
        r matches Some((a, b)) ==> line_subdomain(chars@, st as int, le as int) == Some(
            (a as int, b as int),
        ),
{
    if le - st < 5 || chars[st] != 'G' || chars[st + 1] != 'E' || chars[st + 2] != 'T'
        || chars[st + 3] != ' ' || chars[st + 4] != '/' {
        return None;
    }
    let e = find_first(chars, st + 4, le, Stop::Whitespace);
    proof {
        lemma_first_from(chars@, st + 4, le as int, Stop::Whitespace);
    }
    let j = find_first(chars, st + 4, e, Stop::NotSlash);
    proof {
        lemma_first_from(chars@, st + 4, e as int, Stop::NotSlash);
    }
    if j == e {
        return None;
    }
    let f = find_first(chars, j, e, Stop::Slash);
    Some((j, f))
}

/// The subdomain that a public request is routed by.
///
/// The first line of the form `GET /<path> ...` whose path, with its leading
/// slashes dropped, is not empty, gives its first path segment; a request
/// with no such line is routed as `default`. A key is never empty and holds
/// neither `/` nor whitespace. There is always a result.
pub fn extract_subdomain(request: &str) -> (res: Option<&str>)
    ensures
        res is Some,
        res->0@ == spec_extract_subdomain(request@),
        res->0@.len() > 0,
        forall|k: int|
            0 <= k < res->0@.len() ==> #[trigger] res->0@[k] != '/' && !is_whitespace(res->0@[k]),
{
    let chars = chars_of(request);
    let n = chars.len();
    let mut st: usize = 0;
    while st <= n
        invariant
            n == chars@.len() == request@.len(),
            chars@ == request@,
            scan_lines(chars@, 0) == scan_lines(chars@, st as int),
        ensures
            scan_lines(chars@, 0) is None,
        decreases n + 1 - st,
    {
        let le = find_first(&chars, st, n, Stop::Newline);
        proof {
            lemma_first_from(chars@, st as int, n as int, Stop::Newline);
        }
        match find_line_subdomain(&chars, st, le) {
            Some((a, b)) => {
                proof {
                    assert(scan_lines(chars@, st as int) == Some((a as int, b as int)));
                    lemma_scan_lines_key(chars@, 0);
                    assert(scan_lines(request@, 0) == Some((a as int, b as int)));
                }
                let key = request.substring_char(a, b);
                assert(key@ == spec_extract_subdomain(request@));
                assert forall|k: int| 0 <= k < key@.len() implies #[trigger] key@[k] != '/'
                    && !is_whitespace(key@[k]) by {
                    assert(key@[k] == request@[a + k]);
                }
                return Some(key);
            },
            None => {
                if le >= n {
                    assert(scan_lines(chars@, st as int) is None);
                    break;
                }
                assert(scan_lines(chars@, st as int) == scan_lines(chars@, le + 1));
                st = le + 1;
            },
        }
    }
    proof {
        reveal_strlit("default");
        assert(scan_lines(request@, 0) is None);
    }
    Some("default")
}

} // verus!
