use vstd::prelude::*;
use vstd::string::StrSliceExecFns;

verus! {

/// A character that may appear in a video identifier: `[A-Za-z0-9_-]`.
pub open spec fn is_id_char(c: char) -> bool {
    ('a' <= c && c <= 'z') || ('A' <= c && c <= 'Z') || ('0' <= c && c <= '9') || c == '_'
        || c == '-'
}

/// A word character of a host name: an ASCII letter, digit or underscore.
pub open spec fn is_word_char(c: char) -> bool {
    ('a' <= c && c <= 'z') || ('A' <= c && c <= 'Z') || ('0' <= c && c <= '9') || c == '_'
}

/// Exactly eleven identifier characters.
pub open spec fn is_video_id(s: Seq<char>) -> bool {
    s.len() == 11 && forall|i: int| 0 <= i < 11 ==> is_id_char(#[trigger] s[i])
}

/// `p` occurs in `s` starting at position `at`.
pub open spec fn prefix_at(s: Seq<char>, at: int, p: Seq<char>) -> bool {
    0 <= at && at + p.len() <= s.len() && s.subrange(at, at + p.len()) == p
}

/// A video identifier occupies `s[at..at + 11]`.
pub open spec fn id_at(s: Seq<char>, at: int) -> bool {
    0 <= at && at + 11 <= s.len() && is_video_id(s.subrange(at, at + 11))
}

/// No line break from position `at` on.
pub open spec fn single_line_from(s: Seq<char>, at: int) -> bool {
    forall|k: int| at <= k < s.len() ==> #[trigger] s[k] != '\n'
}

/// The text ends at `at`, or goes on with `lead` and then anything on one line.
pub open spec fn tail_ok(s: Seq<char>, at: int, lead: char) -> bool {
    at == s.len() || (0 <= at < s.len() && s[at] == lead && single_line_from(s, at))
}

/// Length of an optional `http://` or `https://` at the start.
pub open spec fn scheme_len(s: Seq<char>) -> int {
    if prefix_at(s, 0, "http://"@) {
        7
    } else if prefix_at(s, 0, "https://"@) {
        8
    } else {
        0
    }
}

/// Length of an optional `www.` at position `at`.
pub open spec fn www_len(s: Seq<char>, at: int) -> int {
    if prefix_at(s, at, "www."@) {
        4
    } else {
        0
    }
}

/// A host `youtube` + one character + two or three word characters + `/`,
/// starting at `at`: the position just past the slash.
pub open spec fn youtube_host_end(s: Seq<char>, at: int) -> Option<int> {
    if prefix_at(s, at, "youtube"@) && at + 10 < s.len() && s[at + 7] != '\n' && is_word_char(
        s[at + 8],
    ) && is_word_char(s[at + 9]) {
        if s[at + 10] == '/' {
            Some(at + 11)
        } else if at + 11 < s.len() && is_word_char(s[at + 10]) && s[at + 11] == '/' {
            Some(at + 12)
        } else {
            None
        }
    } else {
        None
    }
}

/// Position of the host part: past the optional scheme and `www.`.
pub open spec fn host_start(s: Seq<char>) -> int {
    scheme_len(s) + www_len(s, scheme_len(s))
}

/// `[scheme]www.youtube.<tld>/watch?v=<id>[&...]`
pub open spec fn watch_id(s: Seq<char>) -> Option<Seq<char>> {
    match youtube_host_end(s, host_start(s)) {
        Some(p) => if prefix_at(s, p, "watch?v="@) && id_at(s, p + 8) && tail_ok(s, p + 19, '&') {
            Some(s.subrange(p + 8, p + 19))
        } else {
            None
        },
        None => None,
    }
}

/// Where an embed link's query part begins: past an optional backslash.
pub open spec fn embed_tail_start(s: Seq<char>, at: int) -> int {
    if 0 <= at < s.len() && s[at] == '\\' {
        at + 1
    } else {
        at
    }
}

/// `[scheme]www.youtube.<tld>/embed/<id>[\][?...]`
pub open spec fn embed_id(s: Seq<char>) -> Option<Seq<char>> {
    match youtube_host_end(s, host_start(s)) {
        Some(p) => if prefix_at(s, p, "embed/"@) && id_at(s, p + 6) && tail_ok(
            s,
            embed_tail_start(s, p + 17),
            '?',
        ) {
            Some(s.subrange(p + 6, p + 17))
        } else {
            None
        },
        None => None,
    }
}

/// `[scheme]youtu.be/<id>`
pub open spec fn short_link_id(s: Seq<char>) -> Option<Seq<char>> {
    let h = scheme_len(s);
    if prefix_at(s, h, "youtu.be/"@) && id_at(s, h + 9) && h + 20 == s.len() {
        Some(s.subrange(h + 9, h + 20))
    } else {
        None
    }
}

/// `<id>` alone.
pub open spec fn bare_id(s: Seq<char>) -> Option<Seq<char>> {
    if is_video_id(s) {
        Some(s)
    } else {
        None
    }
}

/// The identifier of the first shape that matches the whole link, tried in
/// the order watch, embed, short link, bare identifier.
pub open spec fn video_id(s: Seq<char>) -> Option<Seq<char>> {
    if watch_id(s) is Some {
        watch_id(s)
    } else if embed_id(s) is Some {
        embed_id(s)
    } else if short_link_id(s) is Some {
        short_link_id(s)
    } else {
        bare_id(s)
    }
}

fn is_id_char_exec(c: char) -> (r: bool)
    ensures
        r == is_id_char(c),
{
    ('a' <= c && c <= 'z') || ('A' <= c && c <= 'Z') || ('0' <= c && c <= '9') || c == '_'
        || c == '-'
}

fn is_word_char_exec(c: char) -> (r: bool)
    ensures
        r == is_word_char(c),
{
    ('a' <= c && c <= 'z') || ('A' <= c && c <= 'Z') || ('0' <= c && c <= '9') || c == '_'
}

fn chars_of(s: &str) -> (r: Vec<char>)
    ensures
        r@ == s@,
{
    let n = s.unicode_len();
    let mut r: Vec<char> = Vec::new();
    let mut i: usize = 0;
    while i < n
        invariant
            n == s@.len(),
            i <= n,
            r@ == s@.subrange(0, i as int),
        decreases n - i,
    {
        r.push(s.get_char(i));
        i = i + 1;
    }
    r
}

fn prefix_at_exec(s: &Vec<char>, at: usize, p: &str) -> (r: bool)
    ensures
        r == prefix_at(s@, at as int, p@),
{
    let n = p.unicode_len();
    if n > s.len() || at > s.len() - n {
        return false;
    }
    let mut j: usize = 0;
    while j < n
        invariant
            n == p@.len(),
            at + n <= s@.len() <= usize::MAX,
            j <= n,
            forall|k: int| 0 <= k < j ==> s@[at + k] == p@[k],
        decreases n - j,
    {
        if s[at + j] != p.get_char(j) {
            return false;
        }
        j = j + 1;
    }
    assert(s@.subrange(at as int, at + n) =~= p@);
    true
}

fn id_at_exec(s: &Vec<char>, at: usize) -> (r: bool)
    ensures
        r == id_at(s@, at as int),
{
    if at > s.len() || s.len() - at < 11 {
        return false;
    }
    let mut j: usize = 0;
    while j < 11
        invariant
            at + 11 <= s@.len() <= usize::MAX,
            j <= 11,
            forall|k: int| 0 <= k < j ==> is_id_char(#[trigger] s@[at + k]),
        decreases 11 - j,
    {
        if !is_id_char_exec(s[at + j]) {
            assert(!is_id_char(s@.subrange(at as int, at + 11)[j as int]));
            return false;
        }
        j = j + 1;
    }
    assert forall|i: int| 0 <= i < 11 implies is_id_char(
        #[trigger] s@.subrange(at as int, at + 11)[i],
    ) by {
        assert(s@.subrange(at as int, at + 11)[i] == s@[at + i]);
    }
    true
}

fn single_line_from_exec(s: &Vec<char>, at: usize) -> (r: bool)
    ensures
        r == single_line_from(s@, at as int),
{
    let mut k: usize = at;
    while k < s.len()
        invariant
            at <= k || k >= s@.len(),
            forall|m: int| at <= m < k && m < s@.len() ==> s@[m] != '\n',
        decreases s@.len() - k,
    {
        if s[k] == '\n' {
            return false;
        }
        k = k + 1;
    }
    true
}

fn tail_ok_exec(s: &Vec<char>, at: usize, lead: char) -> (r: bool)
    ensures
        r == tail_ok(s@, at as int, lead),
{
    at == s.len() || (at < s.len() && s[at] == lead && single_line_from_exec(s, at))
}

fn scheme_len_exec(s: &Vec<char>) -> (r: usize)
    ensures
        r == scheme_len(s@),
{
    if prefix_at_exec(s, 0, "http://") {
        7
    } else if prefix_at_exec(s, 0, "https://") {
        8
    } else {
        0
    }
}

fn host_start_exec(s: &Vec<char>) -> (r: usize)
    ensures
        r == host_start(s@),
{
    let h = scheme_len_exec(s);
    if prefix_at_exec(s, h, "www.") {
        h + 4
    } else {
        h
    }
}

fn youtube_host_end_exec(s: &Vec<char>, at: usize) -> (r: Option<usize>)
    requires
        at <= s@.len(),
    ensures
        r matches Some(p) ==> youtube_host_end(s@, at as int) == Some(p as int),
        r is None ==> youtube_host_end(s@, at as int) is None,
{
    if prefix_at_exec(s, at, "youtube") && s.len() - at > 10 && s[at + 7] != '\n'
        && is_word_char_exec(s[at + 8]) && is_word_char_exec(s[at + 9]) {
        if s[at + 10] == '/' {
            Some(at + 11)
        } else if s.len() - at > 11 && is_word_char_exec(s[at + 10]) && s[at + 11] == '/' {
            Some(at + 12)
        } else {
            None
        }
    } else {
        None
    }
}

/// Start and end of the identifier in `s`, by the first shape that matches.
fn video_id_span(s: &Vec<char>) -> (r: Option<(usize, usize)>)
    ensures
        r matches Some(span) ==> span.0 <= span.1 <= s@.len() && video_id(s@) == Some(
            s@.subrange(span.0 as int, span.1 as int),
        ),
        r is None ==> video_id(s@) is None,
{
    let h = host_start_exec(s);
    if h <= s.len() {
        if let Some(p) = youtube_host_end_exec(s, h) {
            if prefix_at_exec(s, p, "watch?v=") && id_at_exec(s, p + 8) && tail_ok_exec(
                s,
                p + 19,
                '&',
            ) {
                return Some((p + 8, p + 19));
            }
            if prefix_at_exec(s, p, "embed/") && id_at_exec(s, p + 6) {
                let e = p + 17;
                let b = if e < s.len() && s[e] == '\\' {
                    e + 1
                } else {
                    e
                };
                if tail_ok_exec(s, b, '?') {
                    return Some((p + 6, p + 17));
                }
            }
        }
    }
    let h = scheme_len_exec(s);
    if prefix_at_exec(s, h, "youtu.be/") && id_at_exec(s, h + 9) && s.len() == h + 20 {
        return Some((h + 9, h + 20));
    }
    if s.len() == 11 && id_at_exec(s, 0) {
        assert(s@.subrange(0, 11) =~= s@);
        return Some((0, 11));
    }
    None
}

/// The video identifier carried by `link`, by the first of the watch, embed,
/// short-link and bare-identifier shapes that matches the whole link.
pub fn extract_video_id(link: &str) -> (r: Option<String>)
    ensures
        r matches Some(id) ==> video_id(link@) == Some(id@),
        r is None ==> video_id(link@) is None,
{
    let s = chars_of(link);
    match video_id_span(&s) {
        Some(span) => Some(link.substring_char(span.0, span.1).to_owned()),
        None => None,
    }
}

/// Every identifier is recognised in each of the four shapes: a watch link, an
/// embed link, a short link and the bare identifier.
pub proof fn lemma_accepts_all_shapes(id: Seq<char>)
    requires
        is_video_id(id),
    ensures
        video_id("https://www.youtube.com/watch?v="@ + id) == Some(id),
        video_id("https://www.youtube.com/embed/"@ + id) == Some(id),
        video_id("https://youtu.be/"@ + id) == Some(id),
        video_id(id) == Some(id),
{
    reveal_strlit("https://www.youtube.com/watch?v=");
    reveal_strlit("https://www.youtube.com/embed/");
    reveal_strlit("https://youtu.be/");
    reveal_strlit("http://");
    reveal_strlit("https://");
    reveal_strlit("www.");
    reveal_strlit("youtube");
    reveal_strlit("watch?v=");
    reveal_strlit("embed/");
    reveal_strlit("youtu.be/");
    let w = "https://www.youtube.com/watch?v="@ + id;
    assert(w.subrange(0, 7)[4] != "http://"@[4]);
    assert(w.subrange(0, 8) =~= "https://"@);
    assert(w.subrange(8, 12) =~= "www."@);
    assert(w.subrange(12, 19) =~= "youtube"@);
    assert(w.subrange(24, 32) =~= "watch?v="@);
    assert(w.subrange(32, 43) =~= id);
    assert(watch_id(w) == Some(id));
    let e = "https://www.youtube.com/embed/"@ + id;
    assert(e.subrange(0, 7)[4] != "http://"@[4]);
    assert(e.subrange(0, 8) =~= "https://"@);
    assert(e.subrange(8, 12) =~= "www."@);
    assert(e.subrange(12, 19) =~= "youtube"@);
    assert(e.subrange(24, 32)[0] != "watch?v="@[0]);
    assert(e.subrange(24, 30) =~= "embed/"@);
    assert(e.subrange(30, 41) =~= id);
    assert(watch_id(e) is None);
    assert(embed_id(e) == Some(id));
    let t = "https://youtu.be/"@ + id;
    assert(t.subrange(0, 7)[4] != "http://"@[4]);
    assert(t.subrange(0, 8) =~= "https://"@);
    assert(t.subrange(8, 12)[3] != "www."@[3]);
    assert(t.subrange(8, 15)[5] != "youtube"@[5]);
    assert(t.subrange(8, 17) =~= "youtu.be/"@);
    assert(t.subrange(17, 28) =~= id);
    assert(watch_id(t) is None);
    assert(embed_id(t) is None);
    assert(short_link_id(t) == Some(id));
}

/// Watch and embed links keep their identifier when a single-line query
/// follows it (`&...` after a watch identifier, `?...` after an embed one),
/// and links without scheme or `www.` are recognised too.
pub proof fn lemma_accepts_queries_and_short_forms(id: Seq<char>, query: Seq<char>)
    requires
        is_video_id(id),
        query.len() > 0,
        single_line_from(query, 0),
    ensures
        query[0] == '&' ==> video_id("https://www.youtube.com/watch?v="@ + id + query) == Some(id),
        query[0] == '?' ==> video_id("https://www.youtube.com/embed/"@ + id + query) == Some(id),
        video_id("youtube.com/watch?v="@ + id) == Some(id),
        video_id("youtu.be/"@ + id) == Some(id),
{
    reveal_strlit("https://www.youtube.com/watch?v=");
    reveal_strlit("https://www.youtube.com/embed/");
    reveal_strlit("youtube.com/watch?v=");
    reveal_strlit("youtu.be/");
    reveal_strlit("http://");
    reveal_strlit("https://");
    reveal_strlit("www.");
    reveal_strlit("youtube");
    reveal_strlit("watch?v=");
    reveal_strlit("embed/");
    let w = "https://www.youtube.com/watch?v="@ + id + query;
    assert(w.subrange(0, 7)[4] != "http://"@[4]);
    assert(w.subrange(0, 8) =~= "https://"@);
    assert(w.subrange(8, 12) =~= "www."@);
    assert(w.subrange(12, 19) =~= "youtube"@);
    assert(w.subrange(24, 32) =~= "watch?v="@);
    assert(w.subrange(32, 43) =~= id);
    assert forall|k: int| 43 <= k < w.len() implies #[trigger] w[k] != '\n' by {
        assert(w[k] == query[k - 43]);
    }
    if query[0] == '&' {
        assert(watch_id(w) == Some(id));
    }
    let e = "https://www.youtube.com/embed/"@ + id + query;
    assert(e.subrange(0, 7)[4] != "http://"@[4]);
    assert(e.subrange(0, 8) =~= "https://"@);
    assert(e.subrange(8, 12) =~= "www."@);
    assert(e.subrange(12, 19) =~= "youtube"@);
    assert(e.subrange(24, 32)[0] != "watch?v="@[0]);
    assert(e.subrange(24, 30) =~= "embed/"@);
    assert(e.subrange(30, 41) =~= id);
    assert forall|k: int| 41 <= k < e.len() implies #[trigger] e[k] != '\n' by {
        assert(e[k] == query[k - 41]);
    }
    if query[0] == '?' {
        assert(watch_id(e) is None);
        assert(embed_id(e) == Some(id));
    }
    let v = "youtube.com/watch?v="@ + id;
    assert(v.subrange(0, 7)[0] != "http://"@[0]);
    assert(v.subrange(0, 8)[0] != "https://"@[0]);
    assert(v.subrange(0, 4)[0] != "www."@[0]);
    assert(v.subrange(0, 7) =~= "youtube"@);
    assert(v.subrange(12, 20) =~= "watch?v="@);
    assert(v.subrange(20, 31) =~= id);
    assert(watch_id(v) == Some(id));
    let s = "youtu.be/"@ + id;
    assert(s.subrange(0, 7)[0] != "http://"@[0]);
    assert(s.subrange(0, 8)[0] != "https://"@[0]);
    assert(s.subrange(0, 4)[0] != "www."@[0]);
    assert(s.subrange(0, 7)[5] != "youtube"@[5]);
    assert(s.subrange(0, 9) =~= "youtu.be/"@);
    assert(s.subrange(9, 20) =~= id);
    assert(watch_id(s) is None);
    assert(embed_id(s) is None);
    assert(short_link_id(s) == Some(id));
}

/// A link of ten or twelve characters carries no identifier.
pub proof fn lemma_rejects_wrong_length(s: Seq<char>)
    requires
        s.len() == 10 || s.len() == 12,
    ensures
        video_id(s) is None,
{
}

/// Eleven characters that include one outside `[A-Za-z0-9_-]` carry no
/// identifier.
pub proof fn lemma_rejects_foreign_char(s: Seq<char>, i: int)
    requires
        s.len() == 11,
        0 <= i < 11,
        !is_id_char(s[i]),
    ensures
        video_id(s) is None,
{
}

} // verus!
