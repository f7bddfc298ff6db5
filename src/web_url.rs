//! Turning what a user typed into a URL a web view can load.
use vstd::prelude::*;

verus! {

/// Unicode's `White_Space` characters, as `char::is_whitespace` knows them.
pub open spec fn is_white(c: char) -> bool {
    let n = c as u32;
    (0x09 <= n && n <= 0x0d) || n == 0x20 || n == 0x85 || n == 0xa0 || n == 0x1680 || (0x2000 <= n
        && n <= 0x200a) || n == 0x2028 || n == 0x2029 || n == 0x202f || n == 0x205f || n == 0x3000
}

/// `s` without its leading white space.
pub open spec fn trim_start(s: Seq<char>) -> Seq<char>
    decreases s.len(),
{
    if s.len() > 0 && is_white(s[0]) {
        trim_start(s.drop_first())
    } else {
        s
    }
}

/// `s` without its trailing white space.
pub open spec fn trim_end(s: Seq<char>) -> Seq<char>
    decreases s.len(),
{
    if s.len() > 0 && is_white(s.last()) {
        trim_end(s.drop_last())
    } else {
        s
    }
}

pub open spec fn trim(s: Seq<char>) -> Seq<char> {
    trim_end(trim_start(s))
}

pub open spec fn starts_with(s: Seq<char>, p: Seq<char>) -> bool {
    p.len() <= s.len() && s.subrange(0, p.len() as int) == p
}

pub open spec fn contains(s: Seq<char>, p: Seq<char>) -> bool {
    exists|i: int| 0 <= i && i + p.len() <= s.len() && #[trigger] s.subrange(i, i + p.len()) == p
}

/// Whether the text already names a scheme that a web view loads as it is.
pub open spec fn has_scheme(s: Seq<char>) -> bool {
    contains(s, "://"@) || starts_with(s, "about:"@) || starts_with(s, "file:"@) || starts_with(
        s,
        "data:"@,
    )
}

/// The URL for typed text: the text without surrounding white space; empty
/// stays empty, text with a scheme is kept, and anything else gets
/// `https://` in front.
pub open spec fn normalized_url(input: Seq<char>) -> Seq<char> {
    let t = trim(input);
    if t.len() == 0 {
        Seq::empty()
    } else if has_scheme(t) {
        t
    } else {
        "https://"@ + t
    }
}

fn white(c: char) -> (r: bool)
    ensures
        r == is_white(c),
{
    let n = c as u32;
    (0x09 <= n && n <= 0x0d) || n == 0x20 || n == 0x85 || n == 0xa0 || n == 0x1680 || (0x2000 <= n
        && n <= 0x200a) || n == 0x2028 || n == 0x2029 || n == 0x202f || n == 0x205f || n == 0x3000
}

/// The text without leading and trailing white space.
pub fn trim_text(input: &str) -> (r: &str)
    ensures
        r@ == trim(input@),
{
    let n = input.unicode_len();
    let mut i: usize = 0;
    assert(input@.subrange(0, n as int) =~= input@);
    while i < n && white(input.get_char(i))
        invariant
            0 <= i <= n,
            n == input@.len(),
            trim_start(input@) == trim_start(input@.subrange(i as int, n as int)),
        decreases n - i,
    {
        assert(input@.subrange(i as int, n as int).drop_first() =~= input@.subrange(
            i + 1,
            n as int,
        ));
        i = i + 1;
    }
    assert(trim_start(input@) == input@.subrange(i as int, n as int));
    let mut j: usize = n;
    while j > i && white(input.get_char(j - 1))
        invariant
            i <= j <= n,
            n == input@.len(),
            trim(input@) == trim_end(input@.subrange(i as int, j as int)),
        decreases j - i,
    {
        assert(input@.subrange(i as int, j as int).drop_last() =~= input@.subrange(
            i as int,
            j - 1,
        ));
        j = j - 1;
    }
    input.substring_char(i, j)
}

fn text_starts_with(s: &str, p: &str) -> (r: bool)
    ensures
        r == starts_with(s@, p@),
{
    let n = s.unicode_len();
    let m = p.unicode_len();
    if m > n {
        return false;
    }
    let mut k: usize = 0;
    while k < m
        invariant
            m <= n,
            n == s@.len(),
            m == p@.len(),
            0 <= k <= m,
            forall|t: int| 0 <= t < k ==> s@[t] == p@[t],
        decreases m - k,
    {
        if s.get_char(k) != p.get_char(k) {
            return false;
        }
        k = k + 1;
    }
    assert(s@.subrange(0, m as int) =~= p@);
    true
}

fn text_contains(s: &str, p: &str) -> (r: bool)
    ensures
        r == contains(s@, p@),
{
    let n = s.unicode_len();
    let m = p.unicode_len();
    if m > n {
        return false;
    }
    let mut i: usize = 0;
    while i <= n - m
        invariant
            m <= n,
            n == s@.len(),
            m == p@.len(),
            0 <= i <= n - m + 1,
            forall|t: int| 0 <= t < i ==> #[trigger] s@.subrange(t, t + m) != p@,
        decreases n - i,
    {
        let mut k: usize = 0;
        let mut same = true;
        while k < m
            invariant
                m <= n,
                i + m <= n,
                n == s@.len(),
                m == p@.len(),
                0 <= k <= m,
                same == (forall|t: int| 0 <= t < k ==> s@[i + t] == p@[t]),
            decreases m - k,
        {
            if s.get_char(i + k) != p.get_char(k) {
                same = false;
            }
            k = k + 1;
        }
        if same {
            assert(s@.subrange(i as int, i + m) =~= p@);
            return true;
        }
        assert(s@.subrange(i as int, i + m) != p@) by {
            let k = choose|k: int| 0 <= k < m && s@[i + k] != p@[k];
            assert(s@.subrange(i as int, i + m)[k] == s@[i + k]);
        }
        i = i + 1;
    }
    assert(!contains(s@, p@)) by {
        if contains(s@, p@) {
            let t = choose|t: int|
                0 <= t && t + p@.len() <= s@.len() && #[trigger] s@.subrange(t, t + p@.len())
                    == p@;
            assert(t < i);
        }
    }
    false
}

/// Normalise what a user typed as an address into a loadable URL.
pub fn normalize_web_url(input: &str) -> (r: String)
    ensures
        r@ == normalized_url(input@),
{
    let trimmed = trim_text(input);
    if trimmed.unicode_len() == 0 {
        return String::new();
    }
    if text_contains(trimmed, "://") || text_starts_with(trimmed, "about:") || text_starts_with(
        trimmed,
        "file:",
    ) || text_starts_with(trimmed, "data:") {
        return String::from_str(trimmed);
    }
    String::from_str("https://").concat(trimmed)
}

} // verus!
