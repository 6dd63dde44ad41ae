//! Defensive normalization of client-supplied path segments, and extraction
//! of the extension a filename claims.

use vstd::prelude::*;
use vstd::string::*;

use crate::text::push_char;

verus! {

/// A path separator: both forward and back slashes are treated as one.
pub open spec fn is_separator(c: char) -> bool {
    c == '/' || c == '\\'
}

/// A character a sanitized filename may keep: ASCII letters, digits, hyphen,
/// underscore and period.
pub open spec fn allowed_char(c: char) -> bool {
    ('A' <= c && c <= 'Z') || ('a' <= c && c <= 'z') || ('0' <= c && c <= '9') || c == '-' || c
        == '_' || c == '.'
}

/// The final path segment: everything after the last separator (the whole
/// string when it has no separator, empty when it ends in one).
pub open spec fn last_segment(s: Seq<char>) -> Seq<char>
    decreases s.len(),
{
    if s.len() == 0 {
        s
    } else if is_separator(s.last()) {
        Seq::<char>::empty()
    } else {
        last_segment(s.drop_last()).push(s.last())
    }
}

/// The subsequence of characters the sanitizer keeps, in order.
pub open spec fn keep_allowed(s: Seq<char>) -> Seq<char>
    decreases s.len(),
{
    if s.len() == 0 {
        Seq::<char>::empty()
    } else if allowed_char(s.last()) {
        keep_allowed(s.drop_last()).push(s.last())
    } else {
        keep_allowed(s.drop_last())
    }
}

/// The string with every leading period removed.
pub open spec fn strip_leading_dots(s: Seq<char>) -> Seq<char>
    decreases s.len(),
{
    if s.len() > 0 && s.first() == '.' {
        strip_leading_dots(s.drop_first())
    } else {
        s
    }
}

/// What sanitization produces: the final path segment, filtered to the
/// allowed alphabet, with leading periods stripped.
pub open spec fn sanitize_spec(s: Seq<char>) -> Seq<char> {
    strip_leading_dots(keep_allowed(last_segment(s)))
}

proof fn lemma_last_segment_subrange(s: Seq<char>, k: int)
    requires
        0 <= k <= s.len(),
        forall|j: int| k <= j < s.len() ==> !is_separator(s[j]),
        k > 0 ==> is_separator(s[k - 1]),
    ensures
        last_segment(s) == s.subrange(k, s.len() as int),
    decreases s.len(),
{
    if s.len() == k {
        if k == 0 {
            assert(last_segment(s) =~= s.subrange(k, s.len() as int));
        } else {
            assert(is_separator(s.last()));
            assert(last_segment(s) =~= s.subrange(k, s.len() as int));
        }
    } else {
        assert(!is_separator(s.last()));
        lemma_last_segment_subrange(s.drop_last(), k);
        assert(last_segment(s) =~= s.subrange(k, s.len() as int));
    }
}

proof fn lemma_strip_leading_dots_subrange(s: Seq<char>, k: int)
    requires
        0 <= k <= s.len(),
        forall|j: int| 0 <= j < k ==> s[j] == '.',
        k < s.len() ==> s[k] != '.',
    ensures
        strip_leading_dots(s) == s.subrange(k, s.len() as int),
    decreases k,
{
    if k == 0 {
        assert(strip_leading_dots(s) =~= s.subrange(0, s.len() as int));
    } else {
        assert(s.first() == '.');
        lemma_strip_leading_dots_subrange(s.drop_first(), k - 1);
        assert(s.drop_first().subrange(k - 1, s.drop_first().len() as int) =~= s.subrange(
            k,
            s.len() as int,
        ));
    }
}

/// Normalize a client-supplied name before any filesystem use: keep only the
/// final path segment, drop every character outside the allowed alphabet,
/// and strip leading periods. The result (possibly empty) is safe to append
/// to a directory path.
pub fn sanitize_filename(input: &str) -> (r: String)
    ensures
        r@ == sanitize_spec(input@),
{
    let len = input.unicode_len();

    // Index of the first character after the last separator.
    let mut k: usize = 0;
    let mut i: usize = 0;
    while i < len
        invariant
            len == input@.len(),
            0 <= k <= i <= len,
            forall|j: int| k <= j < i ==> !is_separator(input@[j]),
            k > 0 ==> is_separator(input@[k - 1]),
        decreases len - i,
    {
        let c = input.get_char(i);
        if c == '/' || c == '\\' {
            k = i + 1;
        }
        i += 1;
    }
    proof {
        lemma_last_segment_subrange(input@, k as int);
    }

    // Keep only the allowed characters of the segment.
    let mut filtered = String::new();
    let mut i2: usize = k;
    while i2 < len
        invariant
            len == input@.len(),
            k <= i2 <= len,
            filtered@ == keep_allowed(input@.subrange(k as int, i2 as int)),
        decreases len - i2,
    {
        let c = input.get_char(i2);
        let keep = ('A' <= c && c <= 'Z') || ('a' <= c && c <= 'z') || ('0' <= c && c <= '9') || c
            == '-' || c == '_' || c == '.';
        if keep {
            push_char(&mut filtered, c);
        }
        proof {
            let pre = input@.subrange(k as int, i2 as int);
            let post = input@.subrange(k as int, i2 + 1);
            assert(post.drop_last() =~= pre);
            assert(post.last() == input@[i2 as int]);
        }
        i2 += 1;
    }
    proof {
        assert(filtered@ == keep_allowed(last_segment(input@)));
    }

    // Strip leading periods.
    let flen = filtered.as_str().unicode_len();
    let mut d: usize = 0;
    while d < flen && filtered.as_str().get_char(d) == '.'
        invariant
            flen == filtered@.len(),
            0 <= d <= flen,
            forall|j: int| 0 <= j < d ==> filtered@[j] == '.',
        decreases flen - d,
    {
        d += 1;
    }
    proof {
        lemma_strip_leading_dots_subrange(filtered@, d as int);
    }
    let tail = filtered.as_str().substring_char(d, flen);
    String::from_str(tail)
}

proof fn lemma_keep_allowed_all_allowed(s: Seq<char>)
    ensures
        forall|i: int|
            0 <= i < keep_allowed(s).len() ==> allowed_char(#[trigger] keep_allowed(s)[i]),
    decreases s.len(),
{
    if s.len() > 0 {
        lemma_keep_allowed_all_allowed(s.drop_last());
        let rest = keep_allowed(s.drop_last());
        assert forall|i: int|
            0 <= i < keep_allowed(s).len() implies allowed_char(#[trigger] keep_allowed(s)[i]) by {
            if i < rest.len() {
                assert(keep_allowed(s)[i] == rest[i]);
            } else {
                assert(allowed_char(s.last()));
            }
        }
    }
}

proof fn lemma_strip_is_suffix(s: Seq<char>)
    ensures
        exists|k: int|
            0 <= k <= s.len() && strip_leading_dots(s) == s.subrange(k, s.len() as int),
    decreases s.len(),
{
    if s.len() > 0 && s.first() == '.' {
        lemma_strip_is_suffix(s.drop_first());
        let k0 = choose|k0: int|
            0 <= k0 <= s.drop_first().len() && strip_leading_dots(s.drop_first())
                == s.drop_first().subrange(k0, s.drop_first().len() as int);
        assert(s.drop_first().subrange(k0, s.drop_first().len() as int) =~= s.subrange(
            k0 + 1,
            s.len() as int,
        ));
    } else {
        assert(strip_leading_dots(s) =~= s.subrange(0, s.len() as int));
    }
}

proof fn lemma_strip_no_leading_dot(s: Seq<char>)
    ensures
        strip_leading_dots(s).len() > 0 ==> strip_leading_dots(s)[0] != '.',
    decreases s.len(),
{
    if s.len() > 0 && s.first() == '.' {
        lemma_strip_no_leading_dot(s.drop_first());
    }
}

/// Sanitization is safe against path traversal: no character outside the
/// allowed alphabet survives it — in particular no path separator — and its
/// result never begins with a period, so it cannot name a parent directory
/// or a hidden file.
pub proof fn lemma_sanitized_is_path_safe(s: Seq<char>)
    ensures
        forall|i: int|
            0 <= i < sanitize_spec(s).len() ==> allowed_char(#[trigger] sanitize_spec(s)[i]),
        forall|i: int| 0 <= i < sanitize_spec(s).len() ==> !is_separator(sanitize_spec(s)[i]),
        sanitize_spec(s).len() > 0 ==> sanitize_spec(s)[0] != '.',
{
    let kept = keep_allowed(last_segment(s));
    lemma_keep_allowed_all_allowed(last_segment(s));
    lemma_strip_no_leading_dot(kept);
    lemma_strip_is_suffix(kept);
    let k = choose|k: int|
        0 <= k <= kept.len() && strip_leading_dots(kept) == kept.subrange(k, kept.len() as int);
    assert(forall|i: int|
        0 <= i < sanitize_spec(s).len() ==> allowed_char(#[trigger] sanitize_spec(s)[i])) by {
        assert(forall|i: int|
            0 <= i < kept.subrange(k, kept.len() as int).len() ==> kept.subrange(
                k,
                kept.len() as int,
            )[i] == kept[k + i]);
    }
}

/// Index of the last period in the string, or -1 when it has none.
pub open spec fn last_dot(s: Seq<char>) -> int
    decreases s.len(),
{
    if s.len() == 0 {
        -1
    } else if s.last() == '.' {
        s.len() - 1
    } else {
        last_dot(s.drop_last())
    }
}

/// The extension a filename claims: the part after its last period. A period
/// as the first character does not begin an extension, so a name with no
/// period, or only a leading one, claims none.
pub open spec fn extension_spec(s: Seq<char>) -> Option<Seq<char>> {
    if last_dot(s) <= 0 {
        None
    } else {
        Some(s.subrange(last_dot(s) + 1, s.len() as int))
    }
}

proof fn lemma_last_dot_at(s: Seq<char>, k: int)
    requires
        0 <= k < s.len(),
        s[k] == '.',
        forall|j: int| k < j < s.len() ==> s[j] != '.',
    ensures
        last_dot(s) == k,
    decreases s.len(),
{
    if k == s.len() - 1 {
    } else {
        lemma_last_dot_at(s.drop_last(), k);
    }
}

proof fn lemma_no_dot(s: Seq<char>)
    requires
        forall|j: int| 0 <= j < s.len() ==> s[j] != '.',
    ensures
        last_dot(s) == -1,
    decreases s.len(),
{
    if s.len() > 0 {
        lemma_no_dot(s.drop_last());
    }
}

/// The extension of a filename, executable form.
pub fn extension_of(name: &str) -> (r: Option<String>)
    ensures
        match r {
            Some(e) => extension_spec(name@) == Some(e@),
            None => extension_spec(name@) is None,
        },
{
    let len = name.unicode_len();
    let mut dot: usize = 0;
    let mut found = false;
    let mut i: usize = 0;
    while i < len
        invariant
            len == name@.len(),
            0 <= i <= len,
            found ==> dot < i && name@[dot as int] == '.',
            forall|j: int| 0 <= j < i && (!found || dot < j) ==> name@[j] != '.',
        decreases len - i,
    {
        if name.get_char(i) == '.' {
            dot = i;
            found = true;
        }
        i += 1;
    }
    if !found {
        proof {
            lemma_no_dot(name@);
        }
        None
    } else if dot == 0 {
        proof {
            lemma_last_dot_at(name@, 0);
        }
        None
    } else {
        proof {
            lemma_last_dot_at(name@, dot as int);
        }
        let tail = name.substring_char(dot + 1, len);
        Some(String::from_str(tail))
    }
}

} // verus!
