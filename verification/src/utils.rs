//! URL normalization helpers shared by every page parser.

use vstd::prelude::*;
use vstd::string::*;

use crate::text::{
    chars_contain, chars_split_exact2, chars_to_lower, chars_to_string, count_char,
    first_index_of, has_substring, starts_with, str_chars, to_lower,
};

verus! {

/// What URL normalization returns: protocol-relative inputs gain an
/// `https:` scheme, site-relative inputs gain the site origin, and
/// everything else is left untouched.
pub open spec fn normalized_url(s: Seq<char>) -> Seq<char> {
    if s.len() >= 2 && s[0] == '/' && s[1] == '/' {
        "https:"@ + s
    } else if s.len() >= 1 && s[0] == '/' {
        "https://www.vlr.gg"@ + s
    } else {
        s
    }
}

/// Rewrite a possibly relative image or link URL into an absolute URL.
pub fn parse_img_link(s: &str) -> (r: String)
    ensures
        r@ == normalized_url(s@),
{
    let n = s.unicode_len();
    if n >= 2 && s.get_char(0) == '/' && s.get_char(1) == '/' {
        let mut r = String::from_str("https:");
        r.append(s);
        r
    } else if n >= 1 && s.get_char(0) == '/' {
        let mut r = String::from_str("https://www.vlr.gg");
        r.append(s);
        r
    } else {
        String::from_str(s)
    }
}

/// Normalize a potentially relative image URL to an absolute site URL.
pub fn normalize_img_url(s: &str) -> (r: String)
    ensures
        r@ == normalized_url(s@),
{
    parse_img_link(s)
}


/// The platform a social link points to, judged by well-known host
/// names in the lowercased URL; "other" when none matches.
pub open spec fn platform_of(url: Seq<char>) -> Seq<char> {
    let l = to_lower(url);
    if has_substring(l, "twitter.com"@) || has_substring(l, "x.com"@) {
        "twitter"@
    } else if has_substring(l, "twitch.tv"@) {
        "twitch"@
    } else if has_substring(l, "instagram.com"@) {
        "instagram"@
    } else if has_substring(l, "youtube.com"@) || has_substring(l, "youtu.be"@) {
        "youtube"@
    } else if has_substring(l, "tiktok.com"@) {
        "tiktok"@
    } else {
        "other"@
    }
}

/// Infer the social platform behind a profile link URL.
pub fn infer_platform(url: &str) -> (r: String)
    ensures
        r@ == platform_of(url@),
{
    let v = str_chars(url);
    let l = chars_to_lower(&v);
    if chars_contain(&l, "twitter.com") || chars_contain(&l, "x.com") {
        String::from_str("twitter")
    } else if chars_contain(&l, "twitch.tv") {
        String::from_str("twitch")
    } else if chars_contain(&l, "instagram.com") {
        String::from_str("instagram")
    } else if chars_contain(&l, "youtube.com") || chars_contain(&l, "youtu.be") {
        String::from_str("youtube")
    } else if chars_contain(&l, "tiktok.com") {
        String::from_str("tiktok")
    } else {
        String::from_str("other")
    }
}

/// The id and slug text of a detail-page path: what is left after the
/// prefix, split at its single slash. A path that does not carry the
/// prefix, or whose remainder does not hold exactly one slash, yields
/// two empty parts.
pub open spec fn href_id_slug(href: Seq<char>, prefix: Seq<char>) -> (Seq<char>, Seq<char>) {
    if starts_with(href, prefix) {
        let rest = href.subrange(prefix.len() as int, href.len() as int);
        if count_char(rest, '/') == 1 {
            let k = first_index_of(rest, '/');
            (rest.subrange(0, k), rest.subrange(k + 1, rest.len() as int))
        } else {
            (Seq::empty(), Seq::empty())
        }
    } else {
        (Seq::empty(), Seq::empty())
    }
}

/// Split a detail-page path into its id text and slug.
pub fn split_id_slug(href: &Vec<char>, prefix: &str) -> (r: (Vec<char>, Vec<char>))
    ensures
        r.0@ == href_id_slug(href@, prefix@).0,
        r.1@ == href_id_slug(href@, prefix@).1,
{
    match crate::text::chars_strip_prefix(href, prefix) {
        Some(rest) => {
            match chars_split_exact2(&rest, '/') {
                Some(parts) => parts,
                None => (Vec::new(), Vec::new()),
            }
        },
        None => (Vec::new(), Vec::new()),
    }
}

/// The first class token carrying the given marker prefix, with the
/// prefix stripped; how region and country codes are encoded in markup.
pub open spec fn first_prefixed_class(classes: Seq<Seq<char>>, prefix: Seq<char>) -> Option<
    Seq<char>,
>
    decreases classes.len(),
{
    if classes.len() == 0 {
        None
    } else if starts_with(classes[0], prefix) {
        Some(classes[0].subrange(prefix.len() as int, classes[0].len() as int))
    } else {
        first_prefixed_class(classes.drop_first(), prefix)
    }
}

/// Find the first class token starting with the prefix and strip it.
pub fn class_with_prefix(classes: &Vec<String>, prefix: &str) -> (r: Option<String>)
    ensures
        match r {
            Some(code) => first_prefixed_class(classes.deep_view(), prefix@) == Some(code@),
            None => first_prefixed_class(classes.deep_view(), prefix@) is None,
        },
{
    let ghost all = classes.deep_view();
    proof {
        assert(all.subrange(0, all.len() as int) =~= all);
    }
    let mut i: usize = 0;
    while i < classes.len()
        invariant
            i <= classes@.len(),
            all == classes.deep_view(),
            all.len() == classes@.len(),
            forall|j: int| 0 <= j < all.len() ==> all[j] == classes@[j]@,
            first_prefixed_class(all, prefix@) == first_prefixed_class(
                all.subrange(i as int, all.len() as int),
                prefix@,
            ),
        decreases classes@.len() - i,
    {
        let v = str_chars(classes[i].as_str());
        proof {
            let s = all.subrange(i as int, all.len() as int);
            assert(s[0] == all[i as int]);
            assert(s.drop_first() =~= all.subrange(i as int + 1, all.len() as int));
        }
        match crate::text::chars_strip_prefix(&v, prefix) {
            Some(rest) => {
                return Some(chars_to_string(&rest));
            },
            None => {},
        }
        i = i + 1;
    }
    None
}

/// An extracted text as an optional field: present exactly when the
/// text is non-empty, the shape every optional text field takes.
pub fn nonempty_opt(s: String) -> (r: Option<String>)
    ensures
        match r {
            Some(v) => v == s && s@.len() > 0,
            None => s@.len() == 0,
        },
{
    if s.as_str().is_empty() {
        None
    } else {
        Some(s)
    }
}

} // verus!
