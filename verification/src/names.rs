use vstd::prelude::*;
use vstd::string::*;
use crate::error::Error;

verus! {

/// `String::push` appends one character to the end of the string.
pub assume_specification[ String::push ](s: &mut String, ch: char)
    ensures
        final(s)@ == old(s)@.push(ch),
;

/// No character of `s` is a colon.
pub open spec fn no_colon(s: Seq<char>) -> bool {
    forall|i: int| 0 <= i < s.len() ==> s[i] != ':'
}

/// A name or a tag: at least one character, none of them a colon.
pub open spec fn is_segment(s: Seq<char>) -> bool {
    s.len() > 0 && no_colon(s)
}

/// The tag that an image name without a tag stands for.
pub open spec fn default_tag() -> Seq<char> {
    seq!['l', 'a', 't', 'e', 's', 't']
}

/// `text` is the image `name`, alone or followed by a colon and `tag`; alone,
/// it stands for the default tag.
pub open spec fn names_image(text: Seq<char>, name: Seq<char>, tag: Seq<char>) -> bool {
    &&& is_segment(name)
    &&& {
        ||| (text == name && tag == default_tag())
        ||| (is_segment(tag) && text == name + seq![':'] + tag)
    }
}

/// A text names at most one image: name and tag are determined by it.
pub proof fn names_image_unique(
    text: Seq<char>,
    n1: Seq<char>,
    t1: Seq<char>,
    n2: Seq<char>,
    t2: Seq<char>,
)
    requires
        names_image(text, n1, t1),
        names_image(text, n2, t2),
    ensures
        n1 == n2,
        t1 == t2,
{
    let k1 = n1.len() as int;
    let k2 = n2.len() as int;
    if text == n1 {
        if text != n2 {
            assert(text[k2] == ':');
            assert(n1[k2] == ':');
        }
    } else {
        assert(text[k1] == ':');
        if text == n2 {
            assert(n2[k1] == ':');
        } else {
            assert(text[k2] == ':');
            if k1 < k2 {
                assert(n2[k1] == text[k1]);
            } else if k2 < k1 {
                assert(n1[k2] == text[k2]);
            }
            assert(n1 =~= text.take(k1));
            assert(n2 =~= text.take(k2));
            assert(t1 =~= text.skip(k1 + 1));
            assert(t2 =~= text.skip(k2 + 1));
        }
    }
}

/// The characters of `s` with every slash replaced by a hyphen.
pub open spec fn sanitized(s: Seq<char>) -> Seq<char> {
    Seq::new(
        s.len(),
        |i: int|
            if s[i] == '/' {
                '-'
            } else {
                s[i]
            },
    )
}

/// Makes an image name usable as a single path component: each `/` becomes `-`.
pub fn sanitize_path(s: &str) -> (out: String)
    ensures
        out@ == sanitized(s@),
{
    let n: usize = s.unicode_len();
    let mut out = String::new();
    let mut i: usize = 0;
    while i < n
        invariant
            n == s@.len(),
            0 <= i <= n,
            out@ == sanitized(s@).take(i as int),
        decreases n - i,
    {
        let c = s.get_char(i);
        if c == '/' {
            out.push('-');
        } else {
            out.push(c);
        }
        assert(out@ =~= sanitized(s@).take(i + 1));
        i = i + 1;
    }
    assert(out@ =~= sanitized(s@));
    out
}

/// The index of the first colon at or after `from`, or the length of `s`.
fn find_colon(s: &str, from: usize, n: usize) -> (at: usize)
    requires
        n == s@.len(),
        from <= n,
    ensures
        from <= at <= n,
        forall|j: int| from <= j < at ==> s@[j] != ':',
        at < n ==> s@[at as int] == ':',
{
    let mut i: usize = from;
    while i < n
        invariant
            n == s@.len(),
            from <= i <= n,
            forall|j: int| from <= j < i ==> s@[j] != ':',
        decreases n - i,
    {
        if s.get_char(i) == ':' {
            return i;
        }
        i = i + 1;
    }
    i
}

/// Splits `image` or `image:tag` into name and tag; a missing tag is `latest`.
/// Anything else (an empty part, a second colon) is refused.
pub fn parse_distro_name(distro: &str) -> (r: Result<(String, String), Error>)
    ensures
        match r {
            Ok((name, tag)) => names_image(distro@, name@, tag@),
            Err(e) => e == Error::InvalidDistroName && forall|n: Seq<char>, t: Seq<char>|
                !names_image(distro@, n, t),
        },
{
    let len: usize = distro.unicode_len();
    let at: usize = find_colon(distro, 0, len);
    if at == len {
        if len == 0 {
            return Err(Error::InvalidDistroName);
        }
        assert forall|n: Seq<char>, t: Seq<char>| names_image(distro@, n, t) implies n
            == distro@ && t == default_tag() by {
            if distro@ != n {
                assert(distro@[n.len() as int] == ':');
            }
        }
        proof {
            reveal_strlit("latest");
            assert("latest"@ =~= default_tag());
        }
        return Ok((distro.to_owned(), "latest".to_owned()));
    }
    let ghost name_part = distro@.take(at as int);
    let ghost tag_part = distro@.skip(at + 1);
    assert forall|n: Seq<char>, t: Seq<char>| names_image(distro@, n, t) implies n == name_part
        && t == tag_part by {
        let k = n.len() as int;
        if distro@ == n {
            assert(n[at as int] == ':');
        } else {
            assert(distro@[k] == ':');
            if at < k {
                assert(n[at as int] == distro@[at as int]);
            }
            assert(n =~= name_part);
            assert(t =~= tag_part);
        }
    }
    let end: usize = find_colon(distro, at + 1, len);
    if at == 0 || at + 1 == len || end < len {
        proof {
            if end < len {
                assert(tag_part[end - at - 1] == ':');
            }
        }
        return Err(Error::InvalidDistroName);
    }
    let name = distro.substring_char(0, at).to_owned();
    let tag = distro.substring_char(at + 1, len).to_owned();
    proof {
        assert(name@ =~= name_part);
        assert(tag@ =~= tag_part);
        assert(distro@ =~= name_part + seq![':'] + tag_part);
    }
    Ok((name, tag))
}

/// `name`, a colon, `tag`: how the image tools are told which image is meant.
pub fn image_reference(name: &str, tag: &str) -> (out: String)
    ensures
        out@ == name@ + seq![':'] + tag@,
{
    let mut out = name.to_owned();
    out.push(':');
    out.append(tag);
    out
}

/// The name a distribution is installed under when the caller gives none:
/// the sanitized image name, a hyphen, the tag.
pub fn default_install_name(name: &str, tag: &str) -> (out: String)
    ensures
        out@ == sanitized(name@) + seq!['-'] + tag@,
{
    let mut out = sanitize_path(name);
    out.push('-');
    out.append(tag);
    out
}

/// The file a downloaded root filesystem is saved to: the default install
/// name followed by `.tar.gz`.
pub fn tarball_file_name(name: &str, tag: &str) -> (out: String)
    ensures
        out@ == sanitized(name@) + seq!['-'] + tag@ + ".tar.gz"@,
{
    let mut out = default_install_name(name, tag);
    out.append(".tar.gz");
    out
}

} // verus!
