use vstd::prelude::*;

verus! {

/// What the character `c` becomes in HTML-escaped text.
pub open spec fn escape_char(c: char) -> Seq<char> {
    if c == '&' {
        "&amp;"@
    } else if c == '<' {
        "&lt;"@
    } else if c == '>' {
        "&gt;"@
    } else {
        seq![c]
    }
}

/// `s` with `&`, `<` and `>` written as HTML entities.
pub open spec fn escaped(s: Seq<char>) -> Seq<char>
    decreases s.len(),
{
    if s.len() == 0 {
        Seq::empty()
    } else {
        escaped(s.drop_last()) + escape_char(s.last())
    }
}

/// Escapes `&`, `<` and `>` so that `s` can be placed in HTML as text.
pub fn escape_html(s: &str) -> (r: String)
    ensures
        r@ == escaped(s@),
{
    let n = s.unicode_len();
    let mut r = String::new();
    let mut i: usize = 0;
    proof {
        reveal_strlit("&amp;");
        reveal_strlit("&lt;");
        reveal_strlit("&gt;");
    }
    while i < n
        invariant
            n == s@.len(),
            i <= n,
            r@ == escaped(s@.take(i as int)),
        decreases n - i,
    {
        let c = s.get_char(i);
        proof {
            assert(s@.take(i + 1).drop_last() =~= s@.take(i as int));
        }
        if c == '&' {
            r.append("&amp;");
        } else if c == '<' {
            r.append("&lt;");
        } else if c == '>' {
            r.append("&gt;");
        } else {
            let one = s.substring_char(i, i + 1);
            assert(one@ =~= seq![c]);
            r.append(one);
        }
        i = i + 1;
    }
    assert(s@.take(n as int) =~= s@);
    r
}

/// The words that upstream puts where an image address is missing.
pub open spec fn is_placeholder(u: Seq<char>) -> bool {
    u.len() == 0 || u == "self"@ || u == "default"@ || u == "nsfw"@ || u == "spoiler"@
}

/// The address to show for an upstream image field: empty for a
/// placeholder word (`self`, `default`, `nsfw`, `spoiler`) or an empty field,
/// else the address exactly as given.
pub open spec fn display_url(u: Seq<char>) -> Seq<char> {
    if is_placeholder(u) {
        Seq::empty()
    } else {
        u
    }
}

fn is_word(s: &String, w: &str) -> (r: bool)
    ensures
        r == (s@ == w@),
{
    let w = String::from_str(w);
    s.eq(&w)
}

/// The address to show for an upstream image field `u`: blanks the
/// placeholder words that upstream puts where an image is missing, and
/// passes every other address through unchanged.
pub fn format_url(u: &str) -> (r: String)
    ensures
        r@ == display_url(u@),
{
    let s = String::from_str(u);
    if s.unicode_len() == 0 || is_word(&s, "self") || is_word(&s, "default") || is_word(&s, "nsfw")
        || is_word(&s, "spoiler") {
        String::new()
    } else {
        s
    }
}

} // verus!
