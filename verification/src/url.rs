use vstd::prelude::*;

verus! {

/// The canonical shape of a public URL prefix: a leading slash is put on
/// only where one is absent, then a trailing slash is put on only where the
/// result does not already end in one. Nothing else is changed: interior
/// slashes are kept as they are.
pub open spec fn norm_url(s: Seq<char>) -> Seq<char> {
    let t = if s.len() == 0 || s[0] != '/' {
        seq!['/'] + s
    } else {
        s
    };
    if t.last() != '/' {
        t.push('/')
    } else {
        t
    }
}

/// Ensure the given value for `--public-url` is formatted correctly.
pub fn parse_public_url(val: &str) -> (r: String)
    ensures
        r@ == norm_url(val@),
{
    let n = val.unicode_len();
    let needs_prefix = n == 0 || val.get_char(0) != '/';
    let needs_suffix = n > 0 && val.get_char(n - 1) != '/';
    proof {
        reveal_strlit("/");
    }
    let mut r = String::new();
    if needs_prefix {
        r.append("/");
    }
    r.append(val);
    if needs_suffix {
        r.append("/");
    }
    proof {
        assert(r@ =~= norm_url(val@));
    }
    r
}

/// Normalizing is idempotent: a value already in canonical shape is
/// returned unchanged, so normalizing twice is the same as normalizing once.
pub proof fn lemma_norm_url_idempotent(s: Seq<char>)
    ensures
        norm_url(norm_url(s)) == norm_url(s),
{
    let u = norm_url(s);
    assert(u.len() > 0);
    assert(u[0] == '/');
    assert(u.last() == '/');
}

/// A non-empty value with neither a leading nor a trailing slash is wrapped
/// in one slash on each side, and nothing else is changed.
pub proof fn lemma_norm_url_wraps(s: Seq<char>)
    requires
        s.len() > 0,
        s[0] != '/',
        s.last() != '/',
    ensures
        norm_url(s) == seq!['/'] + s + seq!['/'],
{
    assert(norm_url(s) =~= seq!['/'] + s + seq!['/']);
}

/// Every normalized value is non-empty, starts with a slash and ends with
/// a slash.
pub proof fn lemma_norm_url_slashes(s: Seq<char>)
    ensures
        norm_url(s).len() > 0,
        norm_url(s)[0] == '/',
        norm_url(s).last() == '/',
{
}

} // verus!
