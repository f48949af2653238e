//! Paths as text, joined the way `Path::join` joins them on Unix.
use vstd::prelude::*;

verus! {

/// Whether `p` is an absolute path.
pub open spec fn is_absolute(p: Seq<char>) -> bool {
    p.len() > 0 && p[0] == '/'
}

/// `p` resolved against `base`: an absolute `p` stands alone; a relative one follows `base`,
/// with one separator between them.
pub open spec fn joined(base: Seq<char>, p: Seq<char>) -> Seq<char> {
    if is_absolute(p) {
        p
    } else if base.len() == 0 || base.last() == '/' {
        base + p
    } else {
        base + seq!['/'] + p
    }
}

/// Joins `p` to `base` as `Path::new(base).join(p)` does.
pub fn path_join(base: &str, p: &str) -> (r: String)
    ensures
        r@ == joined(base@, p@),
{
    let p_len = p.unicode_len();
    if p_len > 0 && p.get_char(0) == '/' {
        return String::from_str(p);
    }
    let mut r = String::from_str(base);
    let base_len = base.unicode_len();
    if base_len > 0 && base.get_char(base_len - 1) != '/' {
        proof { reveal_strlit("/"); }
        r.append("/");
        assert(r@ == base@ + seq!['/']);
    }
    r.append(p);
    r
}

} // verus!
