use vstd::prelude::*;

verus! {

/// The HTTP methods a job request may name.
#[derive(Clone, Copy, Debug, PartialEq, Eq, Structural)]
pub enum HttpMethod {
    Get,
    Post,
    Put,
    Patch,
    Delete,
    Options,
    Head,
}

/// What `str::to_lowercase` makes of a text.
pub uninterp spec fn lower_of(s: Seq<char>) -> Seq<char>;

/// Relies on `str::to_lowercase`: the result depends on the characters alone.
#[verifier::external_body]
pub(crate) fn lowercase(s: &str) -> (r: String)
    ensures
        r@ == lower_of(s@),
{
    s.to_lowercase()
}

/// The method that an already lower-cased name denotes; any other name means GET.
pub open spec fn method_of_lower(l: Seq<char>) -> HttpMethod {
    if l == seq!['g', 'e', 't'] {
        HttpMethod::Get
    } else if l == seq!['p', 'o', 's', 't'] {
        HttpMethod::Post
    } else if l == seq!['p', 'u', 't'] {
        HttpMethod::Put
    } else if l == seq!['p', 'a', 't', 'c', 'h'] {
        HttpMethod::Patch
    } else if l == seq!['o', 'p', 't', 'i', 'o', 'n', 's'] {
        HttpMethod::Options
    } else if l == seq!['d', 'e', 'l', 'e', 't', 'e'] {
        HttpMethod::Delete
    } else if l == seq!['h', 'e', 'a', 'd'] {
        HttpMethod::Head
    } else {
        HttpMethod::Get
    }
}

/// Whether two texts hold the same characters.
pub fn text_eq(a: &str, b: &str) -> (r: bool)
    ensures
        r == (a@ == b@),
{
    let n = a.unicode_len();
    if n != b.unicode_len() {
        return false;
    }
    let mut i: usize = 0;
    while i < n
        invariant
            n == a@.len(),
            n == b@.len(),
            i <= n,
            a@.subrange(0, i as int) == b@.subrange(0, i as int),
        decreases n - i,
    {
        if a.get_char(i) != b.get_char(i) {
            return false;
        }
        assert(a@.subrange(0, i + 1) == a@.subrange(0, i as int).push(a@[i as int]));
        assert(b@.subrange(0, i + 1) == b@.subrange(0, i as int).push(b@[i as int]));
        i = i + 1;
    }
    assert(a@ == a@.subrange(0, n as int));
    assert(b@ == b@.subrange(0, n as int));
    true
}

/// Maps an already lower-cased method name to its method.
pub fn method_from_lower(l: &str) -> (r: HttpMethod)
    ensures
        r == method_of_lower(l@),
{
    proof {
        reveal_strlit("get");
        assert("get"@ =~= seq!['g', 'e', 't']);
        reveal_strlit("post");
        assert("post"@ =~= seq!['p', 'o', 's', 't']);
        reveal_strlit("put");
        assert("put"@ =~= seq!['p', 'u', 't']);
        reveal_strlit("patch");
        assert("patch"@ =~= seq!['p', 'a', 't', 'c', 'h']);
        reveal_strlit("options");
        assert("options"@ =~= seq!['o', 'p', 't', 'i', 'o', 'n', 's']);
        reveal_strlit("delete");
        assert("delete"@ =~= seq!['d', 'e', 'l', 'e', 't', 'e']);
        reveal_strlit("head");
        assert("head"@ =~= seq!['h', 'e', 'a', 'd']);
    }
    if text_eq(l, "get") {
        HttpMethod::Get
    } else if text_eq(l, "post") {
        HttpMethod::Post
    } else if text_eq(l, "put") {
        HttpMethod::Put
    } else if text_eq(l, "patch") {
        HttpMethod::Patch
    } else if text_eq(l, "options") {
        HttpMethod::Options
    } else if text_eq(l, "delete") {
        HttpMethod::Delete
    } else if text_eq(l, "head") {
        HttpMethod::Head
    } else {
        HttpMethod::Get
    }
}

/// Resolves a configured method name, ignoring case; an unknown name means GET.
pub fn get_method(method: &str) -> (r: HttpMethod)
    ensures
        r == method_of_lower(lower_of(method@)),
{
    let l = lowercase(method);
    method_from_lower(l.as_str())
}

} // verus!
