use vstd::prelude::*;
use crate::method::{HttpMethod, get_method, lower_of, lowercase, method_of_lower, text_eq};
use crate::model::{HeaderModel, HttpJobRequest, RequestModel, headers_view, opt_text_view};

verus! {

/// The request one attempt sends: resolved method, target, headers in order, and body.
#[derive(Clone, Debug)]
pub struct PreparedRequest {
    pub method: HttpMethod,
    pub url: String,
    pub headers: Vec<(String, String)>,
    pub body: Option<String>,
}

pub open spec fn content_type_lower() -> Seq<char> {
    seq!['c', 'o', 'n', 't', 'e', 'n', 't', '-', 't', 'y', 'p', 'e']
}

pub open spec fn json_content_header() -> HeaderModel {
    (
        seq!['C', 'o', 'n', 't', 'e', 'n', 't', '-', 'T', 'y', 'p', 'e'],
        seq!['a', 'p', 'p', 'l', 'i', 'c', 'a', 't', 'i', 'o', 'n', '/', 'j', 's', 'o', 'n'],
    )
}

pub open spec fn is_content_type(name: Seq<char>) -> bool {
    lower_of(name) == content_type_lower()
}

/// The headers with every `Content-Type` entry (in any case) left out.
pub open spec fn without_content_type(hs: Seq<HeaderModel>) -> Seq<HeaderModel>
    decreases hs.len(),
{
    if hs.len() == 0 {
        seq![]
    } else {
        let rest = without_content_type(hs.drop_last());
        if is_content_type(hs.last().0) {
            rest
        } else {
            rest.push(hs.last())
        }
    }
}

/// The headers an attempt sends: the configured ones, except that a request with a body
/// carries `Content-Type: application/json` in place of any configured content type.
pub open spec fn sent_headers(req: RequestModel) -> Seq<HeaderModel> {
    let explicit = match req.headers {
        Some(hs) => hs,
        None => seq![],
    };
    match req.body {
        Some(_) => without_content_type(explicit).push(json_content_header()),
        None => explicit,
    }
}

/// Builds the request that each attempt of a firing sends.
pub fn prepare_request(req: &HttpJobRequest) -> (r: PreparedRequest)
    ensures
        r.method == method_of_lower(lower_of(req.method@)),
        r.url@ == req.url@,
        opt_text_view(r.body) == req@.body,
        headers_view(r.headers@) == sent_headers(req@),
{
    let method = get_method(req.method.as_str());
    let has_body = req.body.is_some();
    let mut headers: Vec<(String, String)> = Vec::new();
    let ghost explicit: Seq<HeaderModel> = match req@.headers {
        Some(hs) => hs,
        None => seq![],
    };
    match &req.headers {
        Some(hs) => {
            let mut i: usize = 0;
            while i < hs.len()
                invariant
                    i <= hs@.len(),
                    explicit == headers_view(hs@),
                    has_body ==> headers_view(headers@) == without_content_type(
                        explicit.subrange(0, i as int),
                    ),
                    !has_body ==> headers_view(headers@) == explicit.subrange(0, i as int),
                decreases hs@.len() - i,
            {
                let name = &hs[i].0;
                let value = &hs[i].1;
                assert(explicit.subrange(0, i + 1).drop_last() =~= explicit.subrange(0, i as int));
                assert(explicit[i as int] == (name@, value@));
                let skip = if has_body {
                    let l = lowercase(name.as_str());
                    proof {
                        reveal_strlit("content-type");
                        assert("content-type"@ =~= content_type_lower());
                    }
                    text_eq(l.as_str(), "content-type")
                } else {
                    false
                };
                if !skip {
                    let ghost before = headers@;
                    headers.push((name.clone(), value.clone()));
                    assert(headers_view(headers@) =~= headers_view(before).push(
                        (name@, value@),
                    ));
                }
                i = i + 1;
            }
            assert(explicit.subrange(0, i as int) =~= explicit);
        },
        None => {},
    }
    if has_body {
        proof {
            reveal_strlit("Content-Type");
            reveal_strlit("application/json");
            assert("Content-Type"@ =~= json_content_header().0);
            assert("application/json"@ =~= json_content_header().1);
        }
        let ghost before = headers@;
        headers.push(("Content-Type".to_string(), "application/json".to_string()));
        assert(headers_view(headers@) =~= headers_view(before).push(json_content_header()));
    }
    let body = match &req.body {
        Some(b) => Some(b.clone()),
        None => None,
    };
    PreparedRequest { method, url: req.url.clone(), headers, body }
}

} // verus!
