use vstd::prelude::*;

verus! {

/// Name of the header that carries the correlation identifier.
pub const X_REQUEST_ID: &'static str = "x-request-id";

/// A character a header value may hold: visible ASCII or a tab.
pub open spec fn is_visible_ascii(c: char) -> bool {
    (' ' <= c && c <= '~') || c == '\t'
}

/// Why a correlation header was refused.
#[derive(Clone, Copy, Debug, PartialEq, Eq, Structural)]
pub enum HeaderError {
    /// The header is absent.
    Missing,
    /// Its value holds a character other than visible ASCII or a tab.
    Invalid,
}

/// The correlation identifier of one request, as the `x-request-id` header carried it.
#[derive(Clone, Debug, PartialEq)]
pub struct RequestId {
    value: String,
}

impl RequestId {
    pub closed spec fn view_text(&self) -> Seq<char> {
        self.value@
    }

    /// The identifier carried by the first value of the header: refused where
    /// there is none, or where it holds anything but visible ASCII and tabs.
    pub fn decode(first: Option<&str>) -> (r: Result<RequestId, HeaderError>)
        ensures
            first is None ==> r == Err::<RequestId, HeaderError>(HeaderError::Missing),
            first is Some && (forall|i: int| 0 <= i < first->Some_0@.len() ==> is_visible_ascii(#[trigger] first->Some_0@[i]))
                ==> r is Ok && r->Ok_0.view_text() == first->Some_0@,
            first is Some && !(forall|i: int| 0 <= i < first->Some_0@.len() ==> is_visible_ascii(#[trigger] first->Some_0@[i]))
                ==> r == Err::<RequestId, HeaderError>(HeaderError::Invalid),
    {
        let text = match first {
            None => {
                return Err(HeaderError::Missing);
            },
            Some(text) => text,
        };
        let n = text.unicode_len();
        let mut i: usize = 0;
        while i < n
            invariant
                first == Some(text),
                n == text@.len(),
                i <= n,
                forall|k: int| 0 <= k < i ==> is_visible_ascii(#[trigger] text@[k]),
            decreases n - i,
        {
            let c = text.get_char(i);
            if !((' ' <= c && c <= '~') || c == '\t') {
                assert(!is_visible_ascii(first->Some_0@[i as int]));
                return Err(HeaderError::Invalid);
            }
            i = i + 1;
        }
        Ok(RequestId { value: text.to_owned() })
    }

    /// The identifier's text.
    pub fn value(&self) -> (r: &String)
        ensures
            r@ == self.view_text(),
    {
        &self.value
    }
}

/// What travels with a request through the dispatch path: its correlation identifier.
#[derive(Clone, Debug, PartialEq)]
pub struct Context {
    request_id: RequestId,
}

impl Context {
    pub fn new(request_id: RequestId) -> (r: Self)
        ensures
            r.request_id_spec() == request_id,
    {
        Context { request_id }
    }

    pub closed spec fn request_id_spec(&self) -> RequestId {
        self.request_id
    }

    pub fn request_id(&self) -> (r: &RequestId)
        ensures
            *r == self.request_id_spec(),
    {
        &self.request_id
    }
}

} // verus!
