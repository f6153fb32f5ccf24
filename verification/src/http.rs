//! The small HTTP surface that handlers and servers share: a request to read
//! from and a response to write to. Servers implement these traits; handlers
//! use them.

use vstd::prelude::*;
use vstd::string::StringExecFns;
use crate::seqs::{lemma_filter_empty, lemma_filter_push};

verus! {

/// An HTTP status code.
pub type StatusCode = u16;

/// The policy for buffering the content of a response.
#[derive(Clone, Copy, Debug, PartialEq, Eq, Structural)]
pub enum Buffering {
    /// Content is buffered, up to this many bytes.
    On(u32),
    /// Content is streamed as it is written.
    Off,
}

/// The model of a header field: name and value, as characters.
pub type Field = (Seq<char>, Seq<char>);

/// The lower-case form of a string, as `str::to_lowercase` of std gives it.
pub uninterp spec fn lowercase(s: Seq<char>) -> Seq<char>;

/// `str::to_lowercase` of std: the lower-case form of `s`, which depends on
/// the characters of `s` alone.
#[verifier::external_body]
pub(crate) fn to_lowercase(s: &str) -> (lowered: String)
    ensures
        lowered@ == lowercase(s@),
{
    s.to_lowercase()
}

/// Header names are compared without regard to letter case.
pub open spec fn same_name(a: Seq<char>, b: Seq<char>) -> bool {
    lowercase(a) == lowercase(b)
}

/// Field `i` is the first one named `name`, whatever the letter case.
pub open spec fn is_first_named(headers: Seq<(&str, &str)>, name: Seq<char>, i: int) -> bool {
    &&& 0 <= i < headers.len()
    &&& same_name(headers[i].0@, name)
    &&& forall|j: int| 0 <= j < i ==> !same_name(#[trigger] headers[j].0@, name)
}

/// String `i` is the first one equal to `wanted`.
pub open spec fn is_first_equal(names: Seq<String>, wanted: Seq<char>, i: int) -> bool {
    &&& 0 <= i < names.len()
    &&& names[i]@ == wanted
    &&& forall|j: int| 0 <= j < i ==> (#[trigger] names[j])@ != wanted
}

/// The index of the first string equal to `wanted`, if there is one.
pub fn first_equal(names: &Vec<String>, wanted: &String) -> (found: Option<usize>)
    ensures
        match found {
            Some(i) => is_first_equal(names@, wanted@, i as int),
            None => forall|j: int| 0 <= j < names@.len() ==> (#[trigger] names@[j])@ != wanted@,
        },
{
    let mut i: usize = 0;
    while i < names.len()
        invariant
            i <= names@.len(),
            forall|j: int| 0 <= j < i ==> (#[trigger] names@[j])@ != wanted@,
        decreases names@.len() - i,
    {
        if names[i] == *wanted {
            return Some(i);
        }
        i += 1;
    }
    None
}

/// The value of the first header field whose name is `name`, ignoring letter
/// case, or nothing when no field has that name.
pub fn get_header<'a>(headers: &'a [(&'a str, &'a str)], name: &str) -> (value: Option<&'a str>)
    ensures
        match value {
            Some(v) => exists|i: int| is_first_named(headers@, name@, i) && v@ == headers@[i].1@,
            None => forall|j: int|
                0 <= j < headers@.len() ==> !same_name(#[trigger] headers@[j].0@, name@),
        },
{
    let wanted = to_lowercase(name);
    let mut lowered: Vec<String> = Vec::new();
    let mut i: usize = 0;
    while i < headers.len()
        invariant
            i <= headers@.len(),
            lowered@.len() == i,
            forall|j: int| 0 <= j < i ==> (#[trigger] lowered@[j])@ == lowercase(headers@[j].0@),
        decreases headers@.len() - i,
    {
        lowered.push(to_lowercase(headers[i].0));
        i += 1;
    }
    match first_equal(&lowered, &wanted) {
        Some(k) => {
            assert(is_first_named(headers@, name@, k as int)) by {
                assert(lowered@[k as int]@ == lowercase(headers@[k as int].0@));
                assert forall|j: int| 0 <= j < k implies !same_name(
                    #[trigger] headers@[j].0@,
                    name@,
                ) by {
                    assert(lowered@[j]@ == lowercase(headers@[j].0@));
                }
            }
            Some(headers[k].1)
        },
        None => {
            assert forall|j: int| 0 <= j < headers@.len() implies !same_name(
                #[trigger] headers@[j].0@,
                name@,
            ) by {
                assert(lowered@[j]@ == lowercase(headers@[j].0@));
            }
            None
        },
    }
}

/// What a header lookup answers on the fields `headers`: the value of the
/// first field named `name`, whatever the letter case, or nothing when no
/// field has that name.
pub open spec fn is_header_value(
    headers: Seq<(&str, &str)>,
    name: Seq<char>,
    value: Option<&str>,
) -> bool {
    match value {
        Some(v) => exists|i: int| is_first_named(headers, name, i) && v@ == headers[i].1@,
        None => forall|j: int|
            0 <= j < headers.len() ==> !same_name(#[trigger] headers[j].0@, name),
    }
}

/// An incoming HTTP request, as a server presents it to a handler.
///
/// A type that is verified says in `spec_headers` which header fields it
/// holds; what is proved of its header lookups then rests on that. A type
/// that says nothing there can be written without a model, and nothing is
/// claimed of the fields it hands out.
pub trait Request {
    /// The header fields of the request in the order the server has them,
    /// where the type models them. One that does not say otherwise models
    /// none.
    open spec fn spec_headers(&self) -> Option<Seq<(&str, &str)>> {
        None
    }

    /// The request method. Letter case is not normalised.
    fn method(&self) -> String;

    /// The request path: it starts with `/` and excludes the query string.
    fn uri(&self) -> String;

    /// The protocol the request came with, such as `HTTP/1.1`.
    fn protocol(&self) -> String;

    /// The query string of the request, if the server knows it. A server
    /// that does not say otherwise knows none.
    fn query_string(&self) -> (query: Option<String>)
        default_ensures
            query.is_none(),
    {
        None
    }

    /// The header fields, as pairs of name and value: those of the model,
    /// where there is one.
    fn headers(&self) -> (fields: &[(&str, &str)])
        ensures
            self.spec_headers().is_some() ==> fields@ == self.spec_headers().unwrap(),
    ;

    /// The value of a header field, looked up without regard to letter case.
    /// A server that does not say otherwise answers with the value of the
    /// first of its header fields that has the name, and with nothing when
    /// none has it.
    fn get_header(&self, name: &str) -> (value: Option<&str>)
        default_ensures
            self.spec_headers().is_some() ==> is_header_value(
                self.spec_headers().unwrap(),
                name@,
                value,
            ),
    {
        get_header(self.headers(), name)
    }

    /// Whether the request came over a secure connection. A server that
    /// does not say otherwise has none.
    fn is_secure(&self) -> (secure: bool)
        default_ensures
            !secure,
    {
        false
    }
}

/// The test a field passes when its name is not exactly `name`.
pub open spec fn named_otherwise(name: Seq<char>) -> spec_fn(Field) -> bool {
    |f: Field| f.0 != name
}

/// The header fields after `name` is set to `value`: every field of that
/// exact name is gone, the others keep their order, and the new field comes
/// last.
pub open spec fn with_field(headers: Seq<Field>, name: Seq<char>, value: Seq<char>) -> Seq<Field> {
    headers.filter(named_otherwise(name)).push((name, value))
}

/// The status code of a permanent redirect.
pub const MOVED_PERMANENTLY: StatusCode = 301;

/// The value of the `Content-Disposition` field that offers `filename`.
pub open spec fn attachment(filename: Seq<char>) -> Seq<char> {
    "attachment; filename=\""@ + filename + "\""@
}

/// The header fields after a response was marked as a download: its content
/// type, its transfer encoding and its disposition are set, in this order.
pub open spec fn download_fields(headers: Seq<Field>, filename: Seq<char>) -> Seq<Field> {
    with_field(
        with_field(
            with_field(headers, "Content-Type"@, "application/octet-stream"@),
            "Content-Transfer-Encoding"@,
            "binary"@,
        ),
        "Content-Disposition"@,
        attachment(filename),
    )
}

/// An outgoing HTTP response, as a server presents it to a handler. Its
/// model is the status code and the header fields set so far.
pub trait Response {
    /// The status code of the response.
    spec fn spec_status(&self) -> StatusCode;

    /// The header fields of the response, in the order they were set.
    spec fn spec_headers(&self) -> Seq<Field>;

    /// The response status code.
    fn status(&self) -> (status: StatusCode)
        ensures
            status == self.spec_status(),
    ;

    /// Sets the response status code. The header fields stay.
    fn set_status(&mut self, status: StatusCode)
        ensures
            final(self).spec_status() == status,
            final(self).spec_headers() == old(self).spec_headers(),
    ;

    /// Sets a header field, in place of every field of that name. The status
    /// code stays.
    fn set_header(&mut self, name: &str, value: String)
        ensures
            final(self).spec_headers() == with_field(old(self).spec_headers(), name@, value@),
            final(self).spec_status() == old(self).spec_status(),
    ;

    /// How the server buffers the response body.
    fn buffering(&self) -> Buffering;

    /// Asks for buffering to be switched on or off; the answer says whether
    /// the body is buffered from now on.
    fn set_buffering(&mut self, buffering: bool) -> bool;

    /// Whether the header fields have been sent already.
    fn headers_sent(&self) -> bool;

    /// Turns the response into a permanent redirect to `url`: status 301 and
    /// a `Location` field, in place of any there was.
    fn redirect(&mut self, url: &str)
        ensures
            final(self).spec_status() == MOVED_PERMANENTLY,
            final(self).spec_headers() == with_field(old(self).spec_headers(), "Location"@, url@),
    {
        self.set_status(MOVED_PERMANENTLY);
        self.set_header("Location", String::from_str(url));
    }

    /// Marks the response as a binary download that is saved as `filename`.
    /// The status code stays.
    fn download(&mut self, filename: &str)
        ensures
            final(self).spec_status() == old(self).spec_status(),
            final(self).spec_headers() == download_fields(old(self).spec_headers(), filename@),
    {
        self.set_header("Content-Type", String::from_str("application/octet-stream"));
        self.set_header("Content-Transfer-Encoding", String::from_str("binary"));
        let mut disposition = String::from_str("attachment; filename=\"");
        disposition.append(filename);
        disposition.append("\"");
        self.set_header("Content-Disposition", disposition);
    }
}

/// The head of a response that is assembled in memory: a status code and
/// header fields, buffered until the server sends them.
pub struct ResponseHead {
    status: StatusCode,
    headers: Vec<(String, String)>,
}

impl ResponseHead {
    /// The status code as the model has it.
    pub closed spec fn status_code(&self) -> StatusCode {
        self.status
    }

    /// The fields as the model has them.
    pub closed spec fn fields(&self) -> Seq<Field> {
        Seq::new(self.headers@.len(), |i: int| (self.headers@[i].0@, self.headers@[i].1@))
    }

    /// A response with status 200 and no header fields.
    pub fn new() -> (head: Self)
        ensures
            head.spec_status() == 200,
            head.spec_headers() == Seq::<Field>::empty(),
    {
        let head = ResponseHead { status: 200, headers: Vec::new() };
        assert(head.fields() =~= Seq::<Field>::empty());
        head
    }

    /// The number of header fields.
    pub fn header_count(&self) -> (n: usize)
        ensures
            n == self.spec_headers().len(),
    {
        self.headers.len()
    }

    /// Header field `i`: its name and its value.
    pub fn header(&self, i: usize) -> (field: (&str, &str))
        requires
            i < self.spec_headers().len(),
        ensures
            (field.0@, field.1@) == self.spec_headers()[i as int],
    {
        (self.headers[i].0.as_str(), self.headers[i].1.as_str())
    }
}

impl Response for ResponseHead {
    open spec fn spec_status(&self) -> StatusCode {
        self.status_code()
    }

    open spec fn spec_headers(&self) -> Seq<Field> {
        self.fields()
    }

    fn status(&self) -> (status: StatusCode) {
        self.status
    }

    fn set_status(&mut self, status: StatusCode) {
        self.status = status;
        assert(self.fields() =~= old(self).fields());
    }

    fn set_header(&mut self, name: &str, value: String) {
        let target: String = name.to_owned();
        let ghost orig = self.fields();
        let ghost keep = named_otherwise(name@);
        let ghost mut k: int = 0;
        let mut i: usize = 0;
        proof {
            lemma_filter_empty::<Field>(keep);
            assert(orig.take(0) =~= Seq::<Field>::empty());
            assert(self.fields() =~= orig.take(0).filter(keep) + orig.skip(0));
        }
        while i < self.headers.len()
            invariant
                target@ == name@,
                keep == named_otherwise(name@),
                self.status == old(self).status,
                0 <= k <= orig.len(),
                i == orig.take(k).filter(keep).len(),
                self.fields() == orig.take(k).filter(keep) + orig.skip(k),
                self.fields().len() == self.headers@.len(),
            decreases orig.len() - k,
        {
            proof {
                assert(self.fields()[i as int] == orig.skip(k)[0]);
                assert(orig.take(k + 1) =~= orig.take(k).push(orig[k]));
                lemma_filter_push(orig.take(k), orig[k], keep);
            }
            let ghost before = self.fields();
            if self.headers[i].0 == target {
                let _ = self.headers.remove(i);
                proof {
                    assert(self.fields() =~= before.remove(i as int));
                    assert(self.fields() =~= orig.take(k + 1).filter(keep) + orig.skip(k + 1));
                }
            } else {
                i += 1;
                proof {
                    assert(self.fields() =~= orig.take(k + 1).filter(keep) + orig.skip(k + 1));
                }
            }
            proof {
                k = k + 1;
            }
        }
        proof {
            assert(orig.take(k) =~= orig);
            assert(self.fields() =~= orig.filter(keep));
        }
        let ghost filtered = self.fields();
        self.headers.push((target, value));
        assert(self.fields() =~= filtered.push((name@, value@)));
    }

    /// The head is buffered whole.
    fn buffering(&self) -> (policy: Buffering)
        ensures
            policy == Buffering::On(65536),
    {
        Buffering::On(65536)
    }

    /// Buffering cannot be switched off: the answer is always `true`, and
    /// status and fields stay.
    fn set_buffering(&mut self, buffering: bool) -> (buffered: bool)
        ensures
            buffered,
            *final(self) == *old(self),
    {
        true
    }

    /// Nothing is sent from here.
    fn headers_sent(&self) -> (sent: bool)
        ensures
            !sent,
    {
        false
    }
}

} // verus!
