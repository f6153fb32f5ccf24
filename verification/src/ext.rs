//! Conveniences on top of the request surface.

use vstd::prelude::*;
use vstd::string::StringExecFns;
use crate::http::Request;

verus! {

/// The scheme of a URL, by whether the connection is secure.
pub open spec fn scheme_of(secure: bool) -> Seq<char> {
    if secure {
        "https"@
    } else {
        "http"@
    }
}

/// The host of a URL: the one given, or `localhost`.
pub open spec fn host_of(hostname: Option<&str>) -> Seq<char> {
    match hostname {
        Some(h) => h@,
        None => "localhost"@,
    }
}

/// The root URL of an application: scheme, `://`, host, `/`, context path.
pub open spec fn app_root(secure: bool, hostname: Option<&str>, context_path: Seq<char>) -> Seq<
    char,
> {
    scheme_of(secure) + "://"@ + host_of(hostname) + "/"@ + context_path
}

/// The root URL of the application that a request belongs to. The host is
/// `localhost` where the request names none.
pub fn get_app_root(secure: bool, hostname: Option<&str>, context_path: &str) -> (root: String)
    ensures
        root@ == app_root(secure, hostname, context_path@),
{
    let mut root = String::from_str(if secure {
        "https"
    } else {
        "http"
    });
    root.append("://");
    root.append(
        match hostname {
            Some(h) => h,
            None => "localhost",
        },
    );
    root.append("/");
    root.append(context_path);
    root
}

/// What every request offers on top of its own methods.
pub trait RequestExt: Request {
    /// The root URL of the application that this request belongs to. The
    /// scheme is `https` or `http`, as the request says whether it is secure.
    fn get_app_root(&self, hostname: Option<&str>, context_path: &str) -> (root: String)
        ensures
            root@ == app_root(true, hostname, context_path@) || root@ == app_root(
                false,
                hostname,
                context_path@,
            ),
    {
        get_app_root(self.is_secure(), hostname, context_path)
    }
}

impl<R: Request> RequestExt for R {

}

} // verus!
