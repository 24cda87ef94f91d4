use vstd::prelude::*;
use vstd::string::StringSliceAdditionalSpecFns;
use crate::ffi_types::ResponseContext;

verus! {

/// What becomes of a request after the host's callback has seen it.
#[derive(Clone, Copy, Debug, PartialEq, Eq, Structural)]
pub enum HostReply {
    /// The host handled the request and wrote an answer: serve that answer.
    Serve,
    /// The host claimed the request but wrote no answer: warn, and let CEF go on.
    Unanswered,
    /// The host left the request to CEF.
    Declined,
}

/// Reads the host's verdict on a request: its return value (non-zero for "handled") and
/// whether it wrote an answer into the context.
pub fn interpret_host_reply(handled: i32, ctx: &ResponseContext) -> (r: HostReply)
    ensures
        handled != 0 && ctx.was_set ==> r == HostReply::Serve,
        handled != 0 && !ctx.was_set ==> r == HostReply::Unanswered,
        handled == 0 ==> r == HostReply::Declined,
{
    if handled != 0 {
        if ctx.was_set {
            HostReply::Serve
        } else {
            HostReply::Unanswered
        }
    } else {
        HostReply::Declined
    }
}

/// The bytes of `file://`.
pub open spec fn file_scheme_prefix() -> Seq<u8> {
    seq![102u8, 105u8, 108u8, 101u8, 58u8, 47u8, 47u8]
}

/// Whether the UTF-8 bytes of a URL begin with `file://`.
pub open spec fn is_file_url_bytes(url: Seq<u8>) -> bool {
    url.len() >= 7 && url.subrange(0, 7) == file_scheme_prefix()
}

/// A URL counts as local exactly where its first seven bytes are `f`, `i`, `l`, `e`, `:`,
/// `/`, `/`; any other first seven bytes, or a shorter URL, do not.
pub proof fn law_file_url_is_the_file_prefix(url: Seq<u8>)
    ensures
        is_file_url_bytes(url) <==> (url.len() >= 7 && url[0] == 102u8 && url[1] == 105u8
            && url[2] == 108u8 && url[3] == 101u8 && url[4] == 58u8 && url[5] == 47u8
            && url[6] == 47u8),
{
    if url.len() >= 7 {
        let p = url.subrange(0, 7);
        if url[0] == 102u8 && url[1] == 105u8 && url[2] == 108u8 && url[3] == 101u8
            && url[4] == 58u8 && url[5] == 47u8 && url[6] == 47u8 {
            assert(p =~= file_scheme_prefix());
        }
        if p == file_scheme_prefix() {
            assert(p[0] == url[0] && p[1] == url[1] && p[2] == url[2] && p[3] == url[3]);
            assert(p[4] == url[4] && p[5] == url[5] && p[6] == url[6]);
        }
    }
}

/// Whether a URL points into the local file system (its bytes begin with `file://`).
pub fn is_file_url(url: &str) -> (r: bool)
    ensures
        // 'f' 'i' 'l' 'e' ':' '/' '/'
        r <==> (url.spec_bytes().len() >= 7
            && url.spec_bytes()[0] == 102u8 && url.spec_bytes()[1] == 105u8
            && url.spec_bytes()[2] == 108u8 && url.spec_bytes()[3] == 101u8
            && url.spec_bytes()[4] == 58u8 && url.spec_bytes()[5] == 47u8
            && url.spec_bytes()[6] == 47u8),
        r == is_file_url_bytes(url.spec_bytes()),
{
    let b = url.as_bytes();
    let r: bool = b.len() >= 7 && b[0] == 102u8 && b[1] == 105u8 && b[2] == 108u8 && b[3] == 101u8
        && b[4] == 58u8 && b[5] == 47u8 && b[6] == 47u8;
    proof {
        if b@.len() >= 7 {
            assert(r == (b@.subrange(0, 7) =~= file_scheme_prefix()));
        }
    }
    r
}

/// The first decision on a resource request that the browser makes.
#[derive(Clone, Copy, Debug, PartialEq, Eq, Structural)]
pub enum ResourceRoute {
    /// A `file://` URL: refuse it, and keep CEF from loading it itself.
    DenyFile,
    /// Any other URL: ask the host's callback.
    AskHost,
}

/// Routes a resource request by its URL: local files are never served.
pub fn route_resource_request(url: &str) -> (r: ResourceRoute)
    ensures
        // 'f' 'i' 'l' 'e' ':' '/' '/'
        r == ResourceRoute::DenyFile <==> (url.spec_bytes().len() >= 7
            && url.spec_bytes()[0] == 102u8 && url.spec_bytes()[1] == 105u8
            && url.spec_bytes()[2] == 108u8 && url.spec_bytes()[3] == 101u8
            && url.spec_bytes()[4] == 58u8 && url.spec_bytes()[5] == 47u8
            && url.spec_bytes()[6] == 47u8),
        is_file_url_bytes(url.spec_bytes()) <==> r == ResourceRoute::DenyFile,
        !is_file_url_bytes(url.spec_bytes()) <==> r == ResourceRoute::AskHost,
{
    if is_file_url(url) {
        ResourceRoute::DenyFile
    } else {
        ResourceRoute::AskHost
    }
}

/// Whether CEF's own handling of a resource request is switched off: after a refused
/// `file://` URL, and where the host's answer is served.
pub fn disables_default_handling(route: ResourceRoute, reply: Option<HostReply>) -> (r: bool)
    ensures
        r == (route == ResourceRoute::DenyFile || reply == Some(HostReply::Serve)),
{
    match route {
        ResourceRoute::DenyFile => true,
        ResourceRoute::AskHost => match reply {
            Some(HostReply::Serve) => true,
            _ => false,
        },
    }
}

} // verus!
