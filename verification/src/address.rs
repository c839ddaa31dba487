//! What the address bar holds and where a link leads.
use vstd::prelude::*;
use crate::weburl::{host_of, join_url, parse_url, path_of, url_host, url_joined, url_parse_succeeds, url_path};
use crate::text::{chars_of, contains_chars, contains_text, remove_all, remove_occurrences};

verus! {

/// The text that marks an address as already carrying a scheme.
pub open spec fn http_marker() -> Seq<char> {
    seq!['h', 't', 't', 'p']
}

/// The scheme put in front of an address typed without one.
pub open spec fn https_scheme() -> Seq<char> {
    seq!['h', 't', 't', 'p', 's', ':', '/', '/']
}

/// An address that mentions `http` anywhere is taken as it is; any other
/// is prefixed with `https://`.
pub open spec fn valid_url(url: Seq<char>) -> Seq<char> {
    if contains_text(url, http_marker()) {
        url
    } else {
        https_scheme() + url
    }
}

/// Makes the text of the address bar into a URL that can be requested:
/// an address that mentions `http` is left as it is, any other gets
/// `https://` in front.
pub fn make_url_valid(url: String) -> (res: String)
    ensures
        res@ == valid_url(url@),
        contains_text(url@, seq!['h', 't', 't', 'p']) ==> res@ == url@,
        !contains_text(url@, seq!['h', 't', 't', 'p'])
            ==> res@ == seq!['h', 't', 't', 'p', 's', ':', '/', '/'] + url@,
{
    let cs = chars_of(url.as_str());
    let marker = chars_of("http");
    proof {
        reveal_strlit("http");
    }
    assert(marker@ =~= http_marker());
    if contains_chars(&cs, &marker) {
        url
    } else {
        let mut out = String::from_str("https://");
        proof {
            reveal_strlit("https://");
        }
        out.append(url.as_str());
        out
    }
}

/// Making an address valid twice gives what making it valid once gives.
pub proof fn lemma_valid_url_idempotent(url: Seq<char>)
    ensures
        valid_url(valid_url(url)) == valid_url(url),
{
    if !contains_text(url, http_marker()) {
        let v = https_scheme() + url;
        assert(v.subrange(0, 4) =~= http_marker());
        assert(crate::text::occurs_at(v, http_marker(), 0));
    }
}

/// The address bar text for a followed link: the resolved URL without its
/// `https://` scheme, or the link as written where it could not be resolved.
pub open spec fn link_address(resolved: Option<Seq<char>>, link: Seq<char>) -> Seq<char> {
    match resolved {
        Some(u) => remove_occurrences(u, https_scheme()),
        None => link,
    }
}

/// Where a link leads from the page at `address`: the link resolved against
/// the address (made valid first), when both parse.
pub open spec fn resolved_link(address: Seq<char>, link: Seq<char>) -> Option<Seq<char>> {
    if url_parse_succeeds(valid_url(address)) {
        url_joined(valid_url(address), link)
    } else {
        None
    }
}

/// The address bar text for a followed link, from the resolved URL (see
/// [`link_address`]): every `https://` is taken out of it; without a
/// resolved URL it is the link as written.
pub fn link_address_text(resolved: Option<String>, link: String) -> (res: String)
    ensures
        res@ == link_address(
            match resolved {
                Some(u) => Some(u@),
                None => None,
            },
            link@,
        ),
{
    match resolved {
        Some(u) => {
            let scheme = "https://";
            proof {
                reveal_strlit("https://");
            }
            assert(scheme@ =~= https_scheme());
            remove_all(u.as_str(), scheme)
        },
        None => link,
    }
}

/// Follows a link clicked on the page at `address`: the link is resolved
/// against the address, and the address bar is given the result without
/// its `https://` scheme, or the link as written when it cannot be resolved.
pub fn resolve_link(address: String, link: String) -> (res: String)
    ensures
        res@ == link_address(resolved_link(address@, link@), link@),
        url_parse_succeeds(valid_url(address@))
            ==> res@ == link_address(url_joined(valid_url(address@), link@), link@),
        !url_parse_succeeds(valid_url(address@)) ==> res@ == link@,
{
    let valid = make_url_valid(address);
    let resolved = match parse_url(valid.as_str()) {
        Some(base) => join_url(&base, link.as_str()),
        None => None,
    };
    link_address_text(resolved, link)
}

/// The port on which the component server answers WebTransport requests.
pub open spec fn webtransport_port() -> Seq<char> {
    seq![':', '4', '4', '3', '3']
}

/// The WebTransport address of a host and path: `https://{host}:4433{path}`.
pub fn webtransport_url(host: &str, path: &str) -> (res: String)
    ensures
        res@ == https_scheme() + host@ + webtransport_port() + path@,
{
    let mut out = String::from_str("https://");
    proof {
        reveal_strlit("https://");
    }
    out.append(host);
    let port = ":4433";
    proof {
        reveal_strlit(":4433");
    }
    assert(port@ =~= webtransport_port());
    out.append(port);
    out.append(path);
    out
}

/// Where the component for `address` is requested over WebTransport: the
/// address is made valid and parsed, and its host and path give the
/// WebTransport address; `None` where it does not parse or has no host.
pub open spec fn webtransport_target(address: Seq<char>) -> Option<Seq<char>> {
    let v = valid_url(address);
    if url_parse_succeeds(v) {
        match url_host(v) {
            Some(h) => Some(https_scheme() + h + webtransport_port() + url_path(v)),
            None => None,
        }
    } else {
        None
    }
}

/// The WebTransport address from which the component for `address` is
/// fetched (see [`webtransport_target`]).
pub fn webtransport_address(address: String) -> (res: Option<String>)
    ensures
        match res {
            Some(s) => webtransport_target(address@) == Some(s@),
            None => webtransport_target(address@) is None,
        },
        url_parse_succeeds(valid_url(address@)) && url_host(valid_url(address@)) is Some ==> (res
            matches Some(s) && s@ == https_scheme() + url_host(valid_url(address@))->0
            + webtransport_port() + url_path(valid_url(address@))),
        !(url_parse_succeeds(valid_url(address@)) && url_host(valid_url(address@)) is Some) ==> res is None,
{
    let valid = make_url_valid(address);
    match parse_url(valid.as_str()) {
        Some(url) => match host_of(&url) {
            Some(host) => {
                let path = path_of(&url);
                Some(webtransport_url(host.as_str(), path.as_str()))
            },
            None => None,
        },
        None => None,
    }
}

/// An address that does not mention `http` always gets `https://` in
/// front, whatever else it holds; one that mentions it is kept as it is.
pub proof fn lemma_https_added_unless_http(url: Seq<char>)
    ensures
        !contains_text(url, seq!['h', 't', 't', 'p'])
            ==> valid_url(url) == seq!['h', 't', 't', 'p', 's', ':', '/', '/'] + url,
        contains_text(url, seq!['h', 't', 't', 'p']) ==> valid_url(url) == url,
{
    assert(http_marker() =~= seq!['h', 't', 't', 'p']);
    assert(https_scheme() =~= seq!['h', 't', 't', 'p', 's', ':', '/', '/']);
}

/// Following a link from an address that parses (once made valid) goes
/// through the URL join for every link text, whatever it holds; from an
/// address that does not parse, the link is shown as written.
pub proof fn lemma_link_goes_through_join(address: Seq<char>, link: Seq<char>)
    ensures
        url_parse_succeeds(valid_url(address)) ==> resolved_link(address, link) == url_joined(
            valid_url(address),
            link,
        ),
        !url_parse_succeeds(valid_url(address)) ==> link_address(resolved_link(address, link), link)
            == link,
{
}

/// The WebTransport address depends on the typed address only through the
/// address made valid: two addresses that are made into the same URL are
/// fetched from the same place.
pub proof fn lemma_webtransport_through_valid_url(a: Seq<char>, b: Seq<char>)
    requires
        valid_url(a) == valid_url(b),
    ensures
        webtransport_target(a) == webtransport_target(b),
{
}

/// The WebTransport address is the host and path of the made-valid address,
/// on the WebTransport port, whenever that address parses and has a host,
/// and there is none otherwise.
pub proof fn lemma_webtransport_from_host_and_path(address: Seq<char>)
    ensures
        url_parse_succeeds(valid_url(address)) && url_host(valid_url(address)) is Some
            ==> webtransport_target(address) == Some(
            https_scheme() + url_host(valid_url(address))->0 + webtransport_port() + url_path(
                valid_url(address),
            ),
        ),
        !(url_parse_succeeds(valid_url(address)) && url_host(valid_url(address)) is Some)
            ==> webtransport_target(address) is None,
{
}

} // verus!
