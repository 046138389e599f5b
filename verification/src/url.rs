//! The web address that belongs to a server's WebSocket address.
use vstd::prelude::*;
use vstd::string::StringExecFns;

use crate::text;

verus! {

broadcast use vstd::string::group_string_axioms;

/// A scheme, up to and with its `//`, with `wss://` turned into `https://` and
/// `ws://` into `http://`.
pub open spec fn web_scheme(scheme: Seq<char>) -> Seq<char> {
    text::first_replaced(
        text::first_replaced(scheme, "wss://"@, "https://"@),
        "ws://"@,
        "http://"@,
    )
}

/// The web address of a server's address: the web scheme, and what stands
/// between the leftmost `//` and the next slash, which is host and port. An
/// address without `//` stays.
pub open spec fn web_address(url: Seq<char>) -> Seq<char> {
    if text::occurs(url, "//"@) {
        let host = text::first_occurrence(url, "//"@) + 2;
        web_scheme(url.take(host)) + text::before_first(url.skip(host), "/"@)
    } else {
        url
    }
}

/// The web address of the host and port that `url` names. Only the scheme
/// changes: what looks like a scheme further on is part of the host or the path.
pub fn wss_to_http(url: &str) -> (address: String)
    ensures
        address@ == web_address(url@),
{
    proof {
        reveal_strlit("wss://");
        reveal_strlit("ws://");
        reveal_strlit("//");
        reveal_strlit("/");
    }
    match text::split_once(url, "//") {
        Some((scheme, rest)) => {
            let ghost host: int = scheme@.len() as int + 2;
            proof {
                text::lemma_first_occurrence(url@, "//"@, scheme@.len() as int);
            }
            assert(url@.take(host) == scheme@ + "//"@);
            assert(url@.skip(host) == rest@);
            let scheme = scheme.to_owned().concat("//");
            let secure = text::replace_first(scheme.as_str(), "wss://", "https://");
            let web = text::replace_first(secure.as_str(), "ws://", "http://");
            web.concat(text::until_first(rest, "/"))
        },
        None => url.to_owned(),
    }
}

/// No slash stands in `part`.
pub open spec fn slash_free(part: Seq<char>) -> bool {
    forall|i: int| 0 <= i < part.len() ==> part[i] != '/'
}

/// No two slashes stand side by side in `part`.
pub open spec fn single_slashes(part: Seq<char>) -> bool {
    forall|i: int, j: int|
        0 <= i && j < part.len() && j == i + 1 ==> !(part[i] == '/' && part[j] == '/')
}

/// `part` can stand before the leftmost `//` of an address.
pub open spec fn is_scheme(part: Seq<char>) -> bool {
    &&& single_slashes(part)
    &&& part.len() > 0 ==> part.last() != '/'
}

/// What may follow host and port in an address: nothing, or a path.
pub open spec fn is_path(rest: Seq<char>) -> bool {
    rest.len() > 0 ==> rest[0] == '/'
}

/// The web address has the host and the port of the address, whatever the
/// scheme, the host, the port and the path are.
pub proof fn law_keeps_host_and_port(scheme: Seq<char>, host_port: Seq<char>, rest: Seq<char>)
    requires
        is_scheme(scheme),
        slash_free(host_port),
        is_path(rest),
    ensures
        web_address(scheme + "//"@ + host_port + rest) == web_scheme(scheme + "//"@) + host_port,
{
    reveal_strlit("//");
    reveal_strlit("/");
    let url = scheme + "//"@ + host_port + rest;
    let colon: int = scheme.len() as int;
    let host_end: int = host_port.len() as int;
    assert(url.subrange(colon, colon + 2) =~= "//"@);
    assert forall|at: int| 0 <= at < scheme.len() implies !text::occurs_at(url, "//"@, at) by {
        if text::occurs_at(url, "//"@, at) {
            assert(url.subrange(at, at + 2)[0] == url[at]);
            assert(url.subrange(at, at + 2)[1] == url[at + 1]);
            assert(url[at] == scheme[at]);
            if at + 1 < scheme.len() {
                assert(url[at + 1] == scheme[at + 1]);
            }
        }
    }
    text::lemma_first_occurrence(url, "//"@, colon);
    let tail = host_port + rest;
    assert(url.skip(colon + 2) =~= tail);
    assert(url.take(colon + 2) =~= scheme + "//"@);
    assert forall|at: int| 0 <= at < host_port.len() implies !text::occurs_at(tail, "/"@, at) by {
        if text::occurs_at(tail, "/"@, at) {
            assert(tail.subrange(at, at + 1)[0] == tail[at]);
            assert(tail[at] == host_port[at]);
        }
    }
    if rest.len() > 0 {
        assert(tail.subrange(host_end, host_end + 1) =~= "/"@);
        text::lemma_first_occurrence(tail, "/"@, host_end);
        assert(tail.take(host_end) =~= host_port);
    } else {
        assert(tail =~= host_port);
        assert(!text::occurs(tail, "/"@));
    }
}

/// The web address of a `wss://` address is `https://` with the same host and
/// the same port, whatever path follows.
pub proof fn law_wss_keeps_host_and_port(host_port: Seq<char>, rest: Seq<char>)
    requires
        slash_free(host_port),
        is_path(rest),
    ensures
        web_address("wss://"@ + host_port + rest) == "https://"@ + host_port,
{
    reveal_strlit("wss:");
    reveal_strlit("//");
    reveal_strlit("wss://");
    reveal_strlit("https://");
    reveal_strlit("ws://");
    assert("wss://"@ =~= "wss:"@ + "//"@);
    law_keeps_host_and_port("wss:"@, host_port, rest);
    assert("wss://"@.subrange(0, 6) =~= "wss://"@);
    text::lemma_first_occurrence("wss://"@, "wss://"@, 0);
    assert("wss://"@.take(0) + "https://"@ + "wss://"@.skip(6) =~= "https://"@);
    assert forall|at: int| !text::occurs_at("https://"@, "ws://"@, at) by {
        if text::occurs_at("https://"@, "ws://"@, at) {
            assert("https://"@.subrange(at, at + 5)[0] == "https://"@[at]);
        }
    }
}

/// The web address of a `ws://` address is `http://` with the same host and
/// the same port, whatever path follows.
pub proof fn law_ws_keeps_host_and_port(host_port: Seq<char>, rest: Seq<char>)
    requires
        slash_free(host_port),
        is_path(rest),
    ensures
        web_address("ws://"@ + host_port + rest) == "http://"@ + host_port,
{
    reveal_strlit("ws:");
    reveal_strlit("//");
    reveal_strlit("wss://");
    reveal_strlit("http://");
    reveal_strlit("ws://");
    assert("ws://"@ =~= "ws:"@ + "//"@);
    law_keeps_host_and_port("ws:"@, host_port, rest);
    assert(!text::occurs("ws://"@, "wss://"@));
    assert("ws://"@.subrange(0, 5) =~= "ws://"@);
    text::lemma_first_occurrence("ws://"@, "ws://"@, 0);
    assert("ws://"@.take(0) + "http://"@ + "ws://"@.skip(5) =~= "http://"@);
}

/// An address in which no `//` stands is its own web address.
pub proof fn law_without_slashes_unchanged(url: Seq<char>)
    requires
        !text::occurs(url, "//"@),
    ensures
        web_address(url) == url,
{
}

/// The only `//` in a scheme with its `//` is the one at its end.
proof fn lemma_slashes_end_the_scheme(scheme: Seq<char>, i: int)
    requires
        is_scheme(scheme),
        0 <= i,
        i + 1 < (scheme + "//"@).len(),
        (scheme + "//"@)[i] == '/',
        (scheme + "//"@)[i + 1] == '/',
    ensures
        i == scheme.len(),
{
    reveal_strlit("//");
    let all = scheme + "//"@;
    if i < scheme.len() {
        assert(all[i] == scheme[i]);
        if i + 1 < scheme.len() {
            assert(all[i + 1] == scheme[i + 1]);
        }
    }
}

/// Whatever stands before it, a `wss://` that is the scheme becomes `https://`;
/// what stands before it stays, and so do host and port.
pub proof fn law_wss_scheme_becomes_https(
    front: Seq<char>,
    host_port: Seq<char>,
    rest: Seq<char>,
)
    requires
        single_slashes(front),
        slash_free(host_port),
        is_path(rest),
    ensures
        web_address(front + "wss://"@ + host_port + rest) == front + "https://"@ + host_port,
{
    reveal_strlit("wss://");
    reveal_strlit("wss:");
    reveal_strlit("https://");
    reveal_strlit("https:");
    reveal_strlit("ws://");
    reveal_strlit("//");
    let at: int = front.len() as int;
    let scheme = front + "wss:"@;
    let with_slashes = front + "wss://"@;
    assert(with_slashes =~= scheme + "//"@);
    assert(is_scheme(scheme));
    assert(front + "wss://"@ + host_port + rest =~= scheme + "//"@ + host_port + rest);
    law_keeps_host_and_port(scheme, host_port, rest);

    assert(with_slashes.subrange(at, at + 6) =~= "wss://"@);
    assert forall|j: int| 0 <= j < at implies !text::occurs_at(with_slashes, "wss://"@, j) by {
        if text::occurs_at(with_slashes, "wss://"@, j) {
            assert(with_slashes.subrange(j, j + 6)[4] == with_slashes[j + 4]);
            assert(with_slashes.subrange(j, j + 6)[5] == with_slashes[j + 5]);
            lemma_slashes_end_the_scheme(scheme, j + 4);
        }
    }
    text::lemma_first_occurrence(with_slashes, "wss://"@, at);
    let secure = front + "https://"@;
    assert(with_slashes.take(at) + "https://"@ + with_slashes.skip(at + 6) =~= secure);

    let web = front + "https:"@;
    assert(is_scheme(web));
    assert(secure =~= web + "//"@);
    assert forall|j: int| !text::occurs_at(secure, "ws://"@, j) by {
        if text::occurs_at(secure, "ws://"@, j) {
            assert(secure.subrange(j, j + 5)[0] == secure[j]);
            assert(secure.subrange(j, j + 5)[3] == secure[j + 3]);
            assert(secure.subrange(j, j + 5)[4] == secure[j + 4]);
            lemma_slashes_end_the_scheme(web, j + 3);
            assert(secure[at + 3] == 'p');
        }
    }
}

/// Whatever stands before it, a `ws://` that is the scheme becomes `http://`;
/// what stands before it stays, and so do host and port.
pub proof fn law_ws_scheme_becomes_http(
    front: Seq<char>,
    host_port: Seq<char>,
    rest: Seq<char>,
)
    requires
        single_slashes(front),
        slash_free(host_port),
        is_path(rest),
    ensures
        web_address(front + "ws://"@ + host_port + rest) == front + "http://"@ + host_port,
{
    reveal_strlit("wss://");
    reveal_strlit("ws:");
    reveal_strlit("http://");
    reveal_strlit("ws://");
    reveal_strlit("//");
    let at: int = front.len() as int;
    let scheme = front + "ws:"@;
    let with_slashes = front + "ws://"@;
    assert(with_slashes =~= scheme + "//"@);
    assert(is_scheme(scheme));
    assert(front + "ws://"@ + host_port + rest =~= scheme + "//"@ + host_port + rest);
    law_keeps_host_and_port(scheme, host_port, rest);

    assert forall|j: int| !text::occurs_at(with_slashes, "wss://"@, j) by {
        if text::occurs_at(with_slashes, "wss://"@, j) {
            assert(with_slashes.subrange(j, j + 6)[1] == with_slashes[j + 1]);
            assert(with_slashes.subrange(j, j + 6)[4] == with_slashes[j + 4]);
            assert(with_slashes.subrange(j, j + 6)[5] == with_slashes[j + 5]);
            lemma_slashes_end_the_scheme(scheme, j + 4);
            assert(with_slashes[at] == 'w');
        }
    }
    assert(with_slashes.subrange(at, at + 5) =~= "ws://"@);
    assert forall|j: int| 0 <= j < at implies !text::occurs_at(with_slashes, "ws://"@, j) by {
        if text::occurs_at(with_slashes, "ws://"@, j) {
            assert(with_slashes.subrange(j, j + 5)[3] == with_slashes[j + 3]);
            assert(with_slashes.subrange(j, j + 5)[4] == with_slashes[j + 4]);
            lemma_slashes_end_the_scheme(scheme, j + 3);
        }
    }
    text::lemma_first_occurrence(with_slashes, "ws://"@, at);
    assert(with_slashes.take(at) + "http://"@ + with_slashes.skip(at + 5) =~= front + "http://"@);
}

/// Any other scheme stays as it is, and so do host and port: only the path goes.
pub proof fn law_other_scheme_stays(
    scheme: Seq<char>,
    host_port: Seq<char>,
    rest: Seq<char>,
)
    requires
        is_scheme(scheme),
        !"wss:"@.is_suffix_of(scheme),
        !"ws:"@.is_suffix_of(scheme),
        slash_free(host_port),
        is_path(rest),
    ensures
        web_address(scheme + "//"@ + host_port + rest) == scheme + "//"@ + host_port,
{
    reveal_strlit("wss://");
    reveal_strlit("ws://");
    reveal_strlit("wss:");
    reveal_strlit("ws:");
    reveal_strlit("//");
    law_keeps_host_and_port(scheme, host_port, rest);
    let all = scheme + "//"@;
    let end: int = scheme.len() as int;
    assert forall|j: int| !text::occurs_at(all, "wss://"@, j) by {
        if text::occurs_at(all, "wss://"@, j) {
            let found = all.subrange(j, j + 6);
            assert(found[4] == all[j + 4] && found[5] == all[j + 5]);
            lemma_slashes_end_the_scheme(scheme, j + 4);
            assert(scheme.subrange(end - 4, end) =~= found.take(4));
            assert("wss://"@.take(4) =~= "wss:"@);
        }
    }
    assert forall|j: int| !text::occurs_at(all, "ws://"@, j) by {
        if text::occurs_at(all, "ws://"@, j) {
            let found = all.subrange(j, j + 5);
            assert(found[3] == all[j + 3] && found[4] == all[j + 4]);
            lemma_slashes_end_the_scheme(scheme, j + 3);
            assert(scheme.subrange(end - 3, end) =~= found.take(3));
            assert("ws://"@.take(3) =~= "ws:"@);
        }
    }
}

} // verus!
