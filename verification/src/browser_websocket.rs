//! Which browser origins may open a websocket.
//!
//! An upgrade is accepted only with exactly one `Origin` header, whose value is
//! a canonical origin and one of those that were configured.
use vstd::prelude::*;

use crate::interop::{self, parse_url, url_host, url_origin, url_scheme};
use crate::records;
use crate::text::{chars_of, same};
use crate::types::Failure;

verus! {

pub const MAX_IN_FLIGHT_HANDSHAKES: usize = 32;

pub const HANDSHAKE_TIMEOUT_SECONDS: u64 = 5;

pub const RPC_MAX_BYTES: usize = 8388608;

/// The status and the body of a refused upgrade.
pub const REJECTED_ORIGIN_STATUS: u16 = 403;

pub const REJECTED_ORIGIN_BODY: &'static str = "origin rejected";

/// The parts of a parsed origin.
#[derive(Debug, PartialEq, Eq)]
pub struct OriginParts {
    pub scheme: String,
    pub host: Option<String>,
    pub canonical: String,
}

/// Why a text is no origin, by what a URL parser makes of it.
pub open spec fn origin_refusal_of(value: Seq<char>, parsed: Option<interop::UrlView>) -> Option<
    Seq<char>,
> {
    if value.len() == 0 || value == "null"@ {
        Some("origin must not be empty or null"@)
    } else {
        match parsed {
            None => Some("invalid origin: "@ + value),
            Some(url) => if url.scheme != "http"@ && url.scheme != "https"@ {
                Some("origin must use http or https: "@ + value)
            } else if url.host matches Some(host) && host.len() > 0 && host.last() == '.' {
                Some("origin host must not end with a dot: "@ + value)
            } else if value != url.origin {
                Some(
                    "origin must be its canonical browser serialization ("@ + url.origin + "): "@
                        + value,
                )
            } else {
                None
            },
        }
    }
}

/// The parts, as a URL's view.
pub open spec fn parts_view(parts: Option<OriginParts>) -> Option<interop::UrlView> {
    match parts {
        Some(p) => Some(
            interop::UrlView {
                scheme: p.scheme@,
                host: records::opt_view(p.host),
                origin: p.canonical@,
            },
        ),
        None => None,
    }
}

/// Judges a text as an origin, given the parts of the URL that it parses to.
pub fn validate_origin_parts(value: &str, parts: &Option<OriginParts>) -> (r: Result<(), Failure>)
    ensures
        r is Ok <==> origin_refusal_of(value@, parts_view(*parts)) is None,
        r matches Err(e) ==> Some(e@) == origin_refusal_of(value@, parts_view(*parts)),
{
    if value.is_empty() || same(value, "null") {
        return Err(Failure::new("origin must not be empty or null"));
    }
    let parts = match parts {
        Some(parts) => parts,
        None => {
            return Err(Failure { message: "invalid origin: ".to_owned().concat(value) });
        },
    };
    let scheme = parts.scheme.as_str();
    if !same(scheme, "http") && !same(scheme, "https") {
        return Err(
            Failure { message: "origin must use http or https: ".to_owned().concat(value) },
        );
    }
    if let Some(host) = &parts.host {
        let chars = chars_of(host.as_str());
        if chars.len() > 0 && chars[chars.len() - 1] == '.' {
            return Err(
                Failure {
                    message: "origin host must not end with a dot: ".to_owned().concat(value),
                },
            );
        }
    }
    if !same(value, parts.canonical.as_str()) {
        let message = "origin must be its canonical browser serialization (".to_owned().concat(
            parts.canonical.as_str(),
        ).concat("): ").concat(value);
        return Err(Failure { message });
    }
    Ok(())
}

/// Why a text is no origin.
pub open spec fn origin_refusal(value: Seq<char>) -> Option<Seq<char>> {
    origin_refusal_of(value, interop::parsed_url(value))
}

/// An origin is an `http` or `https` URL that is its own canonical browser
/// serialization.
pub fn validate_origin(value: &str) -> (r: Result<(), Failure>)
    ensures
        r is Ok <==> origin_refusal(value@) is None,
        r matches Err(e) ==> Some(e@) == origin_refusal(value@),
{
    let parts = match parse_url(value) {
        Some(url) => {
            let scheme = url_scheme(&url);
            let host = url_host(&url);
            let canonical = if same(scheme.as_str(), "http") || same(scheme.as_str(), "https") {
                url_origin(&url)
            } else {
                String::new()
            };
            Some(OriginParts { scheme, host, canonical })
        },
        None => None,
    };
    validate_origin_parts(value, &parts)
}

/// The configured origins.
#[derive(Debug, PartialEq, Eq)]
pub struct AllowedOrigins {
    pub origins: Vec<String>,
}

pub open spec fn views(values: Seq<String>) -> Seq<Seq<char>> {
    values.map_values(|s: String| s@)
}

/// Why a list of origins is refused: the first that is no origin or stands
/// there before.
pub open spec fn list_refusal(values: Seq<Seq<char>>) -> Option<Seq<char>>
    decreases values.len(),
{
    if values.len() == 0 {
        None
    } else {
        let before = values.drop_last();
        match list_refusal(before) {
            Some(m) => Some(m),
            None => match origin_refusal(values.last()) {
                Some(m) => Some(m),
                None => if before.contains(values.last()) {
                    Some("duplicate allowed origin: "@ + values.last())
                } else {
                    None
                },
            },
        }
    }
}

proof fn lemma_list_refusal(values: Seq<Seq<char>>, n: int)
    requires
        0 < n <= values.len(),
        list_refusal(values.take(n)) is Some,
    ensures
        list_refusal(values) == list_refusal(values.take(n)),
    decreases values.len(),
{
    if n == values.len() {
        assert(values.take(n) == values);
    } else {
        let before = values.drop_last();
        assert(before.take(n) == values.take(n));
        lemma_list_refusal(before, n);
    }
}

proof fn lemma_accepted_lists(values: Seq<Seq<char>>)
    requires
        list_refusal(values) is None,
    ensures
        values.no_duplicates(),
        forall|i: int| 0 <= i < values.len() ==> origin_refusal(#[trigger] values[i]) is None,
    decreases values.len(),
{
    if values.len() > 0 {
        let before = values.drop_last();
        lemma_accepted_lists(before);
        assert forall|i: int| 0 <= i < values.len() implies origin_refusal(
            #[trigger] values[i],
        ) is None by {
            if i < before.len() {
                assert(values[i] == before[i]);
            }
        }
        assert forall|i: int, j: int| 0 <= i < j < values.len() implies values[i] != values[j] by {
            if j < before.len() {
                assert(before[i] != before[j]);
            } else {
                assert(before[i] == values[i]);
                assert(before.contains(before[i]));
            }
        }
    }
}

impl AllowedOrigins {
    /// There is at least one origin, each is valid, and none stands there twice.
    pub open spec fn wf(self) -> bool {
        &&& self.origins@.len() > 0
        &&& views(self.origins@).no_duplicates()
        &&& forall|i: int|
            0 <= i < self.origins@.len() ==> origin_refusal(#[trigger] views(self.origins@)[i]) is None
    }

    /// Takes a list of origins: all valid, no two alike, and at least one.
    pub fn parse(values: Vec<String>) -> (r: Result<AllowedOrigins, Failure>)
        ensures
            r is Ok <==> list_refusal(views(values@)) is None && values@.len() > 0,
            r matches Ok(a) ==> a.wf() && a.origins@ == values@,
            r matches Err(e) ==> e@ == (match list_refusal(views(values@)) {
                Some(m) => m,
                None => "at least one allowed origin is required"@,
            }),
    {
        let ghost all = views(values@);
        let mut i: usize = 0;
        assert(all.take(0) =~= Seq::<Seq<char>>::empty());
        while i < values.len()
            invariant
                i <= values.len(),
                all == views(values@),
                list_refusal(all.take(i as int)) is None,
            decreases values.len() - i,
        {
            let ghost head = all.take(i + 1);
            proof {
                assert(head.drop_last() == all.take(i as int));
                assert(head.last() == values@[i as int]@);
            }
            match validate_origin(values[i].as_str()) {
                Ok(_) => {},
                Err(e) => {
                    proof {
                        lemma_list_refusal(all, i + 1);
                    }
                    return Err(e);
                },
            }
            let mut j: usize = 0;
            while j < i
                invariant
                    j <= i < values.len(),
                    all == views(values@),
                    head == all.take(i + 1),
                    head.drop_last() == all.take(i as int),
                    head.last() == values@[i as int]@,
                    list_refusal(all.take(i as int)) is None,
                    origin_refusal(values@[i as int]@) is None,
                    forall|k: int| 0 <= k < j ==> (#[trigger] all[k]) != values@[i as int]@,
                decreases i - j,
            {
                if same(values[j].as_str(), values[i].as_str()) {
                    proof {
                        assert(all[j as int] == values@[i as int]@);
                        assert(all.take(i as int)[j as int] == values@[i as int]@);
                        assert(all.take(i as int).contains(values@[i as int]@));
                        lemma_list_refusal(all, i + 1);
                    }
                    return Err(
                        Failure {
                            message: "duplicate allowed origin: ".to_owned().concat(
                                values[i].as_str(),
                            ),
                        },
                    );
                }
                assert(all[j as int] == values@[j as int]@);
                j += 1;
            }
            proof {
                assert(!all.take(i as int).contains(values@[i as int]@)) by {
                    if all.take(i as int).contains(values@[i as int]@) {
                        let k = choose|k: int|
                            0 <= k < i && all.take(i as int)[k] == values@[i as int]@;
                        assert(all[k] == values@[i as int]@);
                    }
                }
            }
            i += 1;
        }
        assert(all.take(i as int) == all);
        if values.len() == 0 {
            return Err(Failure::new("at least one allowed origin is required"));
        }
        proof {
            lemma_accepted_lists(all);
        }
        Ok(AllowedOrigins { origins: values })
    }

    pub fn contains(&self, origin: &str) -> (r: bool)
        ensures
            r == views(self.origins@).contains(origin@),
    {
        let mut i: usize = 0;
        while i < self.origins.len()
            invariant
                i <= self.origins.len(),
                forall|j: int|
                    0 <= j < i ==> (#[trigger] views(self.origins@)[j]) != origin@,
            decreases self.origins.len() - i,
        {
            assert(views(self.origins@)[i as int] == self.origins@[i as int]@);
            if same(self.origins[i].as_str(), origin) {
                return true;
            }
            i += 1;
        }
        false
    }

    /// Whether an upgrade with these `Origin` headers is accepted.
    pub fn accepts(&self, headers: &Vec<Option<String>>) -> (r: bool)
        ensures
            r == (single_origin(headers@) matches Some(origin) && views(self.origins@).contains(
                origin,
            )),
    {
        match request_origin(headers) {
            Some(origin) => self.contains(origin),
            None => false,
        }
    }
}

/// The one valid origin that the headers name. A header whose value is no
/// visible ASCII text has none.
pub open spec fn single_origin(headers: Seq<Option<String>>) -> Option<Seq<char>> {
    if headers.len() != 1 {
        None
    } else {
        match headers[0] {
            Some(origin) => if origin_refusal(origin@) is None {
                Some(origin@)
            } else {
                None
            },
            None => None,
        }
    }
}

pub fn request_origin(headers: &Vec<Option<String>>) -> (r: Option<&str>)
    ensures
        records::opt_str_view(r) == single_origin(headers@),
{
    if headers.len() != 1 {
        return None;
    }
    match &headers[0] {
        Some(origin) => match validate_origin(origin.as_str()) {
            Ok(_) => Some(origin.as_str()),
            Err(_) => None,
        },
        None => None,
    }
}

/// An upgrade is accepted exactly when it names one origin and that is one of
/// the configured: everything configured is canonical, so nothing else is
/// asked of it.
pub proof fn law_only_configured_origins_are_accepted(
    allowed: AllowedOrigins,
    headers: Seq<Option<String>>,
)
    requires
        allowed.wf(),
    ensures
        (single_origin(headers) matches Some(origin) && views(allowed.origins@).contains(origin))
            <==> (headers.len() == 1 && (headers[0] matches Some(h) && views(
            allowed.origins@,
        ).contains(h@))),
{
    if headers.len() == 1 && headers[0] is Some {
        let h = headers[0]->0@;
        if views(allowed.origins@).contains(h) {
            let i = choose|i: int|
                0 <= i < views(allowed.origins@).len() && views(allowed.origins@)[i] == h;
            assert(origin_refusal(views(allowed.origins@)[i]) is None);
        }
    }
}

/// An origin is accepted exactly when it is no empty or `null` one, is a URL of
/// one of the two web schemes, has a host that does not end with a dot, and is
/// written as a browser writes it.
pub proof fn law_origins_are_canonical(value: Seq<char>, parsed: Option<interop::UrlView>)
    ensures
        origin_refusal_of(value, parsed) is None <==> {
            &&& value.len() > 0
            &&& value != "null"@
            &&& parsed is Some
            &&& parsed->0.scheme == "http"@ || parsed->0.scheme == "https"@
            &&& (parsed->0.host matches Some(host) ==> host.len() == 0 || host.last() != '.')
            &&& value == parsed->0.origin
        },
{
}

/// Why an origin is refused, the first that holds.
pub proof fn law_origins_are_refused_in_order(value: Seq<char>, parsed: Option<interop::UrlView>)
    ensures
        ({
            let refusal = origin_refusal_of(value, parsed);
            let given = value.len() > 0 && value != "null"@;
            &&& !given ==> refusal == Some("origin must not be empty or null"@)
            &&& given && parsed is None ==> refusal == Some("invalid origin: "@ + value)
            &&& given && parsed is Some ==> {
                let url = parsed->0;
                let web = url.scheme == "http"@ || url.scheme == "https"@;
                let dotted = url.host matches Some(host) && host.len() > 0 && host.last() == '.';
                &&& !web ==> refusal == Some("origin must use http or https: "@ + value)
                &&& web && dotted ==> refusal == Some(
                    "origin host must not end with a dot: "@ + value,
                )
                &&& web && !dotted && value != url.origin ==> refusal == Some(
                    "origin must be its canonical browser serialization ("@ + url.origin + "): "@
                        + value,
                )
            }
        }),
{
}

/// A list of origins is accepted exactly when every one is and none stands in it
/// twice. It is refused for the first that is not: for its own refusal, or as a
/// duplicate of one before it.
pub proof fn law_lists_are_refused_for_the_first(values: Seq<Seq<char>>, i: int)
    ensures
        list_refusal(values) is None <==> values.no_duplicates() && forall|j: int|
            0 <= j < values.len() ==> origin_refusal(#[trigger] values[j]) is None,
        0 <= i < values.len() && list_refusal(values.take(i)) is None ==> {
            &&& origin_refusal(values[i]) is Some ==> list_refusal(values) == origin_refusal(
                values[i],
            )
            &&& origin_refusal(values[i]) is None && values.take(i).contains(values[i])
                ==> list_refusal(values) == Some("duplicate allowed origin: "@ + values[i])
        },
    decreases values.len(),
{
    if values.len() > 0 {
        let before = values.drop_last();
        law_lists_are_refused_for_the_first(before, i);
        if list_refusal(values) is None {
            lemma_accepted_lists(values);
        }
        if values.no_duplicates() && forall|j: int|
            0 <= j < values.len() ==> origin_refusal(#[trigger] values[j]) is None {
            assert forall|j: int| 0 <= j < before.len() implies origin_refusal(
                #[trigger] before[j],
            ) is None by {
                assert(values[j] == before[j]);
            }
            assert(before.no_duplicates());
            assert(values[values.len() - 1] == values.last());
            assert(!before.contains(values.last())) by {
                if before.contains(values.last()) {
                    let j = choose|j: int| 0 <= j < before.len() && before[j] == values.last();
                    assert(values[j] == values[values.len() - 1]);
                }
            }
        }
        if 0 <= i < values.len() && list_refusal(values.take(i)) is None {
            let head = values.take(i + 1);
            assert(head.drop_last() == values.take(i));
            assert(head.last() == values[i]);
            if list_refusal(head) is Some {
                lemma_list_refusal(values, i + 1);
            }
        }
    }
}

/// A request has an origin exactly when it carries one such header, readable and
/// accepted as an origin.
pub proof fn law_requests_have_one_origin(headers: Seq<Option<String>>, origin: Seq<char>)
    ensures
        single_origin(headers) == Some(origin) <==> headers.len() == 1 && (headers[0] matches Some(
            h,
        ) && h@ == origin) && origin_refusal(origin) is None,
{
}

/// A set of allowed origins is never empty, names none twice, and holds only
/// origins that would be accepted by themselves.
pub proof fn law_allowed_origins_are_sound(allowed: AllowedOrigins, i: int, j: int)
    requires
        allowed.wf(),
    ensures
        allowed.origins@.len() > 0,
        0 <= i < allowed.origins@.len() ==> origin_refusal(allowed.origins@[i]@) is None,
        0 <= i < j < allowed.origins@.len() ==> allowed.origins@[i]@ != allowed.origins@[j]@,
{
    let values = views(allowed.origins@);
    if 0 <= i < allowed.origins@.len() {
        assert(values[i] == allowed.origins@[i]@);
    }
    if 0 <= i < j < allowed.origins@.len() {
        assert(values[j] == allowed.origins@[j]@);
    }
}

} // verus!
