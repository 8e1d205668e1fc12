//! Egress control for outgoing HTTP requests of a sandbox.
//!
//! A request leaves the sandbox only when its host is, letter for letter, one
//! of the allowed domains. A request without a host counts as one to the
//! empty host.
use vstd::prelude::*;

verus! {

/// The views of a list of domains.
pub open spec fn domain_views(v: Seq<String>) -> Seq<Seq<char>> {
    v.map_values(|d: String| d@)
}

/// The host that an outgoing request is checked under: its host, or the
/// empty text where it has none.
pub open spec fn request_host(host: Option<Seq<char>>) -> Seq<char> {
    match host {
        Some(h) => h,
        None => Seq::empty(),
    }
}

/// Whether the allowlist `allowed` lets a request to `host` leave the sandbox.
pub open spec fn egress_permitted(allowed: Seq<Seq<char>>, host: Option<Seq<char>>) -> bool {
    allowed.contains(request_host(host))
}

/// The message with which a refused request is answered.
pub open spec fn denial_message(uri: Seq<char>) -> Seq<char> {
    "URL not allowed: "@ + uri
}

/// The view of an optional host.
pub open spec fn host_view(host: Option<&str>) -> Option<Seq<char>> {
    match host {
        Some(h) => Some(h@),
        None => None,
    }
}

/// The egress policy of one sandbox: the domains its requests may go to.
#[derive(Debug)]
pub struct SpinneretHttpHooks {
    allowed_domains: Vec<String>,
}

impl SpinneretHttpHooks {
    /// The allowed domains.
    pub closed spec fn allowed(&self) -> Seq<Seq<char>> {
        domain_views(self.allowed_domains@)
    }

    /// A policy that allows exactly the given domains.
    pub fn new(allowed_domains: Vec<String>) -> (r: SpinneretHttpHooks)
        ensures
            r.allowed() == domain_views(allowed_domains@),
    {
        SpinneretHttpHooks { allowed_domains }
    }

    /// Whether `host` is one of the allowed domains.
    pub fn is_allowed(&self, host: &str) -> (r: bool)
        ensures
            r == self.allowed().contains(host@),
    {
        let h = host.to_owned();
        let mut i: usize = 0;
        while i < self.allowed_domains.len()
            invariant
                0 <= i <= self.allowed_domains@.len(),
                h@ == host@,
                forall|j: int| 0 <= j < i ==> #[trigger] self.allowed()[j] != host@,
            decreases self.allowed_domains@.len() - i,
        {
            if self.allowed_domains[i] == h {
                assert(self.allowed()[i as int] == host@);
                return true;
            }
            i = i + 1;
        }
        false
    }

    /// Decides an outgoing request to `host` (its URI, as text, is `uri`):
    /// `Ok` lets it be sent, `Err` refuses it with the message to trap with.
    pub fn check_request(&self, host: Option<&str>, uri: &str) -> (r: Result<(), String>)
        ensures
            r is Ok <==> egress_permitted(self.allowed(), host_view(host)),
            r matches Err(m) ==> m@ == denial_message(uri@),
    {
        let h = match host {
            Some(h) => h,
            None => "",
        };
        proof {
            reveal_strlit("");
            assert(h@ =~= request_host(host_view(host)));
        }
        if self.is_allowed(h) {
            Ok(())
        } else {
            let mut m = String::from_str("URL not allowed: ");
            proof {
                reveal_strlit("URL not allowed: ");
            }
            m.append(uri);
            Err(m)
        }
    }
}

/// With no allowed domain, no request leaves the sandbox.
pub proof fn lemma_empty_allowlist_denies(host: Option<Seq<char>>)
    ensures
        !egress_permitted(Seq::empty(), host),
{
}

/// Allowing one more domain takes no permission away.
pub proof fn lemma_allowlist_monotone(
    allowed: Seq<Seq<char>>,
    extra: Seq<char>,
    host: Option<Seq<char>>,
)
    requires
        egress_permitted(allowed, host),
    ensures
        egress_permitted(allowed.push(extra), host),
{
    let i = choose|i: int| 0 <= i < allowed.len() && allowed[i] == request_host(host);
    assert(allowed.push(extra)[i] == request_host(host));
}

/// A request is permitted exactly when its host is listed: a listed domain
/// admits no other host, such as one of its subdomains.
pub proof fn lemma_exact_host_match(allowed: Seq<Seq<char>>, host: Seq<char>)
    ensures
        egress_permitted(allowed, Some(host)) <==> exists|i: int|
            0 <= i < allowed.len() && allowed[i] == host,
{
}

} // verus!
