//! The provider resolver: which content source a host belongs to.

use crate::text::{equal, is_suffix};
use crate::types::Provider;
use vstd::prelude::*;

verus! {

/// The provider of a host. Only the exact hosts `github.com` and `www.reddit.com` belong to
/// one; no other spelling and no subdomain does.
pub open spec fn provider_of(host: Seq<char>) -> Provider {
    if host == "github.com"@ {
        Provider::GitHub
    } else if host == "www.reddit.com"@ {
        Provider::Reddit
    } else {
        Provider::Unsupported
    }
}

/// The provider that `host` belongs to.
pub fn resolve(host: &str) -> (p: Provider)
    ensures
        p == provider_of(host@),
{
    if equal(host, "github.com") {
        Provider::GitHub
    } else if equal(host, "www.reddit.com") {
        Provider::Reddit
    } else {
        Provider::Unsupported
    }
}

/// Each provider has exactly one host, and every other host is unsupported.
pub proof fn lemma_provider_exact(host: Seq<char>)
    ensures
        provider_of(host) == Provider::GitHub <==> host == "github.com"@,
        provider_of(host) == Provider::Reddit <==> host == "www.reddit.com"@,
        provider_of(host) == Provider::Unsupported <==> host != "github.com"@ && host
            != "www.reddit.com"@,
{
    reveal_strlit("github.com");
    reveal_strlit("www.reddit.com");
    assert("github.com"@.len() != "www.reddit.com"@.len());
}

/// A host that only resembles a supported one is unsupported: the bare `reddit.com` is, and
/// so is any host that is longer than `github.com` and ends with it.
pub proof fn lemma_near_misses(host: Seq<char>)
    requires
        host == "reddit.com"@ || (host.len() > "github.com"@.len() && is_suffix(
            "github.com"@,
            host,
        )),
    ensures
        provider_of(host) == Provider::Unsupported,
{
    reveal_strlit("github.com");
    reveal_strlit("www.reddit.com");
    reveal_strlit("reddit.com");
    if host == "reddit.com"@ {
        assert(host.len() == 10);
        assert(host[0] == 'r');
        assert("github.com"@[0] == 'g');
    } else {
        assert(host.len() > 10);
        if host == "www.reddit.com"@ {
            let at: int = host.len() - "github.com"@.len();
            assert(host[at + 0] == "github.com"@[0]);
            assert(host[4] == 'r');
            assert("github.com"@[0] == 'g');
        }
    }
}

} // verus!
