//! Which transport a registry is reached over.

use vstd::prelude::*;
use crate::reference::ImageReference;
use crate::text::texts;

verus! {

/// The protocol a registry client speaks.
#[derive(Debug, Clone, PartialEq, Eq)]
pub enum ClientProtocol {
    /// TLS for every registry.
    Https,
    /// TLS for every registry but the listed hosts, which are reached in the
    /// clear.
    HttpsExcept(Vec<String>),
}

/// What a [`ClientProtocol`] holds, as character sequences.
pub enum ClientProtocolView {
    Https,
    HttpsExcept(Seq<Seq<char>>),
}

impl View for ClientProtocol {
    type V = ClientProtocolView;

    open spec fn view(&self) -> ClientProtocolView {
        match self {
            ClientProtocol::Https => ClientProtocolView::Https,
            ClientProtocol::HttpsExcept(hosts) => ClientProtocolView::HttpsExcept(texts(hosts@)),
        }
    }
}

/// The protocol for a fetch from `registry`: insecure access, where it is
/// allowed, is an exception for that host alone.
pub open spec fn protocol_for(allow_insecure: bool, registry: Seq<char>) -> ClientProtocolView {
    if allow_insecure {
        ClientProtocolView::HttpsExcept(seq![registry])
    } else {
        ClientProtocolView::Https
    }
}

/// Whether a client that speaks `protocol` reaches `host` over TLS.
pub open spec fn uses_tls(protocol: ClientProtocolView, host: Seq<char>) -> bool {
    match protocol {
        ClientProtocolView::Https => true,
        ClientProtocolView::HttpsExcept(hosts) => !hosts.contains(host),
    }
}

/// Chooses the protocol for a fetch of `reference`.
pub fn client_protocol(allow_insecure: bool, reference: &ImageReference) -> (protocol:
    ClientProtocol)
    ensures
        protocol@ == protocol_for(allow_insecure, reference@.registry),
{
    if allow_insecure {
        let mut hosts: Vec<String> = Vec::new();
        hosts.push(reference.registry.clone());
        proof {
            assert(texts(hosts@) =~= seq![reference@.registry]);
        }
        ClientProtocol::HttpsExcept(hosts)
    } else {
        ClientProtocol::Https
    }
}

/// Insecure access is scoped to one host: allowing it for a fetch from
/// `registry` leaves every other host on TLS, and where it is not allowed
/// every host is on TLS.
pub proof fn lemma_insecure_access_is_scoped(
    allow_insecure: bool,
    registry: Seq<char>,
    host: Seq<char>,
)
    ensures
        host != registry ==> uses_tls(protocol_for(allow_insecure, registry), host),
        !allow_insecure ==> uses_tls(protocol_for(allow_insecure, registry), host),
        allow_insecure ==> !uses_tls(protocol_for(allow_insecure, registry), registry),
{
    if allow_insecure {
        let hosts = seq![registry];
        assert(hosts[0] == registry);
        assert(hosts.contains(registry));
    }
}

} // verus!
