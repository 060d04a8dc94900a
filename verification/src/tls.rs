//! TLS client set-up for connections to MySQL targets: which root
//! certificates to trust and how server certificates are checked.

use vstd::prelude::*;

use tokio_rustls::rustls::client::WebPkiVerifier;
use tokio_rustls::rustls::{Certificate, ClientConfig, RootCertStore};

verus! {

/// Declares `rustls::RootCertStore`; its trust anchors are named by
/// `root_store_anchors`.
#[verifier::external_type_specification]
#[verifier::external_body]
pub struct ExRootCertStore(RootCertStore);

/// Declares `rustls::ClientConfig`, carried through opaquely.
#[verifier::external_type_specification]
#[verifier::external_body]
pub struct ExClientConfig(ClientConfig);

/// Declares `rustls::client::WebPkiVerifier`, carried through opaquely.
#[verifier::external_type_specification]
#[verifier::external_body]
pub struct ExWebPkiVerifier(WebPkiVerifier);

/// The trust anchors that a `RootCertStore` holds, in order, each as its
/// subject, subject public key info and optional name constraints.
pub uninterp spec fn root_store_anchors(store: RootCertStore) -> Seq<
    (Seq<u8>, Seq<u8>, Option<Seq<u8>>),
>;

/// What `webpki::TrustAnchor::try_from_cert_der` makes of a DER
/// certificate: its trust anchor, or the text of the error.
pub uninterp spec fn trust_anchor_from_der(der: Seq<u8>) -> Result<
    (Seq<u8>, Seq<u8>, Option<Seq<u8>>),
    Seq<char>,
>;

/// What `rustls_pemfile::certs` reads from `data`: the DER bytes of each
/// certificate block in order, or the text of the error.
pub uninterp spec fn pem_certificates(data: Seq<u8>) -> Result<Seq<Seq<u8>>, Seq<char>>;

/// The byte sequences of a vector of byte vectors.
pub open spec fn der_view(v: Seq<Vec<u8>>) -> Seq<Seq<u8>> {
    v.map_values(|c: Vec<u8>| c@)
}

/// The certificates, or the error text, of a PEM reading outcome.
pub open spec fn certs_or_text(r: Result<Vec<Vec<u8>>, String>) -> Result<Seq<Seq<u8>>, Seq<char>> {
    match r {
        Ok(v) => Ok(der_view(v@)),
        Err(e) => Err(e@),
    }
}

/// Calls `rustls_pemfile::certs` on a cursor over `data`; the outcome is
/// named by `pem_certificates`.
#[verifier::external_body]
fn pem_certs(data: &[u8]) -> (r: Result<Vec<Vec<u8>>, String>)
    ensures
        certs_or_text(r) == pem_certificates(data@),
{
    let mut cursor = std::io::Cursor::new(data);
    match rustls_pemfile::certs(&mut cursor) {
        Ok(c) => Ok(c),
        Err(e) => Err(format!("{}", e)),
    }
}

/// Calls `RootCertStore::add`: where the certificate yields a trust anchor,
/// the anchor is appended; otherwise the store is left as it was and the
/// error's text is handed back.
#[verifier::external_body]
fn root_store_add(store: &mut RootCertStore, der: &[u8]) -> (r: Result<(), String>)
    ensures
        match trust_anchor_from_der(der@) {
            Ok(a) => r is Ok && root_store_anchors(*final(store)) == root_store_anchors(
                *old(store),
            ).push(a),
            Err(m) => r matches Err(e) && e@ == m && *final(store) == *old(store),
        },
{
    match store.add(&Certificate(der.to_vec())) {
        Ok(()) => Ok(()),
        Err(e) => Err(format!("{}", e)),
    }
}

/// Calls `RootCertStore::empty`: a store without anchors.
#[verifier::external_body]
fn root_store_empty() -> (r: RootCertStore)
    ensures
        root_store_anchors(r) == Seq::<(Seq<u8>, Seq<u8>, Option<Seq<u8>>)>::empty(),
{
    RootCertStore::empty()
}

/// Calls `RootCertStore::clone`: the copy holds the same trust anchors.
#[verifier::external_body]
fn root_store_clone(store: &RootCertStore) -> (r: RootCertStore)
    ensures
        root_store_anchors(r) == root_store_anchors(*store),
{
    store.clone()
}

/// The trust anchors that the standard server certificate verifier of a
/// client configuration checks chains against.
pub uninterp spec fn client_config_anchors(c: ClientConfig) -> Seq<
    (Seq<u8>, Seq<u8>, Option<Seq<u8>>),
>;

/// Whether the client certificate resolver of a configuration has any
/// certificate to offer a server that asks for client authentication (its
/// `has_certs`).
pub uninterp spec fn client_config_offers_client_cert(c: ClientConfig) -> bool;

/// Calls `ClientConfig::builder()` with the safe defaults, the given root
/// certificates and no client authentication: its standard verifier is a
/// web PKI verifier over exactly the given roots, and its client
/// certificate resolver is rustls's failing one, which has no certificate
/// to offer. The cipher suites and protocol versions are not stated.
#[verifier::external_body]
fn client_config_with_roots(roots: RootCertStore) -> (r: ClientConfig)
    ensures
        client_config_anchors(r) == root_store_anchors(roots),
        !client_config_offers_client_cert(r),
{
    ClientConfig::builder().with_safe_defaults().with_root_certificates(roots).with_no_client_auth()
}

/// The trust anchors that a `WebPkiVerifier` checks chains against, in the
/// order of the root store it was made with.
pub uninterp spec fn webpki_verifier_anchors(v: WebPkiVerifier) -> Seq<
    (Seq<u8>, Seq<u8>, Option<Seq<u8>>),
>;

/// Whether a `WebPkiVerifier` has a certificate transparency policy.
pub uninterp spec fn webpki_verifier_has_ct_policy(v: WebPkiVerifier) -> bool;

/// Calls `WebPkiVerifier::new` with the given roots and no certificate
/// transparency policy: the verifier keeps the root store, so it trusts
/// exactly its anchors, and has no transparency policy.
#[verifier::external_body]
fn new_webpki_verifier(roots: RootCertStore) -> (r: WebPkiVerifier)
    ensures
        webpki_verifier_anchors(r) == root_store_anchors(roots),
        !webpki_verifier_has_ct_policy(r),
{
    WebPkiVerifier::new(roots, None)
}

/// Whether `needle` occurs in `hay` as a contiguous run.
pub open spec fn contains_text(hay: Seq<char>, needle: Seq<char>) -> bool {
    exists|i: int|
        0 <= i && i + needle.len() <= hay.len() && #[trigger] hay.subrange(i, i + needle.len())
            == needle
}

/// The characters of a string.
fn chars_of(s: &str) -> (r: Vec<char>)
    ensures
        r@ == s@,
{
    broadcast use vstd::string::axiom_spec_iter;

    let mut r: Vec<char> = Vec::new();
    for c in it: s.chars()
        invariant
            r@ == it.seq().take(it.index() as int),
    {
        r.push(c);
    }
    r
}

/// Whether `needle` occurs in `hay`.
pub fn str_contains(hay: &str, needle: &str) -> (r: bool)
    ensures
        r == contains_text(hay@, needle@),
{
    let h = chars_of(hay);
    let n = chars_of(needle);
    if n.len() > h.len() {
        return false;
    }
    let mut i: usize = 0;
    while i <= h.len() - n.len()
        invariant
            n.len() <= h.len(),
            h@ == hay@,
            n@ == needle@,
            i <= h.len() - n.len() + 1,
            forall|k: int| 0 <= k < i ==> #[trigger] h@.subrange(k, k + n@.len()) != n@,
        decreases h.len() - n.len() + 1 - i,
    {
        let mut j: usize = 0;
        let mut same = true;
        while j < n.len()
            invariant
                n.len() <= h.len(),
                i <= h.len() - n.len(),
                j <= n.len(),
                same == (forall|m: int| 0 <= m < j ==> h@[i + m] == n@[m]),
            decreases n.len() - j,
        {
            if h[i + j] != n[j] {
                same = false;
            }
            j = j + 1;
        }
        if same {
            assert(h@.subrange(i as int, i + n@.len()) =~= n@);
            return true;
        }
        assert(h@.subrange(i as int, i + n@.len())[0] == h@[i as int + 0]);
        assert(h@.subrange(i as int, i + n@.len()) != n@) by {
            let w = choose|m: int| 0 <= m < n.len() && h@[i + m] != n@[m];
            assert(h@.subrange(i as int, i + n@.len())[w] == h@[i + w]);
        }
        i = i + 1;
    }
    false
}

/// How the outcome of checking a server certificate is seen here: accepted,
/// rejected for invalid certificate data with a reason, or rejected with
/// another error, carried as it is.
pub enum ServerCertOutcome<E> {
    Verified,
    InvalidCertificateData(String),
    Failed(E),
}

/// A server certificate verifier that accepts every certificate.
pub struct DummyTlsVerifier;

impl DummyTlsVerifier {
    /// Accepts the certificate, whatever it is.
    pub fn verify_server_cert<E>(&self) -> (r: ServerCertOutcome<E>)
        ensures
            r is Verified,
    {
        ServerCertOutcome::Verified
    }
}

/// The text by which the web PKI verifier reports a certificate that does
/// not name the host that was asked for.
pub open spec fn hostname_mismatch_marker() -> Seq<char> {
    "CertNotValidForName"@
}

/// What the host-name-tolerant verifier makes of the standard verifier's
/// outcome: a rejection whose reason reports a host name mismatch is turned
/// into acceptance; every other outcome stands.
pub open spec fn tolerate_hostname_mismatch<E>(inner: ServerCertOutcome<E>) -> ServerCertOutcome<E> {
    match inner {
        ServerCertOutcome::InvalidCertificateData(reason) => if contains_text(
            reason@,
            hostname_mismatch_marker(),
        ) {
            ServerCertOutcome::Verified
        } else {
            inner
        },
        _ => inner,
    }
}

/// The host-name-tolerant verifier accepts exactly what the standard
/// verifier accepts, plus the certificates rejected only for naming another
/// host; applying it twice changes nothing more; and every other rejection
/// stands unchanged.
pub proof fn law_tolerance_only_lifts_hostname_mismatch<E>(inner: ServerCertOutcome<E>)
    ensures
        (tolerate_hostname_mismatch(inner) is Verified) <==> (inner is Verified || (
        inner matches ServerCertOutcome::InvalidCertificateData(reason) && contains_text(
            reason@,
            hostname_mismatch_marker(),
        ))),
        !(tolerate_hostname_mismatch(inner) is Verified) ==> tolerate_hostname_mismatch(inner)
            == inner,
        tolerate_hostname_mismatch(tolerate_hostname_mismatch(inner))
            == tolerate_hostname_mismatch(inner),
{
}

/// A server certificate verifier that checks the chain against its roots but
/// ignores whether the certificate names the host.
pub struct NoHostnameTlsVerifier {
    webpki: WebPkiVerifier,
}

impl NoHostnameTlsVerifier {
    /// The trust anchors that the wrapped web PKI verifier was built with.
    pub closed spec fn trusted_anchors(&self) -> Seq<(Seq<u8>, Seq<u8>, Option<Seq<u8>>)> {
        webpki_verifier_anchors(self.webpki)
    }

    /// Whether the wrapped web PKI verifier checks certificate transparency.
    pub closed spec fn checks_transparency(&self) -> bool {
        webpki_verifier_has_ct_policy(self.webpki)
    }

    /// A verifier that trusts the anchors of `cert_store`.
    pub fn new(cert_store: RootCertStore) -> (r: Self)
        ensures
            r.trusted_anchors() == root_store_anchors(cert_store),
            !r.checks_transparency(),
    {
        NoHostnameTlsVerifier { webpki: new_webpki_verifier(cert_store) }
    }

    /// The wrapped web PKI verifier, which checks the chain against the
    /// trusted anchors.
    pub fn webpki_verifier(&self) -> (r: &WebPkiVerifier)
        ensures
            webpki_verifier_anchors(*r) == self.trusted_anchors(),
            webpki_verifier_has_ct_policy(*r) == self.checks_transparency(),
    {
        &self.webpki
    }

    /// Turns the wrapped verifier's outcome into this verifier's outcome.
    pub fn verify_server_cert<E>(&self, inner: ServerCertOutcome<E>) -> (r: ServerCertOutcome<E>)
        ensures
            r == tolerate_hostname_mismatch(inner),
    {
        match inner {
            ServerCertOutcome::InvalidCertificateData(reason) => {
                if str_contains(reason.as_str(), "CertNotValidForName") {
                    ServerCertOutcome::Verified
                } else {
                    ServerCertOutcome::InvalidCertificateData(reason)
                }
            },
            other => other,
        }
    }
}

/// Errors of the TLS set-up.
pub enum RustlsSetupError {
    /// The PEM data could not be read; the reader's message.
    Io(String),
    /// A certificate could not be made a trust anchor; the parser's message.
    Certificate(String),
}

/// How the server certificate is to be checked.
pub enum ServerCertVerification {
    /// Any certificate is accepted.
    AcceptAnyCertificate(DummyTlsVerifier),
    /// The chain is checked, the host name is not.
    IgnoreHostname(NoHostnameTlsVerifier),
    /// The configuration's own verification stands.
    Standard,
}

/// A client configuration together with the way to check server
/// certificates that is to be installed in it.
pub struct TlsConnectorSetup {
    pub config: ClientConfig,
    pub verification: ServerCertVerification,
}

/// The trust anchors of a list of DER certificates, added one after the
/// other; the first certificate that yields none decides the error.
pub open spec fn anchors_of_certs(certs: Seq<Seq<u8>>) -> Result<
    Seq<(Seq<u8>, Seq<u8>, Option<Seq<u8>>)>,
    Seq<char>,
>
    decreases certs.len(),
{
    if certs.len() == 0 {
        Ok(Seq::empty())
    } else {
        match anchors_of_certs(certs.drop_last()) {
            Err(m) => Err(m),
            Ok(prev) => match trust_anchor_from_der(certs.last()) {
                Ok(a) => Ok(prev.push(a)),
                Err(m) => Err(m),
            },
        }
    }
}

/// Whether `v` is the check that the flags ask for, with `trusted` as the
/// anchors of a host-name-tolerant verifier.
pub open spec fn verification_for(
    v: ServerCertVerification,
    accept_invalid_hostnames: bool,
    trusted: Seq<(Seq<u8>, Seq<u8>, Option<Seq<u8>>)>,
) -> bool {
    if accept_invalid_hostnames {
        v matches ServerCertVerification::IgnoreHostname(n) && n.trusted_anchors() == trusted
            && !n.checks_transparency()
    } else {
        v is Standard
    }
}

/// What `configure_tls_connector` gives for the flags, the PEM data
/// `root_cert` and the native trust anchors `native`: which verification is
/// to be installed, or which error comes.
pub open spec fn tls_setup_outcome(
    accept_invalid_certs: bool,
    accept_invalid_hostnames: bool,
    root_cert: Option<Seq<u8>>,
    native: Seq<(Seq<u8>, Seq<u8>, Option<Seq<u8>>)>,
    r: Result<TlsConnectorSetup, RustlsSetupError>,
) -> bool {
    if accept_invalid_certs {
        r matches Ok(s) && s.verification is AcceptAnyCertificate
    } else {
        match root_cert {
            None => r matches Ok(s) && verification_for(
                s.verification,
                accept_invalid_hostnames,
                native,
            ),
            Some(data) => match pem_certificates(data) {
                Err(m) => r matches Err(RustlsSetupError::Io(e)) && e@ == m,
                Ok(certs) => match anchors_of_certs(certs) {
                    Err(m) => r matches Err(RustlsSetupError::Certificate(e)) && e@ == m,
                    Ok(extra) => r matches Ok(s) && verification_for(
                        s.verification,
                        accept_invalid_hostnames,
                        native + extra,
                    ),
                },
            },
        }
    }
}

/// Builds the TLS client configuration for a target connection.
///
/// With `accept_invalid_certs` every server certificate is accepted.
/// Otherwise the certificates in `root_cert` (PEM) are read and added to
/// a copy of `native_roots`; any failure there is returned. With
/// `accept_invalid_hostnames` a verifier that trusts those roots and ignores
/// host name mismatches is to be installed; otherwise the configuration's
/// standard verification, over `native_roots`, stands. The client never
/// offers a certificate of its own.
pub fn configure_tls_connector(
    accept_invalid_certs: bool,
    accept_invalid_hostnames: bool,
    root_cert: Option<&[u8]>,
    native_roots: &RootCertStore,
) -> (r: Result<TlsConnectorSetup, RustlsSetupError>)
    ensures
        r matches Ok(s) ==> client_config_anchors(s.config) == root_store_anchors(*native_roots),
        r matches Ok(s) ==> !client_config_offers_client_cert(s.config),
        tls_setup_outcome(
            accept_invalid_certs,
            accept_invalid_hostnames,
            match root_cert {
                Some(d) => Some(d@),
                None => None,
            },
            root_store_anchors(*native_roots),
            r,
        ),
        accept_invalid_certs ==> (r matches Ok(s)
            && s.verification is AcceptAnyCertificate),
        !accept_invalid_certs ==> match root_cert {
            None => r matches Ok(s) && verification_for(
                s.verification,
                accept_invalid_hostnames,
                root_store_anchors(*native_roots),
            ),
            Some(data) => match pem_certificates(data@) {
                Err(m) => r matches Err(RustlsSetupError::Io(e)) && e@ == m,
                Ok(certs) => match anchors_of_certs(certs) {
                    Err(m) => r matches Err(RustlsSetupError::Certificate(e)) && e@ == m,
                    Ok(extra) => r matches Ok(s) && verification_for(
                        s.verification,
                        accept_invalid_hostnames,
                        root_store_anchors(*native_roots) + extra,
                    ),
                },
            },
        },
{
    let config = client_config_with_roots(root_store_clone(native_roots));
    if accept_invalid_certs {
        return Ok(
            TlsConnectorSetup {
                config,
                verification: ServerCertVerification::AcceptAnyCertificate(DummyTlsVerifier),
            },
        );
    }
    let mut cert_store = root_store_clone(native_roots);
    match root_cert {
        Some(data) => {
            let certs = match pem_certs(data) {
                Ok(c) => c,
                Err(e) => {
                    return Err(RustlsSetupError::Io(e));
                },
            };
            let ghost all = der_view(certs@);
            let mut i: usize = 0;
            while i < certs.len()
                invariant
                    i <= certs.len(),
                    all == der_view(certs@),
                    !accept_invalid_certs,
                    root_cert == Some(data),
                    pem_certificates(data@) == Ok::<Seq<Seq<u8>>, Seq<char>>(all),
                    anchors_of_certs(all.take(i as int)) matches Ok(prev) && root_store_anchors(
                        cert_store,
                    ) == root_store_anchors(*native_roots) + prev,
                decreases certs.len() - i,
            {
                assert(all.take(i + 1).drop_last() =~= all.take(i as int));
                assert(all.take(i + 1).last() == certs@[i as int]@);
                match root_store_add(&mut cert_store, certs[i].as_slice()) {
                    Ok(()) => {},
                    Err(e) => {
                        proof {
                            lemma_anchors_error_persists(all, i as int + 1);
                        }
                        return Err(RustlsSetupError::Certificate(e));
                    },
                }
                i = i + 1;
            }
            assert(all.take(certs.len() as int) =~= all);
        },
        None => {
            assert(root_store_anchors(*native_roots) + Seq::empty() =~= root_store_anchors(
                *native_roots,
            ));
        },
    }
    let verification = if accept_invalid_hostnames {
        ServerCertVerification::IgnoreHostname(NoHostnameTlsVerifier::new(cert_store))
    } else {
        ServerCertVerification::Standard
    };
    Ok(TlsConnectorSetup { config, verification })
}

/// A root store holding the trust anchors of the DER certificates `ders`,
/// in order; the first certificate that yields no anchor decides the error.
pub fn root_store_from_ders(ders: &Vec<Vec<u8>>) -> (r: Result<RootCertStore, String>)
    ensures
        match anchors_of_certs(der_view(ders@)) {
            Ok(a) => r matches Ok(s) && root_store_anchors(s) == a,
            Err(m) => r matches Err(e) && e@ == m,
        },
{
    let mut store = root_store_empty();
    let ghost all = der_view(ders@);
    let mut i: usize = 0;
    while i < ders.len()
        invariant
            i <= ders.len(),
            all == der_view(ders@),
            anchors_of_certs(all.take(i as int)) matches Ok(prev) && root_store_anchors(store)
                == prev,
        decreases ders.len() - i,
    {
        assert(all.take(i + 1).drop_last() =~= all.take(i as int));
        assert(all.take(i + 1).last() == ders@[i as int]@);
        match root_store_add(&mut store, ders[i].as_slice()) {
            Ok(()) => {},
            Err(e) => {
                proof {
                    lemma_anchors_error_persists(all, i as int + 1);
                }
                return Err(e);
            },
        }
        i = i + 1;
    }
    assert(all.take(ders.len() as int) =~= all);
    Ok(store)
}

/// Once the anchors of a prefix of the certificates fail, those of the whole
/// list fail with the same message.
proof fn lemma_anchors_error_persists(all: Seq<Seq<u8>>, k: int)
    requires
        0 <= k <= all.len(),
        anchors_of_certs(all.take(k)) is Err,
    ensures
        anchors_of_certs(all) == anchors_of_certs(all.take(k)),
    decreases all.len() - k,
{
    if k < all.len() {
        assert(all.take(k + 1).drop_last() =~= all.take(k));
        lemma_anchors_error_persists(all, k + 1);
    } else {
        assert(all.take(k) =~= all);
    }
}

/// The anchors of a list of certificates are those of each certificate in
/// order where every certificate yields one, and an error otherwise.
proof fn lemma_anchors_of_each_cert(certs: Seq<Seq<u8>>)
    ensures
        (forall|i: int| 0 <= i < certs.len() ==> #[trigger] trust_anchor_from_der(certs[i]) is Ok)
            ==> (anchors_of_certs(certs) matches Ok(x) && x.len() == certs.len() && forall|i: int|
            0 <= i < certs.len() ==> x[i] == trust_anchor_from_der(certs[i])->Ok_0),
        anchors_of_certs(certs) is Ok ==> forall|i: int|
            0 <= i < certs.len() ==> #[trigger] trust_anchor_from_der(certs[i]) is Ok,
    decreases certs.len(),
{
    if certs.len() > 0 {
        let front = certs.drop_last();
        lemma_anchors_of_each_cert(front);
        assert forall|i: int| 0 <= i < front.len() implies front[i] == certs[i] by {}
        if anchors_of_certs(certs) is Ok {
            assert forall|i: int| 0 <= i < certs.len() implies #[trigger] trust_anchor_from_der(
                certs[i],
            ) is Ok by {
                if i < front.len() {
                    assert(front[i] == certs[i]);
                }
            }
        }
        if forall|i: int| 0 <= i < certs.len() ==> #[trigger] trust_anchor_from_der(certs[i]) is Ok {
            assert forall|i: int| 0 <= i < front.len() implies #[trigger] trust_anchor_from_der(
                front[i],
            ) is Ok by {
                assert(front[i] == certs[i]);
                assert(trust_anchor_from_der(certs[i]) is Ok);
            }
            assert(trust_anchor_from_der(certs[certs.len() - 1]) is Ok);
        }
    }
}

/// With host names tolerated, certificates checked and extra roots given,
/// the tolerant verifier trusts exactly the native anchors followed by the
/// anchor of every extra root certificate, in order, where each of them
/// yields one; where one of them yields none, the set-up fails with a
/// certificate error. Without host-name tolerance the standard verification
/// stands. The requirement is what `configure_tls_connector` states of its
/// result.
pub proof fn law_extra_roots_are_trusted(
    accept_invalid_hostnames: bool,
    root_cert: Option<Seq<u8>>,
    native: Seq<(Seq<u8>, Seq<u8>, Option<Seq<u8>>)>,
    r: Result<TlsConnectorSetup, RustlsSetupError>,
)
    requires
        tls_setup_outcome(false, accept_invalid_hostnames, root_cert, native, r),
    ensures
        !accept_invalid_hostnames && r is Ok ==> (r matches Ok(s) && s.verification is Standard),
        accept_invalid_hostnames && root_cert is None ==> (r matches Ok(s)
            && s.verification matches ServerCertVerification::IgnoreHostname(v)
            && v.trusted_anchors() == native),
        root_cert matches Some(data) ==> (pem_certificates(data) matches Ok(certs) ==> {
            &&& (forall|i: int| 0 <= i < certs.len() ==> #[trigger] trust_anchor_from_der(certs[i]) is Ok)
                ==> (r is Ok && (accept_invalid_hostnames ==> (r matches Ok(s)
                && s.verification matches ServerCertVerification::IgnoreHostname(v) && {
                let t = v.trusted_anchors();
                &&& t.len() == native.len() + certs.len()
                &&& forall|i: int| 0 <= i < native.len() ==> t[i] == native[i]
                &&& forall|i: int|
                    0 <= i < certs.len() ==> t[native.len() + i] == trust_anchor_from_der(
                        certs[i],
                    )->Ok_0
            })))
            &&& (exists|i: int| 0 <= i < certs.len() && #[trigger] trust_anchor_from_der(certs[i]) is Err)
                ==> r matches Err(RustlsSetupError::Certificate(_))
        }),
{
    if let Some(data) = root_cert {
        if let Ok(certs) = pem_certificates(data) {
            lemma_anchors_of_each_cert(certs);
        }
    }
}

/// The host-name-tolerant verifier lifts only the web PKI's host-name
/// mismatch: its outcome is acceptance exactly where the standard outcome is
/// acceptance or a rejection whose reason reports `CertNotValidForName`;
/// any other rejection (a certificate not yet valid, expired, or of an
/// unknown issuer) and every other outcome stand unchanged. The requirement
/// is what `NoHostnameTlsVerifier::verify_server_cert` states of its result.
pub proof fn law_only_name_mismatch_is_forgiven<E>(
    inner: ServerCertOutcome<E>,
    r: ServerCertOutcome<E>,
)
    requires
        r == tolerate_hostname_mismatch(inner),
    ensures
        (r is Verified) <==> (inner is Verified || (inner matches ServerCertOutcome::InvalidCertificateData(
            reason,
        ) && contains_text(reason@, "CertNotValidForName"@))),
        !(r is Verified) ==> r == inner,
{
}

} // verus!
