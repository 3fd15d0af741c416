//! TLS configuration: which files a security configuration needs, how their
//! PEM contents become certificates and keys, how DER data is framed as PEM,
//! and how servers and clients are to authenticate.
use vstd::prelude::*;
use base64::{engine::general_purpose::STANDARD, Engine};
use rustls::pki_types::PrivateKeyDer;
use crate::config::SecurityConfig;
use crate::text::{chars_of, push_chars, push_str, string_from};

verus! {

// ---------------------------------------------------------------------------
// Errors
// ---------------------------------------------------------------------------

/// TLS-related errors.
#[derive(Debug)]
pub enum TlsError {
    /// A file could not be read; the message is that of the I/O error.
    CertificateRead(String),
    CertificateParse(String),
    PrivateKeyParse(String),
    NoPrivateKey,
    Configuration(String),
    Validation(String),
}

impl TlsError {
    /// How the error is displayed.
    pub open spec fn display_view(&self) -> Seq<char> {
        match self {
            TlsError::CertificateRead(m) => "Failed to read certificate file: "@ + m@,
            TlsError::CertificateParse(m) => "Failed to parse certificate: "@ + m@,
            TlsError::PrivateKeyParse(m) => "Failed to parse private key: "@ + m@,
            TlsError::NoPrivateKey => "No valid private key found"@,
            TlsError::Configuration(m) => "TLS configuration error: "@ + m@,
            TlsError::Validation(m) => "Certificate validation failed: "@ + m@,
        }
    }

    /// The error as displayed.
    pub fn to_string(&self) -> (r: String)
        ensures
            r@ == self.display_view(),
    {
        let mut s = String::new();
        match self {
            TlsError::CertificateRead(m) => {
                push_str(&mut s, "Failed to read certificate file: ");
                push_str(&mut s, m.as_str());
            },
            TlsError::CertificateParse(m) => {
                push_str(&mut s, "Failed to parse certificate: ");
                push_str(&mut s, m.as_str());
            },
            TlsError::PrivateKeyParse(m) => {
                push_str(&mut s, "Failed to parse private key: ");
                push_str(&mut s, m.as_str());
            },
            TlsError::NoPrivateKey => {
                push_str(&mut s, "No valid private key found");
            },
            TlsError::Configuration(m) => {
                push_str(&mut s, "TLS configuration error: ");
                push_str(&mut s, m.as_str());
            },
            TlsError::Validation(m) => {
                push_str(&mut s, "Certificate validation failed: ");
                push_str(&mut s, m.as_str());
            },
        }
        s
    }
}

/// A configuration error with the given message.
pub open spec fn is_configuration_error(e: TlsError, m: Seq<char>) -> bool {
    e matches TlsError::Configuration(s) && s@ == m
}

// ---------------------------------------------------------------------------
// Validation of a security configuration
// ---------------------------------------------------------------------------

/// Whether a file exists at `path` (`Path::exists`). What is on disk decides;
/// nothing is stated of the result.
#[verifier::external_body]
pub(crate) fn file_exists(path: &str) -> bool {
    std::path::Path::new(path).exists()
}

/// The outcome of checking a security configuration, given whether each named
/// file exists: `None` when it is valid, else the message of the configuration
/// error. With TLS on, the certificate and the key file must be named and
/// exist, and with mutual TLS also the CA file, checked in that order.
pub open spec fn tls_validation(
    s: SecurityConfig,
    cert_exists: bool,
    key_exists: bool,
    ca_exists: bool,
) -> Option<Seq<char>> {
    if !s.enable_tls {
        None
    } else if s.cert_file is None {
        Some("cert_file is required when TLS is enabled"@)
    } else if !cert_exists {
        Some("Certificate file does not exist: "@ + s.cert_file->0@)
    } else if s.key_file is None {
        Some("key_file is required when TLS is enabled"@)
    } else if !key_exists {
        Some("Private key file does not exist: "@ + s.key_file->0@)
    } else if !s.enable_mtls {
        None
    } else if s.ca_file is None {
        Some("ca_file is required when mTLS is enabled"@)
    } else if !ca_exists {
        Some("CA certificate file does not exist: "@ + s.ca_file->0@)
    } else {
        None
    }
}

/// Whether a result is the outcome that `tls_validation` describes.
pub open spec fn validation_outcome(r: Result<(), TlsError>, expected: Option<Seq<char>>) -> bool {
    match expected {
        None => r is Ok,
        Some(m) => r matches Err(e) && is_configuration_error(e, m),
    }
}

fn message_with(prefix: &str, tail: &String) -> (r: String)
    ensures
        r@ == prefix@ + tail@,
{
    let mut m = string_from(prefix);
    push_str(&mut m, tail.as_str());
    m
}

/// Checks a security configuration, given whether each named file exists.
pub fn check_tls_config(
    security: &SecurityConfig,
    cert_exists: bool,
    key_exists: bool,
    ca_exists: bool,
) -> (r: Result<(), TlsError>)
    ensures
        validation_outcome(r, tls_validation(*security, cert_exists, key_exists, ca_exists)),
{
    if !security.enable_tls {
        return Ok(());
    }
    match &security.cert_file {
        None => {
            return Err(TlsError::Configuration(string_from("cert_file is required when TLS is enabled")));
        },
        Some(cert_file) => {
            if !cert_exists {
                return Err(TlsError::Configuration(message_with("Certificate file does not exist: ", cert_file)));
            }
        },
    }
    match &security.key_file {
        None => {
            return Err(TlsError::Configuration(string_from("key_file is required when TLS is enabled")));
        },
        Some(key_file) => {
            if !key_exists {
                return Err(TlsError::Configuration(message_with("Private key file does not exist: ", key_file)));
            }
        },
    }
    if security.enable_mtls {
        match &security.ca_file {
            None => {
                return Err(TlsError::Configuration(string_from("ca_file is required when mTLS is enabled")));
            },
            Some(ca_file) => {
                if !ca_exists {
                    return Err(TlsError::Configuration(message_with("CA certificate file does not exist: ", ca_file)));
                }
            },
        }
    }
    Ok(())
}

/// Checks a security configuration against the files on disk: the outcome is
/// the one that `tls_validation` gives for what the disk says of each file.
pub fn validate_tls_config(security: &SecurityConfig) -> (r: Result<(), TlsError>)
    ensures
        exists|c: bool, k: bool, a: bool|
            validation_outcome(r, #[trigger] tls_validation(*security, c, k, a)),
{
    let cert_exists = match &security.cert_file {
        Some(p) => file_exists(p.as_str()),
        None => false,
    };
    let key_exists = match &security.key_file {
        Some(p) => file_exists(p.as_str()),
        None => false,
    };
    let ca_exists = match &security.ca_file {
        Some(p) => file_exists(p.as_str()),
        None => false,
    };
    let r = check_tls_config(security, cert_exists, key_exists, ca_exists);
    assert(validation_outcome(r, tls_validation(*security, cert_exists, key_exists, ca_exists)));
    r
}

/// Self-signed test certificates are not generated by this library: the call
/// always fails, with a message that points to external tools.
pub fn generate_self_signed_cert(_subject_name: &str) -> (r: Result<(Vec<u8>, Vec<u8>), String>)
    ensures
        r matches Err(m) && m@
            == "Test certificate generation is currently disabled. Use external tools to generate test certificates."@,
{
    Err(string_from("Test certificate generation is currently disabled. Use external tools to generate test certificates."))
}

// ---------------------------------------------------------------------------
// PEM framing
// ---------------------------------------------------------------------------

/// The standard base64 encoding (with padding) of `data`, as the `base64`
/// crate's `STANDARD` engine writes it.
pub uninterp spec fn base64_standard(data: Seq<u8>) -> Seq<char>;

/// `base64::engine::general_purpose::STANDARD.encode`: the result is the
/// standard base64 encoding of `data`, named `base64_standard`.
#[verifier::external_body]
fn base64_encode(data: &[u8]) -> (r: String)
    ensures
        r@ == base64_standard(data@),
{
    STANDARD.encode(data)
}

/// `s` cut into lines of 64 characters (the last one shorter), joined with
/// newlines.
pub open spec fn wrap64(s: Seq<char>) -> Seq<char>
    decreases s.len(),
{
    if s.len() <= 64 {
        s
    } else {
        s.take(64) + seq!['\n'] + wrap64(s.skip(64))
    }
}

/// A PEM block: a `BEGIN` line with the label, the base64 text in lines of 64
/// characters, and an `END` line with the label.
pub open spec fn pem_block(label: Seq<char>, data: Seq<u8>) -> Seq<char> {
    "-----BEGIN "@ + label + "-----\n"@ + wrap64(base64_standard(data)) + "\n-----END "@ + label
        + "-----"@
}

/// Appends `s` cut into lines of 64 characters.
fn push_wrapped64(out: &mut String, s: &[char])
    ensures
        final(out)@ == old(out)@ + wrap64(s@),
{
    let ghost start = out@;
    let mut i: usize = 0;
    assert(s@.skip(0) == s@);
    while s.len() - i > 64
        invariant
            i <= s@.len(),
            out@ + wrap64(s@.skip(i as int)) == start + wrap64(s@),
        decreases s@.len() - i,
    {
        let mut line: Vec<char> = Vec::new();
        let mut j: usize = 0;
        while j < 64
            invariant
                j <= 64,
                i + 64 < s.len(),
                line@ == s@.skip(i as int).take(j as int),
            decreases 64 - j,
        {
            proof {
                assert(s@.skip(i as int).take(j + 1) == s@.skip(i as int).take(j as int).push(s@[i + j]));
            }
            line.push(s[i + j]);
            j = j + 1;
        }
        let ghost before = out@;
        push_chars(out, &line);
        crate::text::push_char(out, '\n');
        proof {
            let rest = s@.skip(i as int);
            assert(rest.skip(64) == s@.skip(i + 64));
            assert(wrap64(rest) == rest.take(64) + seq!['\n'] + wrap64(rest.skip(64)));
            assert(out@ == before + rest.take(64) + seq!['\n']);
        }
        i = i + 64;
    }
    let mut tail: Vec<char> = Vec::new();
    let mut j: usize = i;
    while j < s.len()
        invariant
            i <= j <= s@.len(),
            tail@ == s@.subrange(i as int, j as int),
        decreases s@.len() - j,
    {
        proof {
            assert(s@.subrange(i as int, j + 1) == s@.subrange(i as int, j as int).push(s@[j as int]));
        }
        tail.push(s[j]);
        j = j + 1;
    }
    proof {
        assert(tail@ == s@.skip(i as int));
    }
    push_chars(out, &tail);
}

/// Frames `der` as a PEM block with the given label.
pub fn der_to_pem(der: &[u8], label: &str) -> (r: Result<String, TlsError>)
    ensures
        r matches Ok(s) && s@ == pem_block(label@, der@),
{
    let encoded = base64_encode(der);
    let encoded_chars = chars_of(encoded.as_str());
    let mut pem = string_from("-----BEGIN ");
    push_str(&mut pem, label);
    push_str(&mut pem, "-----\n");
    push_wrapped64(&mut pem, &encoded_chars);
    push_str(&mut pem, "\n-----END ");
    push_str(&mut pem, label);
    push_str(&mut pem, "-----");
    Ok(pem)
}

/// `s` without its newline characters.
pub open spec fn strip_newlines(s: Seq<char>) -> Seq<char> {
    s.filter(|c: char| c != '\n')
}

/// Wrapping text without newlines into lines keeps the text: taking the
/// newlines out again gives it back.
pub proof fn law_wrap64_keeps_text(s: Seq<char>)
    requires
        !s.contains('\n'),
    ensures
        strip_newlines(wrap64(s)) == s,
    decreases s.len(),
{
    if s.len() <= 64 {
        lemma_filter_no_newline(s);
    } else {
        let a = s.take(64);
        let b = s.skip(64);
        assert(!a.contains('\n')) by {
            if a.contains('\n') {
                let k = choose|k: int| 0 <= k < a.len() && a[k] == '\n';
                assert(s[k] == '\n');
            }
        }
        assert(!b.contains('\n')) by {
            if b.contains('\n') {
                let k = choose|k: int| 0 <= k < b.len() && b[k] == '\n';
                assert(s[k + 64] == '\n');
            }
        }
        law_wrap64_keeps_text(b);
        lemma_filter_no_newline(a);
        let f = |c: char| c != '\n';
        Seq::<char>::filter_distributes_over_add(a + seq!['\n'], wrap64(b), f);
        Seq::<char>::filter_distributes_over_add(a, seq!['\n'], f);
        assert(seq!['\n'].filter(f) =~= Seq::<char>::empty()) by {
            reveal_with_fuel(Seq::filter, 2);
            assert(seq!['\n'].drop_last() =~= Seq::<char>::empty());
        }
        assert(a + b =~= s);
    }
}

proof fn lemma_filter_no_newline(s: Seq<char>)
    requires
        !s.contains('\n'),
    ensures
        s.filter(|c: char| c != '\n') == s,
    decreases s.len(),
{
    reveal(Seq::filter);
    if s.len() > 0 {
        assert(!s.drop_last().contains('\n')) by {
            if s.drop_last().contains('\n') {
                let k = choose|k: int| 0 <= k < s.drop_last().len() && s.drop_last()[k] == '\n';
                assert(s[k] == '\n');
            }
        }
        lemma_filter_no_newline(s.drop_last());
        assert(s.last() != '\n') by {
            assert(s[s.len() - 1] == s.last());
        }
        assert(s.drop_last().push(s.last()) =~= s);
    }
}

// ---------------------------------------------------------------------------
// Certificates and keys
// ---------------------------------------------------------------------------

/// What a TLS error says, with its message taken by its characters.
pub enum TlsErrorView {
    CertificateRead(Seq<char>),
    CertificateParse(Seq<char>),
    PrivateKeyParse(Seq<char>),
    NoPrivateKey,
    Configuration(Seq<char>),
    Validation(Seq<char>),
}

impl TlsError {
    pub open spec fn view(&self) -> TlsErrorView {
        match self {
            TlsError::CertificateRead(m) => TlsErrorView::CertificateRead(m@),
            TlsError::CertificateParse(m) => TlsErrorView::CertificateParse(m@),
            TlsError::PrivateKeyParse(m) => TlsErrorView::PrivateKeyParse(m@),
            TlsError::NoPrivateKey => TlsErrorView::NoPrivateKey,
            TlsError::Configuration(m) => TlsErrorView::Configuration(m@),
            TlsError::Validation(m) => TlsErrorView::Validation(m@),
        }
    }
}

/// The kind of a private key, which names its PEM label.
#[derive(PartialEq, Eq, Structural, Clone, Copy, Debug)]
pub enum KeyKind {
    /// An RSA key (PKCS#1).
    Pkcs1,
    /// An elliptic-curve key (SEC1).
    Sec1,
    /// A PKCS#8 key.
    Pkcs8,
    /// Any other kind.
    Other,
}

/// A private key: its kind and its DER bytes.
#[derive(Debug)]
pub struct PrivateKey {
    pub kind: KeyKind,
    pub der: Vec<u8>,
}

/// A private key taken by its contents.
pub type PrivateKeyView = (KeyKind, Seq<u8>);

impl PrivateKey {
    pub open spec fn view(&self) -> PrivateKeyView {
        (self.kind, self.der@)
    }

    /// A copy with the same contents.
    pub fn copy(&self) -> (r: PrivateKey)
        ensures
            r.view() == self.view(),
    {
        PrivateKey { kind: self.kind, der: copy_bytes(&self.der) }
    }
}

fn copy_bytes(v: &Vec<u8>) -> (r: Vec<u8>)
    ensures
        r@ == v@,
{
    let mut r: Vec<u8> = Vec::new();
    let mut i: usize = 0;
    while i < v.len()
        invariant
            i <= v@.len(),
            r@ == v@.take(i as int),
        decreases v@.len() - i,
    {
        proof {
            assert(v@.take(i + 1) == v@.take(i as int).push(v@[i as int]));
        }
        r.push(v[i]);
        i = i + 1;
    }
    proof {
        assert(v@.take(i as int) == v@);
    }
    r
}

/// DER blobs taken by their bytes.
pub open spec fn ders_view(v: Seq<Vec<u8>>) -> Seq<Seq<u8>> {
    v.map_values(|d: Vec<u8>| d@)
}

fn copy_ders(v: &Vec<Vec<u8>>) -> (r: Vec<Vec<u8>>)
    ensures
        ders_view(r@) == ders_view(v@),
{
    let mut r: Vec<Vec<u8>> = Vec::new();
    let mut i: usize = 0;
    while i < v.len()
        invariant
            i <= v@.len(),
            r@.len() == i,
            forall|j: int| 0 <= j < i ==> #[trigger] r@[j]@ == v@[j]@,
        decreases v@.len() - i,
    {
        r.push(copy_bytes(&v[i]));
        i = i + 1;
    }
    proof {
        assert(ders_view(r@) =~= ders_view(v@));
    }
    r
}

/// The certificates (as DER) that `rustls_pemfile::certs` reads from PEM text,
/// or the message of the error it meets.
pub uninterp spec fn pem_certificates(pem: Seq<u8>) -> Result<Seq<Seq<u8>>, Seq<char>>;

/// The first private key that `rustls_pemfile::private_key` reads from PEM
/// text, if any, or the message of the error it meets.
pub uninterp spec fn pem_private_key(pem: Seq<u8>) -> Result<Option<PrivateKeyView>, Seq<char>>;

/// `rustls_pemfile::certs` over PEM text, collected: the DER bytes of every
/// certificate, or the message of the first error; named `pem_certificates`.
#[verifier::external_body]
fn read_pem_certificates(pem: &[u8]) -> (r: Result<Vec<Vec<u8>>, String>)
    ensures
        match r {
            Ok(v) => pem_certificates(pem@) == Ok::<Seq<Seq<u8>>, Seq<char>>(ders_view(v@)),
            Err(m) => pem_certificates(pem@) == Err::<Seq<Seq<u8>>, Seq<char>>(m@),
        },
{
    let mut reader = pem;
    match rustls_pemfile::certs(&mut reader).collect::<Result<Vec<_>, _>>() {
        Ok(certs) => Ok(certs.iter().map(|c| c.as_ref().to_vec()).collect()),
        Err(e) => Err(e.to_string()),
    }
}

/// `rustls_pemfile::private_key` over PEM text: the first private key with its
/// kind and DER bytes, none, or the message of the error; named
/// `pem_private_key`.
#[verifier::external_body]
fn read_pem_private_key(pem: &[u8]) -> (r: Result<Option<PrivateKey>, String>)
    ensures
        match r {
            Ok(Some(k)) => pem_private_key(pem@) == Ok::<Option<PrivateKeyView>, Seq<char>>(
                Some(k.view()),
            ),
            Ok(None) => pem_private_key(pem@) == Ok::<Option<PrivateKeyView>, Seq<char>>(None),
            Err(m) => pem_private_key(pem@) == Err::<Option<PrivateKeyView>, Seq<char>>(m@),
        },
{
    let mut reader = pem;
    match rustls_pemfile::private_key(&mut reader) {
        Ok(Some(key)) => {
            let kind = match &key {
                PrivateKeyDer::Pkcs1(_) => KeyKind::Pkcs1,
                PrivateKeyDer::Sec1(_) => KeyKind::Sec1,
                PrivateKeyDer::Pkcs8(_) => KeyKind::Pkcs8,
                _ => KeyKind::Other,
            };
            Ok(Some(PrivateKey { kind, der: key.secret_der().to_vec() }))
        },
        Ok(None) => Ok(None),
        Err(e) => Err(e.to_string()),
    }
}

/// The contents of a file as read: its bytes, or the message of the I/O error.
pub open spec fn contents_view(c: Result<Vec<u8>, String>) -> Result<Seq<u8>, Seq<char>> {
    match c {
        Ok(b) => Ok(b@),
        Err(m) => Err(m@),
    }
}

/// What loading the certificates of a file gives: the read error, the parse
/// error, an error for a file without certificates, or the certificates.
pub open spec fn certificates_outcome(c: Result<Seq<u8>, Seq<char>>) -> Result<
    Seq<Seq<u8>>,
    TlsErrorView,
> {
    match c {
        Err(io) => Err(TlsErrorView::CertificateRead(io)),
        Ok(pem) => match pem_certificates(pem) {
            Err(e) => Err(TlsErrorView::CertificateParse("Failed to parse certificates: "@ + e)),
            Ok(certs) => if certs.len() == 0 {
                Err(TlsErrorView::CertificateParse("No certificates found in file"@))
            } else {
                Ok(certs)
            },
        },
    }
}

/// What loading the private key of a file gives.
pub open spec fn private_key_outcome(c: Result<Seq<u8>, Seq<char>>) -> Result<
    PrivateKeyView,
    TlsErrorView,
> {
    match c {
        Err(io) => Err(TlsErrorView::CertificateRead(io)),
        Ok(pem) => match pem_private_key(pem) {
            Err(e) => Err(TlsErrorView::PrivateKeyParse("Failed to parse private key: "@ + e)),
            Ok(None) => Err(TlsErrorView::NoPrivateKey),
            Ok(Some(k)) => Ok(k),
        },
    }
}

/// Loads the certificates of a PEM file from its contents.
pub fn load_certificates(contents: &Result<Vec<u8>, String>) -> (r: Result<Vec<Vec<u8>>, TlsError>)
    ensures
        match r {
            Ok(v) => certificates_outcome(contents_view(*contents)) == Ok::<Seq<Seq<u8>>, TlsErrorView>(ders_view(v@)),
            Err(e) => certificates_outcome(contents_view(*contents)) == Err::<Seq<Seq<u8>>, TlsErrorView>(e.view()),
        },
{
    match contents {
        Err(io) => Err(TlsError::CertificateRead(io.clone())),
        Ok(pem) => match read_pem_certificates(pem.as_slice()) {
            Err(e) => Err(TlsError::CertificateParse(message_with("Failed to parse certificates: ", &e))),
            Ok(certs) => {
                if certs.len() == 0 {
                    Err(TlsError::CertificateParse(string_from("No certificates found in file")))
                } else {
                    Ok(certs)
                }
            },
        },
    }
}

/// Loads the private key of a PEM file from its contents.
pub fn load_private_key(contents: &Result<Vec<u8>, String>) -> (r: Result<PrivateKey, TlsError>)
    ensures
        match r {
            Ok(k) => private_key_outcome(contents_view(*contents)) == Ok::<PrivateKeyView, TlsErrorView>(k.view()),
            Err(e) => private_key_outcome(contents_view(*contents)) == Err::<PrivateKeyView, TlsErrorView>(e.view()),
        },
{
    match contents {
        Err(io) => Err(TlsError::CertificateRead(io.clone())),
        Ok(pem) => match read_pem_private_key(pem.as_slice()) {
            Err(e) => Err(TlsError::PrivateKeyParse(message_with("Failed to parse private key: ", &e))),
            Ok(None) => Err(TlsError::NoPrivateKey),
            Ok(Some(k)) => Ok(k),
        },
    }
}

/// The PEM label of a private key kind.
pub open spec fn key_label(kind: KeyKind) -> Seq<char> {
    match kind {
        KeyKind::Pkcs1 => "RSA PRIVATE KEY"@,
        KeyKind::Sec1 => "EC PRIVATE KEY"@,
        KeyKind::Pkcs8 => "PRIVATE KEY"@,
        KeyKind::Other => "PRIVATE KEY"@,
    }
}

/// Frames a private key as a PEM block labelled by its kind.
pub fn private_key_der_to_pem(key: &PrivateKey) -> (r: Result<String, TlsError>)
    ensures
        r matches Ok(s) && s@ == pem_block(key_label(key.kind), key.der@),
{
    let label = match key.kind {
        KeyKind::Pkcs1 => "RSA PRIVATE KEY",
        KeyKind::Sec1 => "EC PRIVATE KEY",
        KeyKind::Pkcs8 => "PRIVATE KEY",
        KeyKind::Other => "PRIVATE KEY",
    };
    der_to_pem(key.der.as_slice(), label)
}

/// Certificates framed as PEM blocks, joined with newlines.
pub open spec fn pem_chain(certs: Seq<Seq<u8>>) -> Seq<char>
    decreases certs.len(),
{
    if certs.len() == 0 {
        Seq::empty()
    } else if certs.len() == 1 {
        pem_block("CERTIFICATE"@, certs[0])
    } else {
        pem_chain(certs.drop_last()) + "\n"@ + pem_block("CERTIFICATE"@, certs.last())
    }
}

/// Certificates framed as PEM blocks, joined with newlines.
pub fn certificates_pem(certs: &Vec<Vec<u8>>) -> (r: String)
    ensures
        r@ == pem_chain(ders_view(certs@)),
{
    let mut out = String::new();
    let mut i: usize = 0;
    while i < certs.len()
        invariant
            i <= certs@.len(),
            out@ == pem_chain(ders_view(certs@.take(i as int))),
        decreases certs@.len() - i,
    {
        if i > 0 {
            push_str(&mut out, "\n");
        }
        let block = der_to_pem(certs[i].as_slice(), "CERTIFICATE");
        match block {
            Ok(b) => push_str(&mut out, b.as_str()),
            Err(_) => {},
        }
        proof {
            let next = ders_view(certs@.take(i + 1));
            assert(next.drop_last() =~= ders_view(certs@.take(i as int)));
            assert(next.last() == certs@[i as int]@);
            if i == 0 {
                assert(next.len() == 1);
                assert(next[0] == certs@[0]@);
                assert(ders_view(certs@.take(0)).len() == 0);
            }
        }
        i = i + 1;
    }
    proof {
        assert(certs@.take(i as int) =~= certs@);
    }
    out
}

// ---------------------------------------------------------------------------
// Server and client TLS configurations
// ---------------------------------------------------------------------------

/// The contents of the PEM files that a security configuration names, as read
/// from disk; `None` for a file it does not name.
#[derive(Debug)]
pub struct PemFiles {
    pub cert: Option<Result<Vec<u8>, String>>,
    pub key: Option<Result<Vec<u8>, String>>,
    pub ca: Option<Result<Vec<u8>, String>>,
}

/// The files hold the contents of every file that the configuration names.
pub open spec fn files_match(security: SecurityConfig, files: PemFiles) -> bool {
    &&& (security.cert_file is Some ==> files.cert is Some)
    &&& (security.key_file is Some ==> files.key is Some)
    &&& (security.ca_file is Some ==> files.ca is Some)
}

/// The contents of a file that the configuration names.
pub open spec fn file_view(f: Option<Result<Vec<u8>, String>>) -> Result<Seq<u8>, Seq<char>> {
    contents_view(f->0)
}

/// TLS configuration of a server: its certificate chain and key, and the CA
/// certificates that client certificates must chain to under mutual TLS.
#[derive(Debug)]
pub struct TlsConfig {
    pub certificates: Vec<Vec<u8>>,
    pub private_key: PrivateKey,
    pub client_ca_certs: Option<Vec<Vec<u8>>>,
    pub require_client_cert: bool,
}

/// A server TLS configuration taken by its contents.
pub type TlsConfigView = (Seq<Seq<u8>>, PrivateKeyView, Option<Seq<Seq<u8>>>, bool);

pub open spec fn opt_ders_view(v: Option<Vec<Vec<u8>>>) -> Option<Seq<Seq<u8>>> {
    match v {
        Some(c) => Some(ders_view(c@)),
        None => None,
    }
}

/// What building a server TLS configuration from a security configuration and
/// its files gives: none with TLS off; a configuration error for a missing
/// certificate or key file (or CA file under mutual TLS); the error of loading
/// a file; else the loaded certificates and key, with the CA certificates
/// under mutual TLS.
pub open spec fn server_tls_outcome(s: SecurityConfig, files: PemFiles) -> Result<
    Option<TlsConfigView>,
    TlsErrorView,
> {
    if !s.enable_tls {
        Ok(None)
    } else if s.cert_file is None {
        Err(TlsErrorView::Configuration("cert_file is required when TLS is enabled"@))
    } else if s.key_file is None {
        Err(TlsErrorView::Configuration("key_file is required when TLS is enabled"@))
    } else {
        match certificates_outcome(file_view(files.cert)) {
            Err(e) => Err(e),
            Ok(certs) => match private_key_outcome(file_view(files.key)) {
                Err(e) => Err(e),
                Ok(key) => if !s.enable_mtls {
                    Ok(Some((certs, key, None, false)))
                } else if s.ca_file is None {
                    Err(TlsErrorView::Configuration("ca_file is required when mTLS is enabled"@))
                } else {
                    match certificates_outcome(file_view(files.ca)) {
                        Err(e) => Err(e),
                        Ok(ca) => Ok(Some((certs, key, Some(ca), true))),
                    }
                },
            },
        }
    }
}

impl TlsConfig {
    pub open spec fn view(&self) -> TlsConfigView {
        (
            ders_view(self.certificates@),
            self.private_key.view(),
            opt_ders_view(self.client_ca_certs),
            self.require_client_cert,
        )
    }

    /// Builds the server TLS configuration of a security configuration from
    /// the contents of the files it names.
    pub fn from_security_config(security: &SecurityConfig, files: &PemFiles) -> (r: Result<
        Option<TlsConfig>,
        TlsError,
    >)
        requires
            files_match(*security, *files),
        ensures
            match r {
                Ok(Some(c)) => server_tls_outcome(*security, *files) == Ok::<Option<TlsConfigView>, TlsErrorView>(Some(c.view())),
                Ok(None) => server_tls_outcome(*security, *files) == Ok::<Option<TlsConfigView>, TlsErrorView>(None),
                Err(e) => server_tls_outcome(*security, *files) == Err::<Option<TlsConfigView>, TlsErrorView>(e.view()),
            },
    {
        if !security.enable_tls {
            return Ok(None);
        }
        if security.cert_file.is_none() {
            return Err(TlsError::Configuration(string_from("cert_file is required when TLS is enabled")));
        }
        if security.key_file.is_none() {
            return Err(TlsError::Configuration(string_from("key_file is required when TLS is enabled")));
        }
        let certificates = match &files.cert {
            Some(c) => match load_certificates(c) {
                Ok(v) => v,
                Err(e) => {
                    return Err(e);
                },
            },
            None => {
                return Err(TlsError::Configuration(string_from("cert_file is required when TLS is enabled")));
            },
        };
        let private_key = match &files.key {
            Some(c) => match load_private_key(c) {
                Ok(k) => k,
                Err(e) => {
                    return Err(e);
                },
            },
            None => {
                return Err(TlsError::Configuration(string_from("key_file is required when TLS is enabled")));
            },
        };
        let client_ca_certs = if security.enable_mtls {
            if security.ca_file.is_none() {
                return Err(TlsError::Configuration(string_from("ca_file is required when mTLS is enabled")));
            }
            match &files.ca {
                Some(c) => match load_certificates(c) {
                    Ok(v) => Some(v),
                    Err(e) => {
                        return Err(e);
                    },
                },
                None => {
                    return Err(TlsError::Configuration(string_from("ca_file is required when mTLS is enabled")));
                },
            }
        } else {
            None
        };
        Ok(Some(TlsConfig { certificates, private_key, client_ca_certs, require_client_cert: security.enable_mtls }))
    }

    /// The CA certificates that client certificates are verified against: none
    /// without mutual TLS, and an error under mutual TLS without CA
    /// certificates.
    pub fn client_auth_roots(&self) -> (r: Result<Option<Vec<Vec<u8>>>, TlsError>)
        ensures
            !self.require_client_cert ==> (r matches Ok(None)),
            self.require_client_cert ==> match self.client_ca_certs {
                Some(ca) => r matches Ok(Some(v)) && ders_view(v@) == ders_view(ca@),
                None => r matches Err(e) && e.view() == TlsErrorView::Configuration(
                    "mTLS enabled but no CA certificates provided"@,
                ),
            },
    {
        if self.require_client_cert {
            match &self.client_ca_certs {
                Some(ca) => Ok(Some(copy_ders(ca))),
                None => Err(TlsError::Configuration(string_from("mTLS enabled but no CA certificates provided"))),
            }
        } else {
            Ok(None)
        }
    }

    /// The server identity as PEM text (certificate chain, private key), when
    /// there are certificates.
    pub fn identity_pem(&self) -> (r: Option<(String, String)>)
        ensures
            self.certificates@.len() == 0 ==> r is None,
            self.certificates@.len() > 0 ==> (r matches Some((c, k)) && c@ == pem_chain(
                ders_view(self.certificates@),
            ) && k@ == pem_block(key_label(self.private_key.kind), self.private_key.der@)),
    {
        if self.certificates.len() == 0 {
            return None;
        }
        let cert_pem = certificates_pem(&self.certificates);
        match private_key_der_to_pem(&self.private_key) {
            Ok(key_pem) => Some((cert_pem, key_pem)),
            Err(_) => None,
        }
    }

    /// The CA certificates for client verification as PEM text, under mutual
    /// TLS with CA certificates.
    pub fn client_ca_pem(&self) -> (r: Option<String>)
        ensures
            match (self.require_client_cert, self.client_ca_certs) {
                (true, Some(ca)) => r matches Some(p) && p@ == pem_chain(ders_view(ca@)),
                _ => r is None,
            },
    {
        if self.require_client_cert {
            match &self.client_ca_certs {
                Some(ca) => Some(certificates_pem(ca)),
                None => None,
            }
        } else {
            None
        }
    }
}

/// TLS configuration of a client.
#[derive(Debug)]
pub struct ClientTlsConfig {
    pub ca_certs: Option<Vec<Vec<u8>>>,
    pub client_cert: Option<Vec<Vec<u8>>>,
    pub client_key: Option<PrivateKey>,
    pub verify_hostname: bool,
    pub accept_invalid_certs: bool,
}

/// A client TLS configuration taken by its contents.
pub type ClientTlsConfigView = (
    Option<Seq<Seq<u8>>>,
    Option<Seq<Seq<u8>>>,
    Option<PrivateKeyView>,
    bool,
    bool,
);

/// How a client verifies the certificate of a server.
#[derive(Debug)]
pub enum ServerVerification {
    /// Every certificate is accepted.
    AcceptAny,
    /// The certificate must chain to one of these CA certificates.
    Roots(Vec<Vec<u8>>),
    /// The certificate must chain to a root of the platform.
    NativeRoots,
}

/// What building a client TLS configuration gives: none with TLS off; the
/// error of loading the CA file when one is named; under mutual TLS a
/// configuration error for a missing certificate or key file, or the error of
/// loading one; else the configuration, which verifies host names exactly when
/// it does not accept invalid certificates.
pub open spec fn client_tls_outcome(s: SecurityConfig, files: PemFiles) -> Result<
    Option<ClientTlsConfigView>,
    TlsErrorView,
> {
    if !s.enable_tls {
        Ok(None)
    } else {
        let ca = if s.ca_file is Some {
            match certificates_outcome(file_view(files.ca)) {
                Ok(c) => Ok(Some(c)),
                Err(e) => Err(e),
            }
        } else {
            Ok(None)
        };
        match ca {
            Err(e) => Err(e),
            Ok(ca) => if !s.enable_mtls {
                Ok(Some((ca, None, None, !s.accept_invalid_certs, s.accept_invalid_certs)))
            } else if s.cert_file is None {
                Err(TlsErrorView::Configuration("cert_file is required for client mTLS"@))
            } else if s.key_file is None {
                Err(TlsErrorView::Configuration("key_file is required for client mTLS"@))
            } else {
                match certificates_outcome(file_view(files.cert)) {
                    Err(e) => Err(e),
                    Ok(certs) => match private_key_outcome(file_view(files.key)) {
                        Err(e) => Err(e),
                        Ok(key) => Ok(
                            Some(
                                (
                                    ca,
                                    Some(certs),
                                    Some(key),
                                    !s.accept_invalid_certs,
                                    s.accept_invalid_certs,
                                ),
                            ),
                        ),
                    },
                }
            },
        }
    }
}

impl ClientTlsConfig {
    pub open spec fn view(&self) -> ClientTlsConfigView {
        (
            opt_ders_view(self.ca_certs),
            opt_ders_view(self.client_cert),
            match self.client_key {
                Some(k) => Some(k.view()),
                None => None,
            },
            self.verify_hostname,
            self.accept_invalid_certs,
        )
    }

    /// Builds the client TLS configuration of a security configuration from
    /// the contents of the files it names.
    pub fn from_security_config(security: &SecurityConfig, files: &PemFiles) -> (r: Result<
        Option<ClientTlsConfig>,
        TlsError,
    >)
        requires
            files_match(*security, *files),
        ensures
            match r {
                Ok(Some(c)) => client_tls_outcome(*security, *files) == Ok::<Option<ClientTlsConfigView>, TlsErrorView>(Some(c.view())),
                Ok(None) => client_tls_outcome(*security, *files) == Ok::<Option<ClientTlsConfigView>, TlsErrorView>(None),
                Err(e) => client_tls_outcome(*security, *files) == Err::<Option<ClientTlsConfigView>, TlsErrorView>(e.view()),
            },
    {
        if !security.enable_tls {
            return Ok(None);
        }
        let ca_certs = if security.ca_file.is_some() {
            match &files.ca {
                Some(c) => match load_certificates(c) {
                    Ok(v) => Some(v),
                    Err(e) => {
                        return Err(e);
                    },
                },
                None => None,
            }
        } else {
            None
        };
        let (client_cert, client_key) = if security.enable_mtls {
            if security.cert_file.is_none() {
                return Err(TlsError::Configuration(string_from("cert_file is required for client mTLS")));
            }
            if security.key_file.is_none() {
                return Err(TlsError::Configuration(string_from("key_file is required for client mTLS")));
            }
            let certs = match &files.cert {
                Some(c) => match load_certificates(c) {
                    Ok(v) => v,
                    Err(e) => {
                        return Err(e);
                    },
                },
                None => {
                    return Err(TlsError::Configuration(string_from("cert_file is required for client mTLS")));
                },
            };
            let key = match &files.key {
                Some(c) => match load_private_key(c) {
                    Ok(k) => k,
                    Err(e) => {
                        return Err(e);
                    },
                },
                None => {
                    return Err(TlsError::Configuration(string_from("key_file is required for client mTLS")));
                },
            };
            (Some(certs), Some(key))
        } else {
            (None, None)
        };
        Ok(
            Some(
                ClientTlsConfig {
                    ca_certs,
                    client_cert,
                    client_key,
                    verify_hostname: !security.accept_invalid_certs,
                    accept_invalid_certs: security.accept_invalid_certs,
                },
            ),
        )
    }

    /// A client configuration that accepts invalid certificates (for testing).
    pub fn insecure() -> (r: ClientTlsConfig)
        ensures
            r.ca_certs is None,
            r.client_cert is None,
            r.client_key is None,
            !r.verify_hostname,
            r.accept_invalid_certs,
    {
        ClientTlsConfig {
            ca_certs: None,
            client_cert: None,
            client_key: None,
            verify_hostname: false,
            accept_invalid_certs: true,
        }
    }

    /// How the server certificate is verified: not at all when invalid
    /// certificates are accepted, else against the configured CA certificates,
    /// or against the platform's roots when there are none.
    pub fn server_verification(&self) -> (r: ServerVerification)
        ensures
            self.accept_invalid_certs ==> r is AcceptAny,
            !self.accept_invalid_certs ==> match self.ca_certs {
                Some(ca) => r matches ServerVerification::Roots(v) && ders_view(v@) == ders_view(ca@),
                None => r is NativeRoots,
            },
    {
        if self.accept_invalid_certs {
            return ServerVerification::AcceptAny;
        }
        match &self.ca_certs {
            Some(ca) => ServerVerification::Roots(copy_ders(ca)),
            None => ServerVerification::NativeRoots,
        }
    }

    /// The client's own certificate chain and key, when it has both.
    pub fn client_identity(&self) -> (r: Option<(Vec<Vec<u8>>, PrivateKey)>)
        ensures
            match (self.client_cert, self.client_key) {
                (Some(c), Some(k)) => r matches Some((rc, rk)) && ders_view(rc@) == ders_view(c@)
                    && rk.view() == k.view(),
                _ => r is None,
            },
    {
        match (&self.client_cert, &self.client_key) {
            (Some(c), Some(k)) => Some((copy_ders(c), k.copy())),
            _ => None,
        }
    }

    /// The domain name to present for SNI: the given one when host names are
    /// verified.
    pub fn sni_domain(&self, domain: &str) -> (r: Option<String>)
        ensures
            self.verify_hostname ==> (r matches Some(d) && d@ == domain@),
            !self.verify_hostname ==> r is None,
    {
        if self.verify_hostname {
            Some(string_from(domain))
        } else {
            None
        }
    }

    /// The CA certificates as PEM text, when there are any.
    pub fn ca_pem(&self) -> (r: Option<String>)
        ensures
            match self.ca_certs {
                Some(ca) => r matches Some(p) && p@ == pem_chain(ders_view(ca@)),
                None => r is None,
            },
    {
        match &self.ca_certs {
            Some(ca) => Some(certificates_pem(ca)),
            None => None,
        }
    }

    /// The client identity as PEM text (certificate chain, private key), when
    /// it has both.
    pub fn identity_pem(&self) -> (r: Option<(String, String)>)
        ensures
            match (self.client_cert, self.client_key) {
                (Some(c), Some(k)) => r matches Some((cp, kp)) && cp@ == pem_chain(ders_view(c@))
                    && kp@ == pem_block(key_label(k.kind), k.der@),
                _ => r is None,
            },
    {
        match (&self.client_cert, &self.client_key) {
            (Some(c), Some(k)) => {
                let cert_pem = certificates_pem(c);
                match private_key_der_to_pem(k) {
                    Ok(key_pem) => Some((cert_pem, key_pem)),
                    Err(_) => None,
                }
            },
            _ => None,
        }
    }
}

} // verus!
