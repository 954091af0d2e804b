//! The certificate model and the logic over it: decoding DER bytes into the
//! fields this tool reads, extracting issuer/subject/SAN strings, detecting
//! self-signed certificates, and matching a hostname against the names a
//! certificate covers.
//!
//! The DER parsing itself is done by the `x509-parser` crate behind a small
//! set of trusted bindings; everything that is computed from the parsed
//! fields is verified here.
use vstd::prelude::*;

use x509_parser::prelude::{FromDer, GeneralName, X509Certificate};

use crate::text::{
    append_u8_dec, has_wildcard_prefix, is_substring, push_char, starts_with_wildcard,
    str_contains, u8_dec, wildcard_match, wildcard_matches,
};

verus! {

/// One entry of a Subject Alternative Name extension, reduced to the forms
/// this tool distinguishes: DNS names, URIs, raw IP address bytes, and
/// everything else.
pub enum SanName {
    Dns(String),
    Uri(String),
    Ip(Vec<u8>),
    Other,
}

/// The mathematical value of a [`SanName`].
pub enum SanNameV {
    Dns(Seq<char>),
    Uri(Seq<char>),
    Ip(Seq<u8>),
    Other,
}

impl View for SanName {
    type V = SanNameV;

    open spec fn view(&self) -> SanNameV {
        match self {
            SanName::Dns(s) => SanNameV::Dns(s@),
            SanName::Uri(s) => SanNameV::Uri(s@),
            SanName::Ip(b) => SanNameV::Ip(b@),
            SanName::Other => SanNameV::Other,
        }
    }
}

/// The fields of a decoded leaf certificate that this tool reads.
///
/// Subject and issuer attributes are kept one per entry; an attribute whose
/// value could not be decoded is `None` and is later substituted by an empty
/// string. `san_names` is `None` when the certificate has no (readable)
/// Subject Alternative Name extension, as opposed to one that is present but
/// lists no supported name forms. The validity bounds are Unix timestamps in
/// seconds.
pub struct Certificate {
    pub subject_cn_attrs: Vec<Option<String>>,
    pub issuer_org_attrs: Vec<Option<String>>,
    pub san_names: Option<Vec<SanName>>,
    pub not_before: i64,
    pub not_after: i64,
    pub subject_is_issuer: bool,
    pub self_signature_valid: bool,
}

/// The mathematical value of a [`Certificate`].
pub struct CertificateView {
    pub subject_cns: Seq<Option<Seq<char>>>,
    pub issuer_orgs: Seq<Option<Seq<char>>>,
    pub sans: Option<Seq<SanNameV>>,
    pub not_before: int,
    pub not_after: int,
    pub subject_is_issuer: bool,
    pub self_signature_valid: bool,
}

impl View for Certificate {
    type V = CertificateView;

    open spec fn view(&self) -> CertificateView {
        CertificateView {
            subject_cns: self.subject_cn_attrs.deep_view(),
            issuer_orgs: self.issuer_org_attrs.deep_view(),
            sans: match self.san_names {
                Some(v) => Some(v@.map_values(|s: SanName| s@)),
                None => None,
            },
            not_before: self.not_before as int,
            not_after: self.not_after as int,
            subject_is_issuer: self.subject_is_issuer,
            self_signature_valid: self.self_signature_valid,
        }
    }
}

// ---------------------------------------------------------------------------
// Trusted bindings to the `x509-parser` crate. Each binding re-parses the DER
// bytes and reads one field; what each read yields on given bytes is a pure
// function of the bytes and is given a name below.
// ---------------------------------------------------------------------------
/// Whether `X509Certificate::from_der` accepts the DER bytes.
pub uninterp spec fn cert_parses(der: Seq<u8>) -> bool;

/// The subject common-name attributes, each decoded by
/// `AttributeTypeAndValue::as_str` (`None` where decoding fails).
pub uninterp spec fn cert_subject_cns(der: Seq<u8>) -> Seq<Option<Seq<char>>>;

/// The issuer organization attributes, decoded likewise.
pub uninterp spec fn cert_issuer_orgs(der: Seq<u8>) -> Seq<Option<Seq<char>>>;

/// The entries of the Subject Alternative Name extension, reduced to
/// [`SanNameV`]; `None` when the extension is absent or unreadable.
pub uninterp spec fn cert_san_names(der: Seq<u8>) -> Option<Seq<SanNameV>>;

/// The notBefore bound of the validity window, as a Unix timestamp.
pub uninterp spec fn cert_not_before(der: Seq<u8>) -> int;

/// The notAfter bound of the validity window, as a Unix timestamp.
pub uninterp spec fn cert_not_after(der: Seq<u8>) -> int;

/// Whether subject and issuer distinguished names are structurally equal.
pub uninterp spec fn cert_subject_eq_issuer(der: Seq<u8>) -> bool;

/// Whether the certificate's signature verifies against its own embedded
/// public key.
pub uninterp spec fn cert_self_signature_ok(der: Seq<u8>) -> bool;

/// Relies on x509_parser's `X509Certificate::from_der`,
/// `X509Name::iter_common_name` and `AttributeTypeAndValue::as_str`: the
/// subject's common-name attributes in order, an undecodable one as `None`.
#[verifier::external_body]
fn x509_subject_cn_attrs(der: &[u8]) -> (r: Option<Vec<Option<String>>>)
    ensures
        r is Some <==> cert_parses(der@),
        r matches Some(v) ==> v.deep_view() == cert_subject_cns(der@),
{
    match X509Certificate::from_der(der) {
        Ok((_, cert)) => Some(
            cert.subject().iter_common_name().map(
                |a| a.as_str().ok().map(|s| s.to_string()),
            ).collect(),
        ),
        Err(_) => None,
    }
}

/// Relies on x509_parser's `X509Certificate::from_der`,
/// `X509Name::iter_organization` and `AttributeTypeAndValue::as_str`: the
/// issuer's organization attributes in order, an undecodable one as `None`.
#[verifier::external_body]
fn x509_issuer_org_attrs(der: &[u8]) -> (r: Option<Vec<Option<String>>>)
    ensures
        r is Some <==> cert_parses(der@),
        r matches Some(v) ==> v.deep_view() == cert_issuer_orgs(der@),
{
    match X509Certificate::from_der(der) {
        Ok((_, cert)) => Some(
            cert.issuer().iter_organization().map(
                |a| a.as_str().ok().map(|s| s.to_string()),
            ).collect(),
        ),
        Err(_) => None,
    }
}

/// Relies on x509_parser's `X509Certificate::from_der` and
/// `TbsCertificate::subject_alternative_name`: the extension's general names
/// in order, one arm per supported form; an absent or unreadable extension
/// yields `None`.
#[verifier::external_body]
fn x509_san_names(der: &[u8]) -> (r: Option<Option<Vec<SanName>>>)
    ensures
        r is Some <==> cert_parses(der@),
        r matches Some(opt) ==> (match opt {
            Some(v) => cert_san_names(der@) == Some(v@.map_values(|s: SanName| s@)),
            None => cert_san_names(der@) is None,
        }),
{
    let (_, cert) = match X509Certificate::from_der(der) {
        Ok(p) => p,
        Err(_) => return None,
    };
    Some(match cert.subject_alternative_name() {
        Ok(Some(ext)) => Some(ext.value.general_names.iter().map(|g| match g {
            GeneralName::DNSName(s) => SanName::Dns(s.to_string()),
            GeneralName::URI(s) => SanName::Uri(s.to_string()),
            GeneralName::IPAddress(b) => SanName::Ip(b.to_vec()),
            _ => SanName::Other,
        }).collect()),
        _ => None,
    })
}

/// Relies on x509_parser's `X509Certificate::from_der` and
/// `ASN1Time::timestamp` on `Validity::not_before`.
#[verifier::external_body]
fn x509_not_before(der: &[u8]) -> (r: Option<i64>)
    ensures
        r is Some <==> cert_parses(der@),
        r matches Some(t) ==> t as int == cert_not_before(der@),
{
    match X509Certificate::from_der(der) {
        Ok((_, cert)) => Some(cert.validity().not_before.timestamp()),
        Err(_) => None,
    }
}

/// Relies on x509_parser's `X509Certificate::from_der` and
/// `ASN1Time::timestamp` on `Validity::not_after`.
#[verifier::external_body]
fn x509_not_after(der: &[u8]) -> (r: Option<i64>)
    ensures
        r is Some <==> cert_parses(der@),
        r matches Some(t) ==> t as int == cert_not_after(der@),
{
    match X509Certificate::from_der(der) {
        Ok((_, cert)) => Some(cert.validity().not_after.timestamp()),
        Err(_) => None,
    }
}

/// Relies on x509_parser's `X509Certificate::from_der` and the structural
/// `PartialEq` of `X509Name`: whether subject and issuer are equal.
#[verifier::external_body]
fn x509_subject_eq_issuer(der: &[u8]) -> (r: Option<bool>)
    ensures
        r is Some <==> cert_parses(der@),
        r matches Some(b) ==> b == cert_subject_eq_issuer(der@),
{
    match X509Certificate::from_der(der) {
        Ok((_, cert)) => Some(cert.subject() == cert.issuer()),
        Err(_) => None,
    }
}

/// Relies on x509_parser's `X509Certificate::from_der` and
/// `X509Certificate::verify_signature` with the certificate's own public key:
/// whether the certificate's signature verifies against itself.
#[verifier::external_body]
fn x509_self_signature_ok(der: &[u8]) -> (r: Option<bool>)
    ensures
        r is Some <==> cert_parses(der@),
        r matches Some(b) ==> b == cert_self_signature_ok(der@),
{
    match X509Certificate::from_der(der) {
        Ok((_, cert)) => Some(cert.verify_signature(None).is_ok()),
        Err(_) => None,
    }
}

/// The model value that decoding given DER bytes yields.
pub open spec fn spec_certificate_of(der: Seq<u8>) -> CertificateView {
    CertificateView {
        subject_cns: cert_subject_cns(der),
        issuer_orgs: cert_issuer_orgs(der),
        sans: cert_san_names(der),
        not_before: cert_not_before(der),
        not_after: cert_not_after(der),
        subject_is_issuer: cert_subject_eq_issuer(der),
        self_signature_valid: cert_self_signature_ok(der),
    }
}

/// Decode DER bytes into the certificate fields this tool reads. Returns
/// `None` exactly when the bytes do not parse as a certificate.
pub fn decode_certificate(der: &[u8]) -> (r: Option<Certificate>)
    ensures
        r is Some <==> cert_parses(der@),
        r matches Some(c) ==> c@ == spec_certificate_of(der@),
{
    let subject_cn_attrs = match x509_subject_cn_attrs(der) {
        Some(v) => v,
        None => return None,
    };
    let issuer_org_attrs = match x509_issuer_org_attrs(der) {
        Some(v) => v,
        None => return None,
    };
    let san_names = match x509_san_names(der) {
        Some(v) => v,
        None => return None,
    };
    let not_before = match x509_not_before(der) {
        Some(v) => v,
        None => return None,
    };
    let not_after = match x509_not_after(der) {
        Some(v) => v,
        None => return None,
    };
    let subject_is_issuer = match x509_subject_eq_issuer(der) {
        Some(v) => v,
        None => return None,
    };
    let self_signature_valid = match x509_self_signature_ok(der) {
        Some(v) => v,
        None => return None,
    };
    let cert = Certificate {
        subject_cn_attrs,
        issuer_org_attrs,
        san_names,
        not_before,
        not_after,
        subject_is_issuer,
        self_signature_valid,
    };
    Some(cert)
}

/// A certificate counts as self-signed only when subject and issuer are
/// structurally equal and its signature verifies against its own key.
pub open spec fn spec_self_signed(c: CertificateView) -> bool {
    c.subject_is_issuer && c.self_signature_valid
}

/// Self-signed detection: structural subject/issuer equality alone is not
/// enough; the certificate's own key must also verify its signature, so a
/// certificate with identical names but a different signing key is not
/// self-signed.
pub fn is_self_signed(cert: &Certificate) -> (r: bool)
    ensures
        r == spec_self_signed(cert@),
{
    cert.subject_is_issuer && cert.self_signature_valid
}

/// The text an attribute contributes to a joined field: its decoded value,
/// or the empty string where decoding failed.
pub open spec fn attr_text(a: Option<Seq<char>>) -> Seq<char> {
    match a {
        Some(s) => s,
        None => Seq::empty(),
    }
}

/// Attribute values joined with `,`, an undecodable one as the empty string.
pub open spec fn join_attrs(attrs: Seq<Option<Seq<char>>>) -> Seq<char>
    decreases attrs.len(),
{
    if attrs.len() == 0 {
        Seq::empty()
    } else if attrs.len() == 1 {
        attr_text(attrs[0])
    } else {
        join_attrs(attrs.drop_last()) + seq![','] + attr_text(attrs.last())
    }
}

fn join_attr_strings(attrs: &Vec<Option<String>>) -> (r: String)
    ensures
        r@ == join_attrs(attrs.deep_view()),
{
    let ghost dv = attrs.deep_view();
    let mut s = String::new();
    let mut i: usize = 0;
    while i < attrs.len()
        invariant
            dv == attrs.deep_view(),
            dv.len() == attrs@.len(),
            i <= attrs@.len(),
            s@ == join_attrs(dv.take(i as int)),
        decreases attrs@.len() - i,
    {
        if i > 0 {
            proof {
                reveal_strlit(",");
            }
            s.append(",");
        }
        match &attrs[i] {
            Some(t) => s.append(t.as_str()),
            None => (),
        }
        proof {
            assert(dv.take(i + 1).drop_last() =~= dv.take(i as int));
            assert(dv.take(i + 1).last() == dv[i as int]);
            assert(s@ =~= join_attrs(dv.take(i + 1)));
        }
        i += 1;
    }
    proof {
        assert(dv.take(attrs@.len() as int) =~= dv);
    }
    s
}

/// The subject common names, comma-joined; an attribute whose value could
/// not be decoded contributes an empty string without aborting extraction.
pub fn extract_subject_common_name(cert: &Certificate) -> (r: String)
    ensures
        r@ == join_attrs(cert@.subject_cns),
{
    join_attr_strings(&cert.subject_cn_attrs)
}

/// The issuer organization names, comma-joined; an attribute whose value
/// could not be decoded contributes an empty string without aborting
/// extraction.
pub fn extract_issuer(cert: &Certificate) -> (r: String)
    ensures
        r@ == join_attrs(cert@.issuer_orgs),
{
    join_attr_strings(&cert.issuer_org_attrs)
}

/// The dotted-quad rendering of four IPv4 octets.
pub open spec fn ipv4_text(b: Seq<u8>) -> Seq<char> {
    u8_dec(b[0]) + seq!['.'] + u8_dec(b[1]) + seq!['.'] + u8_dec(b[2]) + seq!['.'] + u8_dec(b[3])
}

fn ipv4_string(b: &Vec<u8>) -> (r: String)
    requires
        b@.len() == 4,
    ensures
        r@ == ipv4_text(b@),
{
    let mut s = String::new();
    append_u8_dec(&mut s, b[0]);
    push_char(&mut s, '.');
    append_u8_dec(&mut s, b[1]);
    push_char(&mut s, '.');
    append_u8_dec(&mut s, b[2]);
    push_char(&mut s, '.');
    append_u8_dec(&mut s, b[3]);
    proof {
        assert(s@ =~= ipv4_text(b@));
    }
    s
}

/// The string a SAN entry contributes to the extracted list: DNS names and
/// URIs as they stand, an IP address only when it has exactly four octets
/// (rendered dotted-quad), anything else dropped.
pub open spec fn san_text(e: SanNameV) -> Option<Seq<char>> {
    match e {
        SanNameV::Dns(s) => Some(s),
        SanNameV::Uri(s) => Some(s),
        SanNameV::Ip(b) => if b.len() == 4 {
            Some(ipv4_text(b))
        } else {
            None
        },
        SanNameV::Other => None,
    }
}

/// The strings extracted from a SAN extension's entries, in order, with
/// unsupported entries dropped.
pub open spec fn san_strings(entries: Seq<SanNameV>) -> Seq<Seq<char>>
    decreases entries.len(),
{
    if entries.len() == 0 {
        Seq::empty()
    } else {
        let rest = san_strings(entries.drop_last());
        match san_text(entries.last()) {
            Some(t) => rest.push(t),
            None => rest,
        }
    }
}

/// Extract the SAN strings. `None` exactly when the certificate has no
/// (readable) SAN extension; a present extension with only unsupported name
/// forms yields `Some` of an empty list.
pub fn extract_sans(cert: &Certificate) -> (r: Option<Vec<String>>)
    ensures
        match cert@.sans {
            Some(es) => r matches Some(v) && v.deep_view() == san_strings(es),
            None => r is None,
        },
{
    let names = match &cert.san_names {
        Some(names) => names,
        None => {
            return None;
        },
    };
    let ghost entries = names@.map_values(|s: SanName| s@);
    let mut out: Vec<String> = Vec::new();
    let mut i: usize = 0;
    while i < names.len()
        invariant
            entries == names@.map_values(|s: SanName| s@),
            entries.len() == names@.len(),
            i <= names@.len(),
            out.deep_view() == san_strings(entries.take(i as int)),
        decreases names@.len() - i,
    {
        match &names[i] {
            SanName::Dns(s) => out.push(s.clone()),
            SanName::Uri(s) => out.push(s.clone()),
            SanName::Ip(b) => {
                if b.len() == 4 {
                    let t = ipv4_string(b);
                    out.push(t);
                }
            },
            SanName::Other => (),
        }
        proof {
            assert(entries.take(i + 1).drop_last() =~= entries.take(i as int));
            assert(entries.take(i + 1).last() == entries[i as int]);
            assert(entries[i as int] == names@[i as int]@);
            assert(out.deep_view() =~= san_strings(entries.take(i + 1)));
        }
        i += 1;
    }
    proof {
        assert(entries.take(names@.len() as int) =~= entries);
    }
    Some(out)
}

/// The SAN string lists of a certificate's view, `None` kept as `None`.
pub open spec fn spec_sans_of(sans: Option<Seq<SanNameV>>) -> Option<Seq<Seq<char>>> {
    match sans {
        Some(es) => Some(san_strings(es)),
        None => None,
    }
}

/// One SAN string matches the hostname if the hostname occurs inside it, or
/// if it is a wildcard entry whose one-level suffix rule accepts the
/// hostname.
pub open spec fn san_entry_matches(san: Seq<char>, name: Seq<char>) -> bool {
    ||| is_substring(san, name)
    ||| (has_wildcard_prefix(san) && wildcard_matches(name, san))
}

/// Some string of the extracted SAN list accepts the hostname.
pub open spec fn sans_match(sans: Option<Seq<Seq<char>>>, name: Seq<char>) -> bool {
    match sans {
        Some(list) => exists|k: int|
            0 <= k < list.len() && san_entry_matches(#[trigger] list[k], name),
        None => false,
    }
}

/// Whether the hostname is covered: it occurs inside the joined subject
/// common name, or some extracted SAN string accepts it.
pub open spec fn name_matches(subject: Seq<char>, sans: Option<Seq<Seq<char>>>, name: Seq<char>) -> bool {
    ||| is_substring(subject, name)
    ||| sans_match(sans, name)
}

/// A SAN string that accepts the hostname is a witness that the extracted
/// list matches it.
proof fn lemma_sans_witness(sans: Option<Seq<SanNameV>>, lv: Seq<Seq<char>>, k: int, name: Seq<char>)
    requires
        spec_sans_of(sans) == Some(lv),
        0 <= k < lv.len(),
        san_entry_matches(lv[k], name),
    ensures
        sans_match(spec_sans_of(sans), name),
{
    let list = spec_sans_of(sans)->0;
    assert(list == lv);
    assert(0 <= k < list.len() && san_entry_matches(list[k], name));
}

/// Does the certificate cover `name`? The subject common name is consulted
/// first, then each SAN string, by containment, with the one-level wildcard
/// rule for SAN entries that begin `*.`.
pub fn valid_name(cert: &Certificate, name: &str) -> (r: bool)
    ensures
        r == name_matches(join_attrs(cert@.subject_cns), spec_sans_of(cert@.sans), name@),
{
    let subject = extract_subject_common_name(cert);
    if str_contains(subject.as_str(), name) {
        return true;
    }
    let sans = extract_sans(cert);
    match sans {
        Some(list) => {
            let ghost lv = list.deep_view();
            let mut k: usize = 0;
            while k < list.len()
                invariant
                    lv == list.deep_view(),
                    lv.len() == list@.len(),
                    k <= list@.len(),
                    spec_sans_of(cert@.sans) == Some(lv),
                    forall|j: int| 0 <= j < k ==> !san_entry_matches(#[trigger] lv[j], name@),
                decreases list@.len() - k,
            {
                let san = &list[k];
                assert(san@ == lv[k as int]);
                if str_contains(san.as_str(), name) {
                    proof {
                        lemma_sans_witness(cert@.sans, lv, k as int, name@);
                    }
                    return true;
                }
                if starts_with_wildcard(san.as_str()) {
                    if wildcard_match(name, san.as_str()) {
                        proof {
                            lemma_sans_witness(cert@.sans, lv, k as int, name@);
                        }
                        return true;
                    }
                }
                k += 1;
            }
            false
        },
        None => false,
    }
}

} // verus!
