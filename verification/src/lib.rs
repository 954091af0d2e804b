//! Checks the TLS leaf certificate of HTTPS endpoints: field extraction,
//! hostname matching (including one-level wildcards), self-signed detection,
//! and expiry-threshold classification into a tri-state status.
//!
//! The network retrieval itself lives outside this library; callers hand in
//! either the DER bytes of the retrieved certificate or the failure they ran
//! into, and receive a per-URL outcome.
pub mod certs;
pub mod config;
pub mod errors;
pub mod text;

use vstd::prelude::*;

use crate::certs::{
    cert_parses, decode_certificate, extract_issuer, extract_sans, extract_subject_common_name,
    is_self_signed, join_attrs, name_matches, san_strings, spec_certificate_of, spec_sans_of,
    spec_self_signed, valid_name, Certificate, CertificateView,
};
use crate::errors::SslCheckError;

verus! {

/// Tri-state freshness classification of a certificate's remaining lifetime.
#[derive(Debug, Clone, PartialEq, Eq, Structural)]
pub enum DaysRemainingState {
    Fine,
    Warning,
    Error,
}

/// How many whole days remain before `not_after`, with expired (or already
/// past) certificates pinned to zero.
pub open spec fn spec_days_remaining(now: int, not_after: int) -> int {
    if now < not_after {
        (not_after - now) / 86400
    } else {
        0
    }
}

/// The freshness classification is a pure function of the days remaining and
/// the two thresholds: strictly below the error threshold is `Error`, else
/// strictly below the warning threshold is `Warning`, else `Fine`.
pub open spec fn spec_freshness(days_remaining: int, warning_days: int, error_days: int) -> DaysRemainingState {
    if days_remaining < error_days {
        DaysRemainingState::Error
    } else if days_remaining < warning_days {
        DaysRemainingState::Warning
    } else {
        DaysRemainingState::Fine
    }
}

/// Classify a days-remaining count against the configured thresholds.
pub fn classify_days_remaining(days_remaining: i64, warning_days: i64, error_days: i64) -> (r: DaysRemainingState)
    ensures
        r == spec_freshness(days_remaining as int, warning_days as int, error_days as int),
{
    if days_remaining < error_days {
        DaysRemainingState::Error
    } else if days_remaining < warning_days {
        DaysRemainingState::Warning
    } else {
        DaysRemainingState::Fine
    }
}

/// Law: at the boundaries the comparisons are strict. A certificate with
/// exactly `error_days` whole days left is classified `Warning`, not `Error`,
/// and one with exactly `warning_days` left is classified `Fine`, not
/// `Warning`. (The warning threshold must lie strictly above the error
/// threshold for the `Warning` band to be non-empty.)
pub proof fn lemma_freshness_boundary(warning_days: int, error_days: int)
    requires
        error_days < warning_days,
    ensures
        spec_freshness(error_days, warning_days, error_days) is Warning,
        spec_freshness(warning_days, warning_days, error_days) is Fine,
{
}

// ---------------------------------------------------------------------------
// Trusted binding to the `url` crate. What parsing yields on a given string
// is a pure function of the string and is given a name.
// ---------------------------------------------------------------------------
/// Whether `Url::parse` accepts the string.
pub uninterp spec fn url_parse_ok(s: Seq<char>) -> bool;

/// The domain component `Url::domain` reports for a string that parses.
pub uninterp spec fn url_domain(s: Seq<char>) -> Option<Seq<char>>;

/// Relies on the url crate's `Url::parse` and `Url::domain`: whether the
/// string parses as a URL, and its domain component when the host is a
/// domain name. On failure the parse error's rendering is the detail.
#[verifier::external_body]
fn parse_url_domain(s: &str) -> (r: Result<Option<String>, String>)
    ensures
        r is Ok <==> url_parse_ok(s@),
        r matches Ok(d) ==> (match d {
            Some(h) => url_domain(s@) == Some(h@),
            None => url_domain(s@) is None,
        }),
{
    match url::Url::parse(s) {
        Ok(u) => Ok(u.domain().map(|d| d.to_string())),
        Err(e) => Err(format!("{}", e)),
    }
}

/// The hostname a URL string offers for comparison: its domain component,
/// and `None` when the string does not parse or has no domain.
pub open spec fn spec_url_host(s: Seq<char>) -> Option<Seq<char>> {
    if url_parse_ok(s) {
        url_domain(s)
    } else {
        None
    }
}

/// Whole days until `not_after`, zero when already expired.
pub fn days_remaining_until(now: i64, not_after: i64) -> (r: i64)
    ensures
        r as int == spec_days_remaining(now as int, not_after as int),
        r >= 0,
{
    if now < not_after {
        let diff: i128 = (not_after as i128) - (now as i128);
        let diff_u64: u64 = diff as u64;
        assert(diff_u64 as int == not_after - now);
        let days: u64 = diff_u64 / 86400;
        assert(days as int == (not_after - now) / 86400) by {
            assert(diff_u64 as int / 86400 as int == (not_after - now) / 86400);
        }
        days as i64
    } else {
        0
    }
}

/// The certificate's declared validity window contains the evaluation time.
pub open spec fn spec_window_valid(c: CertificateView, now: int) -> bool {
    c.not_before <= now <= c.not_after
}

/// The overall verdict on a certificate: the validity window holds, the
/// certificate is not self-signed, and the URL offers a hostname that the
/// certificate's names cover. Failing any one of the three forces the
/// verdict false.
pub open spec fn spec_cert_valid(c: CertificateView, host: Option<Seq<char>>, now: int) -> bool {
    &&& spec_window_valid(c, now)
    &&& !spec_self_signed(c)
    &&& host matches Some(h)
    &&& name_matches(join_attrs(c.subject_cns), spec_sans_of(c.sans), h)
}

/// Law: once any of the three checks (expiry window, self-signed detection,
/// name matching) fails, the verdict is invalid; nothing can upgrade it back.
pub proof fn lemma_validity_never_upgraded(c: CertificateView, host: Option<Seq<char>>, now: int)
    ensures
        !spec_window_valid(c, now) ==> !spec_cert_valid(c, host, now),
        spec_self_signed(c) ==> !spec_cert_valid(c, host, now),
        host is None ==> !spec_cert_valid(c, host, now),
        (host matches Some(h) && !name_matches(join_attrs(c.subject_cns), spec_sans_of(c.sans), h))
            ==> !spec_cert_valid(c, host, now),
{
}

/// The verdict on one successfully retrieved and decoded certificate.
#[derive(Debug, Clone)]
pub struct CertCheckResult {
    pub issuer: String,
    pub subject: String,
    pub sans: Option<Vec<String>>,
    pub is_valid: bool,
    pub days_remaining: i64,
    pub days_remaining_state: DaysRemainingState,
}

/// What a correct verdict for certificate `c`, hostname `host` and
/// evaluation time `now` under the given thresholds looks like.
pub open spec fn verdict_matches(
    r: CertCheckResult,
    c: CertificateView,
    host: Option<Seq<char>>,
    now: int,
    warning_days: int,
    error_days: int,
) -> bool {
    &&& r.issuer@ == join_attrs(c.issuer_orgs)
    &&& r.subject@ == join_attrs(c.subject_cns)
    &&& (match c.sans {
        Some(es) => r.sans matches Some(v) && v.deep_view() == san_strings(es),
        None => r.sans is None,
    })
    &&& r.days_remaining as int == spec_days_remaining(now, c.not_after)
    &&& r.days_remaining_state == spec_freshness(
        r.days_remaining as int,
        warning_days,
        error_days,
    )
    &&& r.is_valid == spec_cert_valid(c, host, now)
}

impl CertCheckResult {
    /// A verdict from already-known parts, with no SAN list.
    pub fn new(
        issuer: String,
        subject: String,
        is_valid: bool,
        days_remaining: i64,
        days_remaining_state: DaysRemainingState,
    ) -> (r: Self)
        ensures
            r.issuer == issuer,
            r.subject == subject,
            r.sans is None,
            r.is_valid == is_valid,
            r.days_remaining == days_remaining,
            r.days_remaining_state == days_remaining_state,
    {
        Self { issuer, subject, sans: None, is_valid, days_remaining, days_remaining_state }
    }

    /// Evaluate a decoded certificate against the URL it was retrieved for.
    ///
    /// The verdict starts from the declared validity window, is forced
    /// invalid by self-signedness, by a URL without a domain component, or
    /// by a hostname no certificate name covers, and carries the
    /// days-remaining count with its threshold classification.
    pub fn from_x509_certificate(
        certificate_url: &str,
        warning_days: i64,
        error_days: i64,
        cert: &Certificate,
        now: i64,
    ) -> (r: Self)
        ensures
            verdict_matches(
                r,
                cert@,
                spec_url_host(certificate_url@),
                now as int,
                warning_days as int,
                error_days as int,
            ),
    {
        let mut is_valid = cert.not_before <= now && now <= cert.not_after;

        let issuer = extract_issuer(cert);
        let sans = extract_sans(cert);

        let subject = extract_subject_common_name(cert);
        let days_remaining = days_remaining_until(now, cert.not_after);

        if is_self_signed(cert) {
            is_valid = false;
        }

        match parse_url_domain(certificate_url) {
            Ok(Some(domain)) => {
                if !valid_name(cert, domain.as_str()) {
                    is_valid = false;
                }
            },
            Ok(None) => {
                is_valid = false;
            },
            Err(_) => {
                is_valid = false;
            },
        }

        let days_remaining_state = classify_days_remaining(days_remaining, warning_days, error_days);

        Self { issuer, subject, sans, is_valid, days_remaining, days_remaining_state }
    }
}

/// The outcome of one URL's check: the URL as given, and either a verdict or
/// the error that ended the check.
#[derive(Debug)]
pub struct SslCheck {
    pub url: String,
    pub result: Result<CertCheckResult, SslCheckError>,
}

/// What the retrieval step outside this library came back with for one URL:
/// a transport failure, a handshake that surfaced no peer certificate, or
/// the DER bytes of the peer certificate.
#[derive(Debug)]
pub enum FetchEvent {
    NetworkFailed(String),
    NoPeerCertificate,
    PeerCertificate(Vec<u8>),
}

/// Decide whether a URL string is well-formed enough to be checked. Returns
/// the finished failure outcome for a malformed URL, on which no retrieval
/// is to be attempted, and `None` when retrieval should proceed.
pub fn check_url_syntax(url_str: &str) -> (r: Option<SslCheck>)
    ensures
        r is Some <==> !url_parse_ok(url_str@),
        r matches Some(c) ==> c.url@ == url_str@ && (c.result matches Err(
            SslCheckError::UrlParseError(u, _),
        ) && u@ == url_str@),
{
    match parse_url_domain(url_str) {
        Ok(_) => None,
        Err(detail) => Some(
            SslCheck {
                url: url_str.to_owned(),
                result: Err(SslCheckError::UrlParseError(url_str.to_owned(), detail)),
            },
        ),
    }
}

/// Turn what the retrieval step came back with into the URL's outcome: a
/// transport failure becomes `NetworkError`, a missing or undecodable peer
/// certificate becomes `NoCertificatesFound`, and DER bytes that decode are
/// evaluated into a verdict.
pub fn finish_check(
    url_str: &str,
    event: FetchEvent,
    now: i64,
    warning_days: i64,
    error_days: i64,
) -> (r: SslCheck)
    ensures
        r.url@ == url_str@,
        (match event {
            FetchEvent::NetworkFailed(d) => r.result matches Err(
                SslCheckError::NetworkError(m),
            ) && m@ == d@,
            FetchEvent::NoPeerCertificate => r.result matches Err(
                SslCheckError::NoCertificatesFound(u),
            ) && u@ == url_str@,
            FetchEvent::PeerCertificate(der) => if cert_parses(der@) {
                r.result matches Ok(v) && verdict_matches(
                    v,
                    spec_certificate_of(der@),
                    spec_url_host(url_str@),
                    now as int,
                    warning_days as int,
                    error_days as int,
                )
            } else {
                r.result matches Err(SslCheckError::NoCertificatesFound(u)) && u@ == url_str@
            },
        }),
{
    match event {
        FetchEvent::NetworkFailed(detail) => SslCheck {
            url: url_str.to_owned(),
            result: Err(SslCheckError::NetworkError(detail)),
        },
        FetchEvent::NoPeerCertificate => SslCheck {
            url: url_str.to_owned(),
            result: Err(SslCheckError::NoCertificatesFound(url_str.to_owned())),
        },
        FetchEvent::PeerCertificate(der) => match decode_certificate(der.as_slice()) {
            Some(cert) => SslCheck {
                url: url_str.to_owned(),
                result: Ok(
                    CertCheckResult::from_x509_certificate(
                        url_str,
                        warning_days,
                        error_days,
                        &cert,
                        now,
                    ),
                ),
            },
            None => SslCheck {
                url: url_str.to_owned(),
                result: Err(SslCheckError::NoCertificatesFound(url_str.to_owned())),
            },
        },
    }
}

} // verus!
