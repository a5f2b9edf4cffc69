//! The certificate authority: a root that is loaded from stored PEM text or
//! generated afresh, and leaf certificates issued per host and signed by it.
//!
//! What a certificate says is decided here as a `CertProfile` of plain values;
//! rcgen turns a profile into parameters, keys and signatures.

use vstd::prelude::*;
use vstd::string::StringExecFns;
use vstd::utf8::is_ascii_chars;

use rcgen::{Certificate, CertificateParams, KeyPair};

verus! {

#[verifier::external_type_specification]
#[verifier::external_body]
pub struct ExKeyPair(rcgen::KeyPair);

#[verifier::external_type_specification]
#[verifier::external_body]
pub struct ExCertificate(rcgen::Certificate);

#[verifier::external_type_specification]
#[verifier::external_body]
pub struct ExCertificateParams(rcgen::CertificateParams);

#[verifier::external_type_specification]
#[verifier::external_body]
pub struct ExRcgenError(rcgen::Error);

#[verifier::external_type_specification]
#[verifier::external_body]
pub struct ExComponentRange(time::error::ComponentRange);

/// Ten years, in seconds: how long every certificate here is valid.
pub const VALIDITY_SECS: i64 = 3650 * 24 * 60 * 60;

/// The first second of year 0, in seconds since the Unix epoch: the earliest
/// date a certificate can hold (a `GeneralizedTime` year has four digits).
pub const EARLIEST_DATE: i64 = -62_167_219_200;

/// The last second of year 9999, in seconds since the Unix epoch: the latest
/// date a certificate can hold.
pub const LATEST_DATE: i64 = 253_402_300_799;

/// Whether a certificate can hold the date `t` (seconds since the Unix epoch).
pub open spec fn writable_date(t: int) -> bool {
    EARLIEST_DATE <= t <= LATEST_DATE
}

/// Whether a certificate may sign others.
#[derive(Debug, Clone, Copy, PartialEq, Eq, Structural)]
pub enum CertRole {
    Authority,
    EndEntity,
}

#[derive(Debug, Clone, Copy, PartialEq, Eq, Structural)]
pub enum KeyUsage {
    DigitalSignature,
    KeyEncipherment,
    KeyCertSign,
    CrlSign,
}

#[derive(Debug, Clone, Copy, PartialEq, Eq, Structural)]
pub enum ExtendedKeyUsage {
    ServerAuth,
    ClientAuth,
}

/// An attribute of a subject's distinguished name.
#[derive(Debug, Clone, Copy, PartialEq, Eq, Structural)]
pub enum NameField {
    CommonName,
    OrganizationName,
    CountryName,
}

/// Why a certificate could not be had.
#[derive(Debug, Clone, Copy, PartialEq, Eq, Structural)]
pub enum CertError {
    /// No key pair could be generated.
    KeyGeneration,
    /// A subject alternative name was refused.
    Names,
    /// The validity window lies outside the representable dates.
    Validity,
    /// Signing the certificate failed.
    Signing,
    /// The stored certificate could not be parsed.
    StoredCertificate,
    /// The stored private key could not be parsed.
    StoredKey,
}

/// What a certificate states about its subject and its use.
#[derive(Debug, Clone)]
pub struct CertProfile {
    pub subject_alt_names: Vec<String>,
    pub subject: Vec<(NameField, String)>,
    pub role: CertRole,
    pub key_usages: Vec<KeyUsage>,
    pub extended_key_usages: Vec<ExtendedKeyUsage>,
    /// Start of validity, in seconds since the Unix epoch.
    pub not_before: i64,
    /// End of validity, in seconds since the Unix epoch.
    pub not_after: i64,
    pub authority_key_identifier: bool,
}

pub struct ProfileView {
    pub subject_alt_names: Seq<Seq<char>>,
    pub subject: Seq<(NameField, Seq<char>)>,
    pub role: CertRole,
    pub key_usages: Seq<KeyUsage>,
    pub extended_key_usages: Seq<ExtendedKeyUsage>,
    pub not_before: int,
    pub not_after: int,
    pub authority_key_identifier: bool,
}

impl View for CertProfile {
    type V = ProfileView;

    open spec fn view(&self) -> ProfileView {
        ProfileView {
            subject_alt_names: self.subject_alt_names@.map_values(|s: String| s@),
            subject: self.subject@.map_values(|e: (NameField, String)| (e.0, e.1@)),
            role: self.role,
            key_usages: self.key_usages@,
            extended_key_usages: self.extended_key_usages@,
            not_before: self.not_before as int,
            not_after: self.not_after as int,
            authority_key_identifier: self.authority_key_identifier,
        }
    }
}

pub open spec fn ca_name() -> Seq<char> {
    seq!['G', 'T', ' ', 'T', 'R', 'A', 'V', ' ', 'C', 'A']
}

pub open spec fn server_organization() -> Seq<char> {
    seq!['G', 'T', ' ', 'T', 'R', 'A', 'V', ' ', 'S', 'e', 'r', 'v', 'e', 'r']
}

pub open spec fn country() -> Seq<char> {
    seq!['C', 'N']
}

/// The root's profile when generated at `now`: a CA that signs certificates
/// and revocation lists, named `GT TRAV CA`, valid for ten years from `now`.
pub open spec fn ca_profile_spec(now: int) -> ProfileView {
    ProfileView {
        subject_alt_names: seq![ca_name()],
        subject: seq![
            (NameField::OrganizationName, ca_name()),
            (NameField::CommonName, ca_name()),
            (NameField::CountryName, country()),
        ],
        role: CertRole::Authority,
        key_usages: seq![KeyUsage::KeyCertSign, KeyUsage::CrlSign],
        extended_key_usages: Seq::empty(),
        not_before: now,
        not_after: now + VALIDITY_SECS,
        authority_key_identifier: false,
    }
}

/// The profile of a leaf for `host` issued at `now`: the host is its only
/// alternative name and its common name; it is no CA; it serves and
/// authenticates TLS; it names its issuer's key; ten years of validity.
pub open spec fn leaf_profile_spec(host: Seq<char>, now: int) -> ProfileView {
    ProfileView {
        subject_alt_names: seq![host],
        subject: seq![
            (NameField::CommonName, host),
            (NameField::OrganizationName, server_organization()),
            (NameField::CountryName, country()),
        ],
        role: CertRole::EndEntity,
        key_usages: seq![KeyUsage::DigitalSignature, KeyUsage::KeyEncipherment],
        extended_key_usages: seq![ExtendedKeyUsage::ServerAuth, ExtendedKeyUsage::ClientAuth],
        not_before: now,
        not_after: now + VALIDITY_SECS,
        authority_key_identifier: true,
    }
}

fn ca_name_string() -> (r: String)
    ensures
        r@ == ca_name(),
{
    proof { reveal_strlit("GT TRAV CA"); }
    String::from_str("GT TRAV CA")
}

fn server_organization_string() -> (r: String)
    ensures
        r@ == server_organization(),
{
    proof { reveal_strlit("GT TRAV Server"); }
    String::from_str("GT TRAV Server")
}

fn country_string() -> (r: String)
    ensures
        r@ == country(),
{
    proof { reveal_strlit("CN"); }
    String::from_str("CN")
}

/// The root's profile when generated at `now`; `None` where its validity
/// would not lie within the years 0 to 9999.
pub fn ca_profile(now: i64) -> (r: Option<CertProfile>)
    ensures
        r is Some <==> writable_date(now as int) && now + VALIDITY_SECS <= LATEST_DATE,
        r matches Some(p) ==> p@ == ca_profile_spec(now as int),
{
    if now < EARLIEST_DATE || now > LATEST_DATE - VALIDITY_SECS {
        return None;
    }
    let p = CertProfile {
        subject_alt_names: vec![ca_name_string()],
        subject: vec![
            (NameField::OrganizationName, ca_name_string()),
            (NameField::CommonName, ca_name_string()),
            (NameField::CountryName, country_string()),
        ],
        role: CertRole::Authority,
        key_usages: vec![KeyUsage::KeyCertSign, KeyUsage::CrlSign],
        extended_key_usages: Vec::new(),
        not_before: now,
        not_after: now + VALIDITY_SECS,
        authority_key_identifier: false,
    };
    assert(p@.subject_alt_names =~= ca_profile_spec(now as int).subject_alt_names);
    assert(p@.subject =~= ca_profile_spec(now as int).subject);
    assert(p@.key_usages =~= ca_profile_spec(now as int).key_usages);
    assert(p@.extended_key_usages =~= ca_profile_spec(now as int).extended_key_usages);
    Some(p)
}

/// The profile of a leaf for `host` issued at `now`; `None` where its
/// validity would not lie within the years 0 to 9999.
pub fn leaf_profile(host: &str, now: i64) -> (r: Option<CertProfile>)
    ensures
        r is Some <==> writable_date(now as int) && now + VALIDITY_SECS <= LATEST_DATE,
        r matches Some(p) ==> p@ == leaf_profile_spec(host@, now as int),
{
    if now < EARLIEST_DATE || now > LATEST_DATE - VALIDITY_SECS {
        return None;
    }
    let p = CertProfile {
        subject_alt_names: vec![String::from_str(host)],
        subject: vec![
            (NameField::CommonName, String::from_str(host)),
            (NameField::OrganizationName, server_organization_string()),
            (NameField::CountryName, country_string()),
        ],
        role: CertRole::EndEntity,
        key_usages: vec![KeyUsage::DigitalSignature, KeyUsage::KeyEncipherment],
        extended_key_usages: vec![ExtendedKeyUsage::ServerAuth, ExtendedKeyUsage::ClientAuth],
        not_before: now,
        not_after: now + VALIDITY_SECS,
        authority_key_identifier: true,
    };
    assert(p@.subject_alt_names =~= leaf_profile_spec(host@, now as int).subject_alt_names);
    assert(p@.subject =~= leaf_profile_spec(host@, now as int).subject);
    assert(p@.key_usages =~= leaf_profile_spec(host@, now as int).key_usages);
    assert(p@.extended_key_usages =~= leaf_profile_spec(host@, now as int).extended_key_usages);
    Some(p)
}

/// Relies on `time::OffsetDateTime::now_utc`: the current time, in seconds
/// since the Unix epoch. Nothing is known of its value.
#[verifier::external_body]
pub(crate) fn unix_now() -> (r: i64) {
    time::OffsetDateTime::now_utc().unix_timestamp()
}

/// Relies on `rcgen::KeyPair::generate_for`: a fresh random ECDSA P-256 key pair.
#[verifier::external_body]
fn generate_key_pair() -> (r: Result<SigningKey, rcgen::Error>) {
    let inner = KeyPair::generate_for(&rcgen::PKCS_ECDSA_P256_SHA256)?;
    Ok(SigningKey { inner, public: Ghost(arbitrary()) })
}

/// The subject's attribute types are pairwise distinct.
pub open spec fn distinct_fields(subject: Seq<(NameField, Seq<char>)>) -> bool {
    forall|i: int, j: int|
        0 <= i < j < subject.len() ==> #[trigger] subject[i].0 != #[trigger] subject[j].0
}

/// Whether no attribute of `subject` has type `field`.
pub open spec fn field_absent(subject: Seq<(NameField, Seq<char>)>, field: NameField) -> bool {
    forall|i: int| 0 <= i < subject.len() ==> #[trigger] subject[i].0 != field
}

/// rcgen certificate parameters, with what they state so far.
pub struct Params {
    inner: CertificateParams,
    model: Ghost<ProfileView>,
}

impl Params {
    pub closed spec fn model(&self) -> ProfileView {
        self.model@
    }
}

/// A key pair, with its public key.
pub struct SigningKey {
    inner: KeyPair,
    public: Ghost<Seq<u8>>,
}

impl SigningKey {
    /// The public key, as a DER `SubjectPublicKeyInfo`.
    pub closed spec fn public_key(&self) -> Seq<u8> {
        self.public@
    }

    /// The rcgen key pair itself.
    pub fn key_pair(&self) -> &KeyPair {
        &self.inner
    }
}

/// A certificate signed by rcgen, with what it states, who issued it, and
/// which keys it names and was signed with.
pub struct SignedCert {
    inner: Certificate,
    model: Ghost<ProfileView>,
    issuer: Ghost<Seq<(NameField, Seq<char>)>>,
    subject_key: Ghost<Seq<u8>>,
    signer: Ghost<Seq<u8>>,
    key_identifier: Ghost<Seq<u8>>,
    authority_key_id: Ghost<Option<Seq<u8>>>,
    pem: Ghost<Seq<char>>,
}

impl SignedCert {
    /// What the certificate states of its subject and its use.
    pub closed spec fn model(&self) -> ProfileView {
        self.model@
    }

    /// The issuer's distinguished name, as written into the certificate.
    pub closed spec fn issuer(&self) -> Seq<(NameField, Seq<char>)> {
        self.issuer@
    }

    /// The public key the certificate certifies.
    pub closed spec fn subject_key(&self) -> Seq<u8> {
        self.subject_key@
    }

    /// The public key of the key pair that signed the certificate.
    pub closed spec fn signer(&self) -> Seq<u8> {
        self.signer@
    }

    /// The identifier of the certified key (`Certificate::key_identifier`),
    /// which certificates it issues name as their authority key.
    pub closed spec fn key_identifier(&self) -> Seq<u8> {
        self.key_identifier@
    }

    /// The authority key identifier written into the certificate, if any.
    pub closed spec fn authority_key_id(&self) -> Option<Seq<u8>> {
        self.authority_key_id@
    }

    /// The certificate's PEM text.
    pub closed spec fn pem_text(&self) -> Seq<char> {
        self.pem@
    }

    /// The rcgen certificate itself.
    pub fn certificate(&self) -> &Certificate {
        &self.inner
    }
}

/// Relies on `rcgen::CertificateParams::new`: default parameters (no key
/// usages, no extended usages, no authority key identifier) with these
/// subject alternative names. Each name that is no IP address must be an
/// `Ia5String`, which accepts exactly ASCII text; an IP address is ASCII too.
#[verifier::external_body]
fn params_with_names(names: Vec<String>) -> (r: Result<Params, rcgen::Error>)
    ensures
        r is Ok <==> (forall|i: int|
            0 <= i < names@.len() ==> is_ascii_chars(#[trigger] names@[i]@)),
        r matches Ok(p) ==> {
            &&& p.model().subject_alt_names == names@.map_values(|s: String| s@)
            &&& p.model().key_usages == Seq::<KeyUsage>::empty()
            &&& p.model().extended_key_usages == Seq::<ExtendedKeyUsage>::empty()
            &&& !p.model().authority_key_identifier
        },
{
    Ok(Params { inner: CertificateParams::new(names)?, model: Ghost(arbitrary()) })
}

/// Relies on the public field `CertificateParams::is_ca`.
#[verifier::external_body]
fn set_role(params: &mut Params, role: CertRole)
    ensures
        final(params).model() == (ProfileView { role, ..old(params).model() }),
{
    params.inner.is_ca = match role {
        CertRole::Authority => rcgen::IsCa::Ca(rcgen::BasicConstraints::Unconstrained),
        CertRole::EndEntity => rcgen::IsCa::ExplicitNoCa,
    };
}

/// Relies on the public field `CertificateParams::key_usages`.
#[verifier::external_body]
fn add_key_usage(params: &mut Params, usage: KeyUsage)
    ensures
        final(params).model() == (ProfileView {
            key_usages: old(params).model().key_usages.push(usage),
            ..old(params).model()
        }),
{
    params.inner.key_usages.push(
        match usage {
            KeyUsage::DigitalSignature => rcgen::KeyUsagePurpose::DigitalSignature,
            KeyUsage::KeyEncipherment => rcgen::KeyUsagePurpose::KeyEncipherment,
            KeyUsage::KeyCertSign => rcgen::KeyUsagePurpose::KeyCertSign,
            KeyUsage::CrlSign => rcgen::KeyUsagePurpose::CrlSign,
        },
    );
}

/// Relies on the public field `CertificateParams::extended_key_usages`.
#[verifier::external_body]
fn add_extended_key_usage(params: &mut Params, usage: ExtendedKeyUsage)
    ensures
        final(params).model() == (ProfileView {
            extended_key_usages: old(params).model().extended_key_usages.push(usage),
            ..old(params).model()
        }),
{
    params.inner.extended_key_usages.push(
        match usage {
            ExtendedKeyUsage::ServerAuth => rcgen::ExtendedKeyUsagePurpose::ServerAuth,
            ExtendedKeyUsage::ClientAuth => rcgen::ExtendedKeyUsagePurpose::ClientAuth,
        },
    );
}

/// Relies on `time::OffsetDateTime::from_unix_timestamp`, which fails outside
/// the representable dates, and on the fields `not_before` and `not_after`.
#[verifier::external_body]
fn set_validity(params: &mut Params, not_before: i64, not_after: i64) -> (r: Result<
    (),
    time::error::ComponentRange,
>)
    ensures
        r is Ok ==> final(params).model() == (ProfileView {
            not_before: not_before as int,
            not_after: not_after as int,
            ..old(params).model()
        }),
        r is Err ==> final(params).model() == (ProfileView {
            not_before: final(params).model().not_before,
            not_after: final(params).model().not_after,
            ..old(params).model()
        }),
{
    params.inner.not_before = time::OffsetDateTime::from_unix_timestamp(not_before)?;
    params.inner.not_after = time::OffsetDateTime::from_unix_timestamp(not_after)?;
    Ok(())
}

/// Relies on `rcgen::DistinguishedName::new`: the subject starts out empty.
#[verifier::external_body]
fn clear_subject(params: &mut Params)
    ensures
        final(params).model() == (ProfileView { subject: Seq::empty(), ..old(params).model() }),
{
    params.inner.distinguished_name = rcgen::DistinguishedName::new();
}

/// Relies on `rcgen::DistinguishedName::push`: an attribute type not yet
/// present is appended; one already present keeps its place.
#[verifier::external_body]
fn push_subject(params: &mut Params, field: NameField, value: String)
    ensures
        field_absent(old(params).model().subject, field) ==> final(params).model() == (
        ProfileView {
            subject: old(params).model().subject.push((field, value@)),
            ..old(params).model()
        }),
        final(params).model() == (ProfileView {
            subject: final(params).model().subject,
            ..old(params).model()
        }),
{
    let ty = match field {
        NameField::CommonName => rcgen::DnType::CommonName,
        NameField::OrganizationName => rcgen::DnType::OrganizationName,
        NameField::CountryName => rcgen::DnType::CountryName,
    };
    params.inner.distinguished_name.push(ty, value);
}

/// Relies on the public field `use_authority_key_identifier_extension`.
#[verifier::external_body]
fn set_authority_key_identifier(params: &mut Params, on: bool)
    ensures
        final(params).model() == (ProfileView {
            authority_key_identifier: on,
            ..old(params).model()
        }),
{
    params.inner.use_authority_key_identifier_extension = on;
}

/// Relies on `rcgen::CertificateParams::self_signed`: the certificate states
/// what the parameters state, and its issuer is its own subject. Dates outside
/// the years 0 to 9999 would make yasna panic when it writes them.
#[verifier::external_body]
fn sign_self(params: Params, key: &SigningKey) -> (r: Result<SignedCert, rcgen::Error>)
    requires
        writable_date(params.model().not_before),
        writable_date(params.model().not_after),
    ensures
        r matches Ok(c) ==> {
            &&& c.model() == params.model()
            &&& c.issuer() == params.model().subject
            &&& c.subject_key() == key.public_key()
            &&& c.signer() == key.public_key()
            &&& c.authority_key_id() == if params.model().authority_key_identifier {
                Some(c.key_identifier())
            } else {
                None
            }
        },
{
    Ok(
        SignedCert {
            inner: params.inner.self_signed(&key.inner)?,
            model: Ghost(arbitrary()),
            issuer: Ghost(arbitrary()),
            subject_key: Ghost(arbitrary()),
            signer: Ghost(arbitrary()),
            key_identifier: Ghost(arbitrary()),
            authority_key_id: Ghost(arbitrary()),
            pem: Ghost(arbitrary()),
        },
    )
}

/// Relies on `rcgen::CertificateParams::signed_by`: the certificate states
/// what the parameters state, the issuer's subject becomes its issuer, and
/// `issuer_key` signs it. Dates outside the years 0 to 9999 would make yasna
/// panic when it writes them.
#[verifier::external_body]
fn sign_with(
    params: Params,
    key: &SigningKey,
    issuer: &SignedCert,
    issuer_key: &SigningKey,
) -> (r: Result<SignedCert, rcgen::Error>)
    requires
        writable_date(params.model().not_before),
        writable_date(params.model().not_after),
    ensures
        r matches Ok(c) ==> {
            &&& c.model() == params.model()
            &&& c.issuer() == issuer.model().subject
            &&& c.subject_key() == key.public_key()
            &&& c.signer() == issuer_key.public_key()
            &&& !params.model().authority_key_identifier ==> c.authority_key_id() is None
            &&& params.model().authority_key_identifier && issuer.subject_key()
                == issuer_key.public_key() ==> c.authority_key_id() == Some(
                issuer.key_identifier(),
            )
        },
{
    Ok(
        SignedCert {
            inner: params.inner.signed_by(&key.inner, &issuer.inner, &issuer_key.inner)?,
            model: Ghost(arbitrary()),
            issuer: Ghost(arbitrary()),
            subject_key: Ghost(arbitrary()),
            signer: Ghost(arbitrary()),
            key_identifier: Ghost(arbitrary()),
            authority_key_id: Ghost(arbitrary()),
            pem: Ghost(arbitrary()),
        },
    )
}

/// Whether `rcgen::CertificateParams::from_ca_cert_pem` accepts a PEM text.
pub uninterp spec fn ca_pem_parses(pem: Seq<char>) -> bool;

/// Whether a PEM text is a private key that `rcgen::KeyPair::from_pem` accepts
/// (it can still fail when the system's random source fails).
pub uninterp spec fn key_pem_parses(pem: Seq<char>) -> bool;

/// Relies on `rcgen::CertificateParams::from_ca_cert_pem`: the parameters
/// of a stored CA certificate, for signing with it again; whether it succeeds
/// depends on the text alone.
#[verifier::external_body]
fn ca_params_from_pem(pem: &str) -> (r: Result<Params, rcgen::Error>)
    ensures
        r is Ok <==> ca_pem_parses(pem@),
{
    Ok(Params { inner: CertificateParams::from_ca_cert_pem(pem)?, model: Ghost(arbitrary()) })
}

/// Relies on `rcgen::KeyPair::from_pem`: it succeeds only on a text that is an
/// acceptable private key; ring's loading of it also draws on the system's
/// random source, which may fail.
#[verifier::external_body]
fn key_pair_from_pem(pem: &str) -> (r: Result<SigningKey, rcgen::Error>)
    ensures
        r is Ok ==> key_pem_parses(pem@),
{
    Ok(SigningKey { inner: KeyPair::from_pem(pem)?, public: Ghost(arbitrary()) })
}

/// Relies on `time::OffsetDateTime::unix_timestamp`: the parameters'
/// `not_before` and `not_after`, in seconds since the Unix epoch.
#[verifier::external_body]
fn params_validity(params: &Params) -> (r: (i64, i64))
    ensures
        r.0 == params.model().not_before,
        r.1 == params.model().not_after,
{
    (params.inner.not_before.unix_timestamp(), params.inner.not_after.unix_timestamp())
}

/// Relies on `rcgen::Certificate::pem`.
#[verifier::external_body]
fn certificate_pem(cert: &SignedCert) -> (r: String)
    ensures
        r@ == cert.pem_text(),
{
    cert.inner.pem()
}

/// Relies on `rcgen::KeyPair::serialize_pem`: the key's PKCS#8 document as
/// `PRIVATE KEY` PEM, which `KeyPair::from_pem` reads back.
#[verifier::external_body]
fn key_pair_pem(key: &SigningKey) -> (r: String)
    ensures
        key_pem_parses(r@),
{
    key.inner.serialize_pem()
}

/// rcgen parameters that state exactly what `profile` states; an error where
/// an alternative name is not ASCII.
fn build_params(profile: &CertProfile) -> (r: Result<Params, CertError>)
    requires
        distinct_fields(profile@.subject),
    ensures
        r matches Ok(p) ==> p.model() == profile@,
        (exists|i: int|
            0 <= i < profile@.subject_alt_names.len() && !is_ascii_chars(
                #[trigger] profile@.subject_alt_names[i],
            )) ==> r is Err,
{
    let names = profile.subject_alt_names.clone();
    proof {
        assert(names@ == profile.subject_alt_names@);
        if exists|i: int|
            0 <= i < profile@.subject_alt_names.len() && !is_ascii_chars(
                #[trigger] profile@.subject_alt_names[i],
            ) {
            let i = choose|i: int|
                0 <= i < profile@.subject_alt_names.len() && !is_ascii_chars(
                    #[trigger] profile@.subject_alt_names[i],
                );
            assert(!is_ascii_chars(names@[i]@));
        }
    }
    let mut params = match params_with_names(names) {
        Ok(p) => p,
        Err(_) => {
            return Err(CertError::Names);
        },
    };
    set_role(&mut params, profile.role);
    let mut i: usize = 0;
    while i < profile.key_usages.len()
        invariant
            i <= profile.key_usages@.len(),
            params.model().key_usages == profile.key_usages@.take(i as int),
            params.model().subject_alt_names == profile@.subject_alt_names,
            params.model().role == profile.role,
            params.model().extended_key_usages == Seq::<ExtendedKeyUsage>::empty(),
            !params.model().authority_key_identifier,
        decreases profile.key_usages@.len() - i,
    {
        add_key_usage(&mut params, profile.key_usages[i]);
        assert(profile.key_usages@.take(i + 1) =~= profile.key_usages@.take(i as int).push(
            profile.key_usages@[i as int],
        ));
        i = i + 1;
    }
    assert(profile.key_usages@.take(i as int) =~= profile.key_usages@);
    let mut i: usize = 0;
    while i < profile.extended_key_usages.len()
        invariant
            i <= profile.extended_key_usages@.len(),
            params.model().extended_key_usages == profile.extended_key_usages@.take(i as int),
            params.model().key_usages == profile.key_usages@,
            params.model().subject_alt_names == profile@.subject_alt_names,
            params.model().role == profile.role,
            !params.model().authority_key_identifier,
        decreases profile.extended_key_usages@.len() - i,
    {
        add_extended_key_usage(&mut params, profile.extended_key_usages[i]);
        assert(profile.extended_key_usages@.take(i + 1) =~= profile.extended_key_usages@.take(
            i as int,
        ).push(profile.extended_key_usages@[i as int]));
        i = i + 1;
    }
    assert(profile.extended_key_usages@.take(i as int) =~= profile.extended_key_usages@);
    if set_validity(&mut params, profile.not_before, profile.not_after).is_err() {
        return Err(CertError::Validity);
    }
    clear_subject(&mut params);
    let mut i: usize = 0;
    while i < profile.subject.len()
        invariant
            i <= profile.subject@.len(),
            distinct_fields(profile@.subject),
            params.model().subject == profile@.subject.take(i as int),
            params.model().extended_key_usages == profile.extended_key_usages@,
            params.model().key_usages == profile.key_usages@,
            params.model().subject_alt_names == profile@.subject_alt_names,
            params.model().role == profile.role,
            params.model().not_before == profile@.not_before,
            params.model().not_after == profile@.not_after,
            !params.model().authority_key_identifier,
        decreases profile.subject@.len() - i,
    {
        let (field, value) = &profile.subject[i];
        assert(profile@.subject[i as int] == (*field, value@));
        assert(field_absent(params.model().subject, *field)) by {
            assert forall|k: int| 0 <= k < params.model().subject.len() implies #[trigger] params.model().subject[k].0 != *field by {
                assert(params.model().subject[k] == profile@.subject[k]);
                assert(profile@.subject[k].0 != profile@.subject[i as int].0);
            }
        }
        push_subject(&mut params, *field, value.clone());
        assert(profile@.subject.take(i + 1) =~= profile@.subject.take(i as int).push(
            profile@.subject[i as int],
        ));
        i = i + 1;
    }
    assert(profile@.subject.take(i as int) =~= profile@.subject);
    set_authority_key_identifier(&mut params, profile.authority_key_identifier);
    assert(params.model() == profile@);
    Ok(params)
}

/// A leaf certificate with its key pair and what it states.
pub struct IssuedCert {
    pub cert: SignedCert,
    pub key_pair: SigningKey,
    pub profile: CertProfile,
}

/// Whether `p` is the profile of a leaf for `host`, issued at its own start of validity.
pub open spec fn is_leaf_for(p: ProfileView, host: Seq<char>) -> bool {
    p == leaf_profile_spec(host, p.not_before)
}

/// Issues a leaf certificate for `host` with a fresh key pair, signed by the
/// root `ca_cert` / `ca_key`, valid from now for ten years. It is signed with
/// `ca_key`, and when `ca_key` is the key `ca_cert` certifies it names
/// `ca_cert`'s key identifier as its authority key. A host that is not
/// ASCII cannot be written into the certificate and gives an error.
pub fn generate_signed_cert(ca_cert: &SignedCert, ca_key: &SigningKey, host: String) -> (r: Result<
    IssuedCert,
    CertError,
>)
    ensures
        r matches Ok(c) ==> {
            &&& is_leaf_for(c.cert.model(), host@)
            &&& c.cert.issuer() == ca_cert.model().subject
            &&& c.profile@ == c.cert.model()
            &&& c.cert.signer() == ca_key.public_key()
            &&& c.cert.subject_key() == c.key_pair.public_key()
            &&& ca_cert.subject_key() == ca_key.public_key() ==> c.cert.authority_key_id()
                == Some(ca_cert.key_identifier())
        },
        !is_ascii_chars(host@) ==> r is Err,
{
    let now = unix_now();
    let profile = match leaf_profile(host.as_str(), now) {
        Some(p) => p,
        None => {
            return Err(CertError::Validity);
        },
    };
    proof {
        let sub = profile@.subject;
        assert(distinct_fields(sub));
        assert(profile@.subject_alt_names[0] == host@);
    }
    let params = build_params(&profile)?;
    let key_pair = match generate_key_pair() {
        Ok(k) => k,
        Err(_) => {
            return Err(CertError::KeyGeneration);
        },
    };
    match sign_with(params, &key_pair, ca_cert, ca_key) {
        Ok(cert) => Ok(IssuedCert { cert, key_pair, profile }),
        Err(_) => Err(CertError::Signing),
    }
}

/// The root of trust, with its PEM text as stored.
///
/// A root loaded from storage keeps the stored texts byte for byte in
/// `cert_pem` and `key_pem`; its `cert` is the stored certificate's
/// parameters signed again with the stored key (rcgen signs only with a
/// certificate it made), so its bytes differ from `cert_pem` while its subject
/// and key are the stored ones.
pub struct RootCa {
    pub cert: SignedCert,
    pub key_pair: SigningKey,
    /// The certificate's PEM text.
    pub cert_pem: String,
    /// The private key's PEM text.
    pub key_pem: String,
    /// Whether it was generated by this call and must be stored.
    pub generated: bool,
    /// What a generated root states; `None` for a root loaded from storage.
    pub profile: Option<CertProfile>,
}

/// What a root obtained from the stored texts `stored_cert` and `stored_key`
/// holds: with both present, exactly those texts, not regenerated; with
/// either missing, a freshly generated root with the CA profile, whose texts
/// are its certificate's PEM and a loadable key. Either way it certifies its
/// own key and is signed with it.
pub open spec fn root_from_store(
    stored_cert: Option<String>,
    stored_key: Option<String>,
    root: RootCa,
) -> bool {
    &&& root.cert.issuer() == root.cert.model().subject
    &&& root.cert.subject_key() == root.key_pair.public_key()
    &&& root.cert.signer() == root.key_pair.public_key()
    &&& match (stored_cert, stored_key) {
        (Some(c), Some(k)) => root.cert_pem@ == c@ && root.key_pem@ == k@ && !root.generated
            && root.profile is None,
        _ => {
            &&& root.generated
            &&& root.cert.model() == ca_profile_spec(root.cert.model().not_before)
            &&& root.cert_pem@ == root.cert.pem_text()
            &&& key_pem_parses(root.key_pem@)
            &&& root.profile matches Some(p) && p@ == root.cert.model()
        },
    }
}

/// Loads the root from its stored certificate and key when both are given;
/// otherwise generates a new self-signed CA (see `ca_profile_spec`) whose
/// PEM texts the caller stores. Stored texts that do not parse are an error.
pub fn generate_ca_certificate(stored_cert: Option<String>, stored_key: Option<String>) -> (r:
    Result<RootCa, CertError>)
    ensures
        r matches Ok(root) ==> root_from_store(stored_cert, stored_key, root),
        match (stored_cert, stored_key) {
            (Some(c), Some(k)) => {
                &&& !ca_pem_parses(c@) ==> r == Err::<RootCa, CertError>(
                    CertError::StoredCertificate,
                )
                &&& ca_pem_parses(c@) && !key_pem_parses(k@) ==> r == Err::<RootCa, CertError>(
                    CertError::StoredKey,
                )
            },
            _ => true,
        },
{
    match (stored_cert, stored_key) {
        (Some(cert_pem), Some(key_pem)) => {
            let params = match ca_params_from_pem(cert_pem.as_str()) {
                Ok(p) => p,
                Err(_) => {
                    return Err(CertError::StoredCertificate);
                },
            };
            let key_pair = match key_pair_from_pem(key_pem.as_str()) {
                Ok(k) => k,
                Err(_) => {
                    return Err(CertError::StoredKey);
                },
            };
            let (not_before, not_after) = params_validity(&params);
            if not_before < EARLIEST_DATE || not_before > LATEST_DATE || not_after < EARLIEST_DATE
                || not_after > LATEST_DATE {
                return Err(CertError::Validity);
            }
            match sign_self(params, &key_pair) {
                Ok(cert) => Ok(
                    RootCa { cert, key_pair, cert_pem, key_pem, generated: false, profile: None },
                ),
                Err(_) => Err(CertError::Signing),
            }
        },
        _ => {
            let now = unix_now();
            let profile = match ca_profile(now) {
                Some(p) => p,
                None => {
                    return Err(CertError::Validity);
                },
            };
            let params = build_params(&profile)?;
            let key_pair = match generate_key_pair() {
                Ok(k) => k,
                Err(_) => {
                    return Err(CertError::KeyGeneration);
                },
            };
            match sign_self(params, &key_pair) {
                Ok(cert) => {
                    let cert_pem = certificate_pem(&cert);
                    let key_pem = key_pair_pem(&key_pair);
                    Ok(
                        RootCa {
                            cert,
                            key_pair,
                            cert_pem,
                            key_pem,
                            generated: true,
                            profile: Some(profile),
                        },
                    )
                },
                Err(_) => Err(CertError::Signing),
            }
        },
    }
}

/// The trust anchor is stable: once the texts a call hands back are stored,
/// a later call on them hands back the very same texts and generates nothing,
/// and so does every call after it.
pub proof fn lemma_trust_anchor_stable(first: RootCa, second: RootCa, third: RootCa)
    requires
        root_from_store(Some(first.cert_pem), Some(first.key_pem), second),
        root_from_store(Some(second.cert_pem), Some(second.key_pem), third),
    ensures
        second.cert_pem@ == first.cert_pem@,
        second.key_pem@ == first.key_pem@,
        third.cert_pem@ == second.cert_pem@,
        third.key_pem@ == second.key_pem@,
        !second.generated && !third.generated,
{
}

} // verus!
