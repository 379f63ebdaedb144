//! A fetched certificate: where its files go and when it is due again.

use vstd::prelude::*;
use vstd::string::StringExecFns;
use crate::json::{JsonTree, JsonValue};
use crate::text::{join, joined, sanitize, sanitized};
use crate::time::{
    clamped, current_instant, instant_of_text, SignedDuration, Timestamp, NANOS_PER_DAY,
};

verus! {

/// The number of days from generation that a certificate expires.
pub const EXPIRATION_DAYS: i64 = 90;

/// The events in a certificate's life that the API reports.
#[derive(Clone, Copy, Debug, PartialEq, Eq)]
pub struct Events {
    pub generated: Timestamp,
}

/// One certificate as the API hands it out. It holds the private key, and
/// so it cannot be printed.
#[derive(PartialEq, Eq)]
pub struct CycleCert {
    domains: Vec<String>,
    bundle: String,
    events: Events,
    private_key: String,
}

/// What a certificate holds.
pub struct CertView {
    pub domains: Seq<Seq<char>>,
    pub bundle: Seq<char>,
    pub private_key: Seq<char>,
    pub generated: Timestamp,
}

/// One file to write, whole. The contents may be a private key, and so it
/// cannot be printed.
#[derive(PartialEq, Eq)]
pub struct FileWrite {
    pub path: String,
    pub contents: String,
}

/// What persisting a certificate puts on disk: the directory, made with
/// all its parents where it is missing, and then the two files in this order.
#[derive(PartialEq, Eq)]
pub struct DiskWrites {
    pub directory: String,
    pub certificate: FileWrite,
    pub key: FileWrite,
}

/// What a `FileWrite` holds.
pub struct FileWriteView {
    pub path: Seq<char>,
    pub contents: Seq<char>,
}

/// What a `DiskWrites` holds.
pub struct DiskWritesView {
    pub directory: Seq<char>,
    pub certificate: FileWriteView,
    pub key: FileWriteView,
}

impl View for FileWrite {
    type V = FileWriteView;

    open spec fn view(&self) -> FileWriteView {
        FileWriteView { path: self.path@, contents: self.contents@ }
    }
}

impl View for DiskWrites {
    type V = DiskWritesView;

    open spec fn view(&self) -> DiskWritesView {
        DiskWritesView {
            directory: self.directory@,
            certificate: self.certificate@,
            key: self.key@,
        }
    }
}

/// The characters of a borrowed text that may be absent.
pub open spec fn borrowed_view(text: Option<&str>) -> Option<Seq<char>> {
    match text {
        Some(s) => Some(s@),
        None => None,
    }
}

/// The name of a certificate's files without the extension: the override
/// as it is, or else the domains joined by underscores with every dot
/// replaced by an underscore.
pub open spec fn file_stem(domains: Seq<Seq<char>>, filename: Option<Seq<char>>) -> Seq<char> {
    match filename {
        Some(name) => name,
        None => sanitized(joined(domains, "_"@)),
    }
}

/// The path of the file `stem` with `extension` in `dir`.
pub open spec fn file_path(dir: Seq<char>, stem: Seq<char>, extension: Seq<char>) -> Seq<char> {
    dir + "/"@ + stem + extension
}

/// The path of the certificate bundle.
pub open spec fn certificate_path(
    domains: Seq<Seq<char>>,
    dir: Seq<char>,
    filename: Option<Seq<char>>,
) -> Seq<char> {
    file_path(dir, file_stem(domains, filename), ".ca-bundle"@)
}

/// The path of the private key.
pub open spec fn private_key_path(
    domains: Seq<Seq<char>>,
    dir: Seq<char>,
    filename: Option<Seq<char>>,
) -> Seq<char> {
    file_path(dir, file_stem(domains, filename), ".key"@)
}

/// What persisting `cert` under `dir` writes: the bundle to the
/// certificate's path, and the key to the key's path.
pub open spec fn planned_writes(cert: CertView, dir: Seq<char>, filename: Option<Seq<char>>) -> DiskWritesView {
    DiskWritesView {
        directory: dir,
        certificate: FileWriteView {
            path: certificate_path(cert.domains, dir, filename),
            contents: cert.bundle,
        },
        key: FileWriteView {
            path: private_key_path(cert.domains, dir, filename),
            contents: cert.private_key,
        },
    }
}

/// The instant at which a certificate issued at `issued` expires.
pub open spec fn expiry(issued: int) -> int {
    issued + EXPIRATION_DAYS * NANOS_PER_DAY
}

/// The instant at which to fetch again: `lead_days` before the expiry.
pub open spec fn refetch_target(issued: int, lead_days: int) -> int {
    expiry(issued) - lead_days * NANOS_PER_DAY
}

/// The time from `now` to the next fetch, in nanoseconds. It is negative
/// where the next fetch is overdue.
pub open spec fn refetch_delay(issued: int, lead_days: int, now: int) -> int {
    refetch_target(issued, lead_days) - now
}

/// The message for a failed write: it names the two paths and holds
/// nothing of what was to be written.
pub open spec fn write_failure_text(certificate: Seq<char>, key: Seq<char>) -> Seq<char> {
    "Failed to write files. \nCertificate: "@ + certificate + "\nKey: "@ + key
}

impl DiskWrites {
    /// The message to log where a write has failed.
    pub fn failure_message(&self) -> (m: String)
        ensures
            m@ == write_failure_text(self.certificate.path@, self.key.path@),
    {
        String::from_str("Failed to write files. \nCertificate: ").concat(
            self.certificate.path.as_str(),
        ).concat("\nKey: ").concat(self.key.path.as_str())
    }
}

/// The certificate that `v` describes: an object with the texts `bundle`
/// and `private_key`, the array of texts `domains`, and under `events` an
/// object whose text `generated` denotes an instant. There is none where
/// one of these is missing or of another kind, nor where there is no domain
/// or the bundle is empty. Other members are ignored.
pub open spec fn certificate_shape(v: JsonTree) -> Option<CertView> {
    match (
        v.member_texts("domains"@),
        v.member_text("bundle"@),
        generated_at(v),
        v.member_text("private_key"@),
    ) {
        (Some(domains), Some(bundle), Some(generated), Some(private_key)) => if domains.len() > 0
            && bundle.len() > 0 {
            Some(CertView { domains, bundle, private_key, generated })
        } else {
            None
        },
        _ => None,
    }
}

/// The instant under `events.generated` of `v`.
pub open spec fn generated_at(v: JsonTree) -> Option<Timestamp> {
    match v.member("events"@) {
        Some(events) => match events.member_text("generated"@) {
            Some(text) => instant_of_text(text),
            None => None,
        },
        None => None,
    }
}

/// Reads the instant under `events.generated` of `v`.
fn read_generated(v: &JsonValue) -> (generated: Option<Timestamp>)
    ensures
        generated == generated_at(v@),
{
    match v.get("events") {
        Some(events) => match events.get_text("generated") {
            Some(text) => Timestamp::parse(text.as_str()),
            None => None,
        },
        None => None,
    }
}

impl View for CycleCert {
    type V = CertView;

    closed spec fn view(&self) -> CertView {
        CertView {
            domains: self.domains.deep_view(),
            bundle: self.bundle@,
            private_key: self.private_key@,
            generated: self.events.generated,
        }
    }
}

impl CycleCert {
    /// A certificate names a domain and holds a bundle.
    #[verifier::type_invariant]
    spec fn well_formed(self) -> bool {
        self.domains@.len() > 0 && self.bundle@.len() > 0
    }

    /// A certificate of these parts. There is none without a domain or with
    /// an empty bundle.
    pub fn new(domains: Vec<String>, bundle: String, private_key: String, generated: Timestamp) -> (cert:
        Option<CycleCert>)
        ensures
            cert is Some <==> domains@.len() > 0 && bundle@.len() > 0,
            cert matches Some(c) ==> c@ == (CertView {
                domains: domains.deep_view(),
                bundle: bundle@,
                private_key: private_key@,
                generated,
            }),
    {
        if domains.len() == 0 || bundle.as_str().is_empty() {
            None
        } else {
            Some(CycleCert { domains, bundle, events: Events { generated }, private_key })
        }
    }

    /// Reads a certificate from `v`.
    pub fn from_json(v: &JsonValue) -> (cert: Option<CycleCert>)
        ensures
            match cert {
                Some(c) => certificate_shape(v@) == Some(c@),
                None => certificate_shape(v@) is None,
            },
    {
        let domains = match v.get_texts("domains") {
            Some(d) => d,
            None => { return None; },
        };
        let bundle = match v.get_text("bundle") {
            Some(b) => b,
            None => { return None; },
        };
        let generated = match read_generated(v) {
            Some(g) => g,
            None => { return None; },
        };
        let private_key = match v.get_text("private_key") {
            Some(k) => k,
            None => { return None; },
        };
        CycleCert::new(domains, bundle, private_key, generated)
    }

    /// The hostnames that the certificate is for: at least one.
    pub fn domains(&self) -> (domains: &Vec<String>)
        ensures
            domains.deep_view() == self@.domains,
            domains@.len() > 0,
    {
        proof {
            use_type_invariant(self);
        }
        &self.domains
    }

    /// The certificate chain, which is never empty.
    pub fn bundle(&self) -> (bundle: &String)
        ensures
            bundle@ == self@.bundle,
            bundle@.len() > 0,
    {
        proof {
            use_type_invariant(self);
        }
        &self.bundle
    }

    /// The private key. It is a secret: keep it out of logs and messages.
    pub fn private_key(&self) -> (key: &String)
        ensures
            key@ == self@.private_key,
    {
        &self.private_key
    }

    /// When the certificate was generated.
    pub fn events(&self) -> (events: Events)
        ensures
            events.generated == self@.generated,
    {
        self.events
    }

    /// The name of the files without the extension.
    fn stem(&self, filename: Option<&str>) -> (stem: String)
        ensures
            stem@ == file_stem(self@.domains, borrowed_view(filename)),
    {
        match filename {
            Some(name) => String::from_str(name),
            None => {
                let all = join(&self.domains, "_");
                sanitize(all.as_str())
            },
        }
    }

    /// The path of the certificate bundle under `path`.
    pub fn get_certificate_full_filepath(&self, path: &str, filename: Option<&str>) -> (full: String)
        ensures
            full@ == certificate_path(self@.domains, path@, borrowed_view(filename)),
    {
        let name = self.stem(filename);
        String::from_str(path).concat("/").concat(name.as_str()).concat(".ca-bundle")
    }

    /// The path of the private key under `path`.
    pub fn get_private_key_full_filepath(&self, path: &str, filename: Option<&str>) -> (full: String)
        ensures
            full@ == private_key_path(self@.domains, path@, borrowed_view(filename)),
    {
        let name = self.stem(filename);
        String::from_str(path).concat("/").concat(name.as_str()).concat(".key")
    }

    /// What to write to put the certificate under `path`: the bundle to the
    /// certificate's path and the key to the key's path.
    pub fn disk_writes(&self, path: &str, filename: Option<&str>) -> (writes: DiskWrites)
        ensures
            writes@ == planned_writes(self@, path@, borrowed_view(filename)),
    {
        DiskWrites {
            directory: String::from_str(path),
            certificate: FileWrite {
                path: self.get_certificate_full_filepath(path, filename),
                contents: self.bundle.clone(),
            },
            key: FileWrite {
                path: self.get_private_key_full_filepath(path, filename),
                contents: self.private_key.clone(),
            },
        }
    }

    /// The time from `now` until the certificate is to be fetched again,
    /// `refetch_days` before it expires.
    pub fn duration_until_refetch_at(&self, refetch_days: i64, now: Timestamp) -> (wait: SignedDuration)
        ensures
            wait@ == refetch_delay(self@.generated@, refetch_days as int, now@),
    {
        let issued: i128 = self.events.generated.as_nanos();
        let validity: i128 = (EXPIRATION_DAYS as i128) * NANOS_PER_DAY;
        let lead: i128 = (refetch_days as i128) * NANOS_PER_DAY;
        SignedDuration::from_nanos(issued + validity - lead - now.as_nanos())
    }

    /// The time from now, by the system clock, until the certificate is to be
    /// fetched again.
    pub fn duration_until_refetch(&self, refetch_days: i64) -> (wait: SignedDuration)
        ensures
            exists|now: Timestamp|
                wait@ == #[trigger] refetch_delay(self@.generated@, refetch_days as int, now@),
    {
        let now = current_instant();
        self.duration_until_refetch_at(refetch_days, now)
    }
}

/// The bundle and the key are written to two different paths that share the
/// directory and the stem and differ in the extension alone.
pub proof fn lemma_paths_differ_in_extension_only(
    domains: Seq<Seq<char>>,
    dir: Seq<char>,
    filename: Option<Seq<char>>,
)
    ensures
        certificate_path(domains, dir, filename) == dir + "/"@ + file_stem(domains, filename)
            + ".ca-bundle"@,
        private_key_path(domains, dir, filename) == dir + "/"@ + file_stem(domains, filename)
            + ".key"@,
        ".ca-bundle"@ != ".key"@,
        certificate_path(domains, dir, filename) != private_key_path(domains, dir, filename),
{
    reveal_strlit(".ca-bundle");
    reveal_strlit(".key");
    assert(".ca-bundle"@.len() == 10);
    assert(".key"@.len() == 4);
    let prefix = dir + "/"@ + file_stem(domains, filename);
    assert((prefix + ".ca-bundle"@).len() == prefix.len() + 10);
    assert((prefix + ".key"@).len() == prefix.len() + 4);
}

/// A stem derived from the domains holds no dot, whatever the domains hold.
pub proof fn lemma_derived_stem_has_no_dot(domains: Seq<Seq<char>>)
    ensures
        forall|i: int|
            0 <= i < file_stem(domains, None).len() ==> #[trigger] file_stem(domains, None)[i]
                != '.',
{
}

/// A file name override is the stem as it stands, whatever the domains hold.
pub proof fn lemma_override_is_the_stem(domains: Seq<Seq<char>>, name: Seq<char>)
    ensures
        file_stem(domains, Some(name)) == name,
{
}

/// For one certificate at one instant, a longer lead never gives a longer
/// wait, and a strictly longer lead gives a strictly shorter one.
pub proof fn lemma_longer_lead_shorter_wait(issued: int, shorter: int, longer: int, now: int)
    requires
        shorter <= longer,
    ensures
        refetch_delay(issued, longer, now) <= refetch_delay(issued, shorter, now),
        shorter < longer ==> refetch_delay(issued, longer, now) < refetch_delay(
            issued,
            shorter,
            now,
        ),
{
}

/// Once the instant to fetch again has passed, the wait is not positive and
/// the time to sleep is zero.
pub proof fn lemma_overdue_means_no_sleep(issued: int, lead_days: int, now: int)
    requires
        refetch_target(issued, lead_days) <= now,
    ensures
        refetch_delay(issued, lead_days, now) <= 0,
        clamped(refetch_delay(issued, lead_days, now)) == 0,
{
}

} // verus!
