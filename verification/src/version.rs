//! The compatibility check: compare the calling host's declared protocol
//! version against the version this system was built for, and decide whether
//! a mismatch warning is owed. A version text that does not parse is a hard
//! error here: the run cannot proceed without knowing the versions.
use vstd::prelude::*;

use crate::strutil::str_eq;

verus! {

/// A parsed semantic version, held as plain values.
pub struct Version {
    pub major: u64,
    pub minor: u64,
    pub patch: u64,
    pub pre: String,
    pub build: String,
}

/// Spec-level image of [`Version`].
pub ghost struct VersionV {
    pub major: u64,
    pub minor: u64,
    pub patch: u64,
    pub pre: Seq<char>,
    pub build: Seq<char>,
}

impl View for Version {
    type V = VersionV;

    open spec fn view(&self) -> VersionV {
        VersionV {
            major: self.major,
            minor: self.minor,
            patch: self.patch,
            pre: self.pre@,
            build: self.build@,
        }
    }
}

/// What a version text parses to, if anything. The outcome depends on the
/// text alone; the grammar itself is not restated here.
pub uninterp spec fn version_of(s: Seq<char>) -> Option<VersionV>;

/// Relies on semver::Version::parse: parses a semantic version text into its
/// numeric triple and its pre-release and build identifiers.
#[verifier::external_body]
fn parse_semver(s: &str) -> (r: Option<Version>)
    ensures
        match r {
            Option::Some(v) => version_of(s@) == Option::Some(v@),
            Option::None => version_of(s@) matches Option::None,
        },
{
    match semver::Version::parse(s) {
        Ok(v) => Some(
            Version {
                major: v.major,
                minor: v.minor,
                patch: v.patch,
                pre: v.pre.as_str().to_string(),
                build: v.build.as_str().to_string(),
            },
        ),
        Err(_) => None,
    }
}

/// Whether a caller's pre-release identifiers are acceptable against the
/// built version's. The compatibility requirement this library defines is the
/// same-major.minor range; it deliberately orders no two distinct pre-release
/// identifier lists against each other: a full release always ranks at least
/// as high as any pre-release of the same patch, and a pre-release caller is
/// accepted only against the identical pre-release. A caller whose
/// pre-release ranks above the built one by the general dotted-identifier
/// ordering is therefore still warned about — the policy errs toward the
/// advisory warning, which is non-fatal.
pub open spec fn pre_acceptable(c: Seq<char>, b: Seq<char>) -> bool {
    c.len() == 0 || c == b
}

/// The compatibility requirement the built version imposes on a caller: the
/// same major.minor line, at no lesser patch; a pre-release caller is
/// accepted only against the same patch of a pre-release build.
pub open spec fn spec_compatible(c: VersionV, b: VersionV) -> bool {
    &&& c.major == b.major
    &&& c.minor == b.minor
    &&& (c.patch > b.patch || (c.patch == b.patch && pre_acceptable(c.pre, b.pre)))
    &&& (c.pre.len() == 0 || (c.patch == b.patch && b.pre.len() > 0))
}

/// The comparison's outcome: the versions interoperate, or a warning is owed.
#[derive(Debug)]
pub enum CompatOutcome {
    Compatible,
    Mismatch,
}

/// Why the check could not run at all.
#[derive(Debug)]
pub enum CompatError {
    BadCallerVersion,
    BadBuiltVersion,
}

/// The whole check as a function of the two version texts: a parse failure of
/// either text is a hard error; textually equal versions are compatible
/// outright; otherwise the compatibility requirement decides.
pub open spec fn spec_check(caller: Seq<char>, built: Seq<char>) -> Result<
    CompatOutcome,
    CompatError,
> {
    match version_of(caller) {
        Option::None => Result::Err(CompatError::BadCallerVersion),
        Option::Some(c) => match version_of(built) {
            Option::None => Result::Err(CompatError::BadBuiltVersion),
            Option::Some(b) => if caller == built || spec_compatible(c, b) {
                Result::Ok(CompatOutcome::Compatible)
            } else {
                Result::Ok(CompatOutcome::Mismatch)
            },
        },
    }
}

/// Compare the caller's declared version against the built one. Returns the
/// mismatch outcome — never a hard error — whenever both texts parse; a
/// mismatch is advisory, for the caller to log.
pub fn check_compat(caller: &String, built: &String) -> (r: Result<CompatOutcome, CompatError>)
    ensures
        r == spec_check(caller@, built@),
{
    let c = match parse_semver(caller.as_str()) {
        Option::Some(v) => v,
        Option::None => {
            return Err(CompatError::BadCallerVersion);
        },
    };
    let b = match parse_semver(built.as_str()) {
        Option::Some(v) => v,
        Option::None => {
            return Err(CompatError::BadBuiltVersion);
        },
    };
    if str_eq(caller.as_str(), built.as_str()) {
        return Ok(CompatOutcome::Compatible);
    }
    let c_pre_empty = c.pre.as_str().unicode_len() == 0;
    let pre_ok = c_pre_empty || str_eq(c.pre.as_str(), b.pre.as_str());
    let gate = c_pre_empty || (c.patch == b.patch && b.pre.as_str().unicode_len() > 0);
    let compatible = c.major == b.major && c.minor == b.minor && (c.patch > b.patch || (c.patch
        == b.patch && pre_ok)) && gate;
    if compatible {
        Ok(CompatOutcome::Compatible)
    } else {
        Ok(CompatOutcome::Mismatch)
    }
}

/// A caller version textually equal to a parseable built version never draws
/// a warning.
pub proof fn lemma_equal_versions_compatible(caller: Seq<char>, built: Seq<char>)
    requires
        caller == built,
        version_of(caller) is Some,
    ensures
        spec_check(caller, built) == Result::<CompatOutcome, CompatError>::Ok(
            CompatOutcome::Compatible,
        ),
{
}

/// A parsed caller version whose major or minor differs from the built one
/// always draws the mismatch outcome — and never a hard error.
pub proof fn lemma_major_minor_mismatch_warns(
    caller: Seq<char>,
    built: Seq<char>,
    c: VersionV,
    b: VersionV,
)
    requires
        version_of(caller) == Option::Some(c),
        version_of(built) == Option::Some(b),
        c.major != b.major || c.minor != b.minor,
    ensures
        spec_check(caller, built) == Result::<CompatOutcome, CompatError>::Ok(
            CompatOutcome::Mismatch,
        ),
{
    if caller == built {
        assert(c == b);
    }
    assert(!spec_compatible(c, b));
}

} // verus!
