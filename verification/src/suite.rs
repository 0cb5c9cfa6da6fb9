//! The catalog of supported cipher suites: the closed `SuiteId` enumeration,
//! canonical lowercase names, and case-insensitive parsing of a requested
//! suite name.

use vstd::prelude::*;

use crate::errors::{Entity, OpaqueError};

verus! {

/// The canonical name of the default suite.
pub const RISTRETTO255_SHA512: &'static str = "ristretto255_sha512";
/// The canonical name of the NIST P-256 suite.
pub const P256_SHA256: &'static str = "p256_sha256";
/// The canonical name of the NIST P-384 suite.
pub const P384_SHA384: &'static str = "p384_sha384";
/// The canonical name of the NIST P-521 suite.
pub const P521_SHA512: &'static str = "p521_sha512";
/// The canonical name of the hybrid classical + post-quantum KEM suite.
pub const ML_KEM_768_RISTRETTO255_SHA512: &'static str = "ml_kem_768_ristretto255_sha512";

/// Identifies one of the supported cipher suites. Every other long-lived
/// value of this library carries a `SuiteId` tag, fixed at creation.
#[derive(Clone, Copy, Debug, PartialEq, Eq, Structural)]
pub enum SuiteId {
    Ristretto255Sha512,
    P256Sha256,
    P384Sha384,
    P521Sha512,
    MlKem768Ristretto255Sha512,
}

/// The canonical lowercase name of a suite.
pub open spec fn spec_suite_name(s: SuiteId) -> Seq<char> {
    match s {
        SuiteId::Ristretto255Sha512 => RISTRETTO255_SHA512@,
        SuiteId::P256Sha256 => P256_SHA256@,
        SuiteId::P384Sha384 => P384_SHA384@,
        SuiteId::P521Sha512 => P521_SHA512@,
        SuiteId::MlKem768Ristretto255Sha512 => ML_KEM_768_RISTRETTO255_SHA512@,
    }
}

impl SuiteId {
    /// The canonical lowercase name of this suite.
    pub fn as_str(self) -> (r: &'static str)
        ensures
            r@ == spec_suite_name(self),
    {
        match self {
            SuiteId::Ristretto255Sha512 => RISTRETTO255_SHA512,
            SuiteId::P256Sha256 => P256_SHA256,
            SuiteId::P384Sha384 => P384_SHA384,
            SuiteId::P521Sha512 => P521_SHA512,
            SuiteId::MlKem768Ristretto255Sha512 => ML_KEM_768_RISTRETTO255_SHA512,
        }
    }

    /// The canonical names of every supported suite, in catalog order.
    pub fn available() -> (r: Vec<&'static str>)
        ensures
            r@.len() == 5,
            r@[0]@ == spec_suite_name(SuiteId::Ristretto255Sha512),
            r@[1]@ == spec_suite_name(SuiteId::P256Sha256),
            r@[2]@ == spec_suite_name(SuiteId::P384Sha384),
            r@[3]@ == spec_suite_name(SuiteId::P521Sha512),
            r@[4]@ == spec_suite_name(SuiteId::MlKem768Ristretto255Sha512),
    {
        let mut names: Vec<&'static str> = Vec::new();
        names.push(RISTRETTO255_SHA512);
        names.push(P256_SHA256);
        names.push(P384_SHA384);
        names.push(P521_SHA512);
        names.push(ML_KEM_768_RISTRETTO255_SHA512);
        names
    }
}

impl Default for SuiteId {
    /// The suite used when a caller names none.
    fn default() -> (r: Self)
        ensures
            r == SuiteId::Ristretto255Sha512,
    {
        SuiteId::Ristretto255Sha512
    }
}

/// ASCII lowercasing of a single character; characters outside `A`..`Z`
/// are unchanged.
pub open spec fn spec_lower_char(c: char) -> char {
    if 'A' <= c && c <= 'Z' {
        (c as u8 + 32) as char
    } else {
        c
    }
}

/// ASCII lowercasing of a whole string.
pub open spec fn spec_lower_chars(s: Seq<char>) -> Seq<char> {
    s.map(|_i: int, c: char| spec_lower_char(c))
}

/// Case-insensitive suite-name lookup: the lowercased input against each
/// canonical name, in catalog order.
pub open spec fn spec_suite_of_name(name: Seq<char>) -> Option<SuiteId> {
    if spec_lower_chars(name) == spec_suite_name(SuiteId::Ristretto255Sha512) {
        Some(SuiteId::Ristretto255Sha512)
    } else if spec_lower_chars(name) == spec_suite_name(SuiteId::P256Sha256) {
        Some(SuiteId::P256Sha256)
    } else if spec_lower_chars(name) == spec_suite_name(SuiteId::P384Sha384) {
        Some(SuiteId::P384Sha384)
    } else if spec_lower_chars(name) == spec_suite_name(SuiteId::P521Sha512) {
        Some(SuiteId::P521Sha512)
    } else if spec_lower_chars(name) == spec_suite_name(SuiteId::MlKem768Ristretto255Sha512) {
        Some(SuiteId::MlKem768Ristretto255Sha512)
    } else {
        None
    }
}

/// Whether the ASCII lowercasing of `s` equals `t` exactly.
pub(crate) fn eq_lower(s: &str, t: &str) -> (r: bool)
    ensures
        r == (spec_lower_chars(s@) == t@),
{
    let s_len = s.unicode_len();
    let t_len = t.unicode_len();
    if s_len != t_len {
        assert(spec_lower_chars(s@).len() == s@.len());
        return false;
    }
    let mut i: usize = 0;
    while i < s_len
        invariant
            i <= s_len,
            s_len == s@.len(),
            t_len == t@.len(),
            s_len == t_len,
            forall|j: int| 0 <= j < i ==> spec_lower_char(s@[j]) == t@[j],
        decreases s_len - i,
    {
        let c = s.get_char(i);
        let lowered: char = if 'A' <= c && c <= 'Z' {
            ((c as u8) + 32) as char
        } else {
            c
        };
        assert(lowered == spec_lower_char(s@[i as int]));
        if lowered != t.get_char(i) {
            assert(spec_lower_chars(s@)[i as int] != t@[i as int]);
            return false;
        }
        i += 1;
    }
    assert(spec_lower_chars(s@) =~= t@);
    true
}

impl SuiteId {
    /// Looks a suite up by name, matching case-insensitively against the
    /// canonical names.
    pub fn from_str(value: &str) -> (r: Option<SuiteId>)
        ensures
            r == spec_suite_of_name(value@),
    {
        if eq_lower(value, RISTRETTO255_SHA512) {
            Some(SuiteId::Ristretto255Sha512)
        } else if eq_lower(value, P256_SHA256) {
            Some(SuiteId::P256Sha256)
        } else if eq_lower(value, P384_SHA384) {
            Some(SuiteId::P384Sha384)
        } else if eq_lower(value, P521_SHA512) {
            Some(SuiteId::P521Sha512)
        } else if eq_lower(value, ML_KEM_768_RISTRETTO255_SHA512) {
            Some(SuiteId::MlKem768Ristretto255Sha512)
        } else {
            None
        }
    }
}

/// The view of an optional suite-name argument.
pub open spec fn spec_opt_name(suite: Option<&str>) -> Option<Seq<char>> {
    match suite {
        Some(s) => Some(s@),
        None => None,
    }
}

/// What `parse_suite` resolves a request to: the default suite when no name
/// is given, otherwise the case-insensitive catalog lookup.
pub open spec fn spec_parse_suite(suite: Option<Seq<char>>) -> Option<SuiteId> {
    match suite {
        None => Some(SuiteId::Ristretto255Sha512),
        Some(name) => spec_suite_of_name(name),
    }
}

/// Resolves an optional caller-supplied suite name: `None` selects the
/// default suite; an unknown name is reported as unsupported.
pub fn parse_suite(suite: Option<&str>) -> (r: Result<SuiteId, OpaqueError>)
    ensures
        match spec_parse_suite(spec_opt_name(suite)) {
            Some(id) => r == Ok::<SuiteId, OpaqueError>(id),
            None => r == Err::<SuiteId, OpaqueError>(
                OpaqueError::UnsupportedSuite,
            ),
        },
{
    match suite {
        None => Ok(SuiteId::Ristretto255Sha512),
        Some(raw) => match SuiteId::from_str(raw) {
            Some(id) => Ok(id),
            None => Err(OpaqueError::UnsupportedSuite),
        },
    }
}

/// The suite-consistency check: success exactly when the two tags agree;
/// a disagreement names the offending entity.
pub open spec fn spec_ensure_suite(
    expected: SuiteId,
    actual: SuiteId,
    entity: Entity,
) -> Result<(), OpaqueError> {
    if expected == actual {
        Ok(())
    } else {
        Err(OpaqueError::SuiteMismatch { entity })
    }
}

/// Checks that two suite tags agree before any cryptographic work; a
/// disagreement is a `SuiteMismatch` naming the offending entity.
pub fn ensure_suite(
    expected: SuiteId,
    actual: SuiteId,
    entity: Entity,
) -> (r: Result<(), OpaqueError>)
    ensures
        r == spec_ensure_suite(expected, actual, entity),
{
    if expected == actual {
        Ok(())
    } else {
        Err(OpaqueError::SuiteMismatch { entity })
    }
}

/// The optional requested-suite check that every step with a `suite`
/// argument performs: no name means no check; an unknown name is
/// unsupported; a known name must match the tag of the value in hand.
pub open spec fn spec_check_requested(
    name: Option<Seq<char>>,
    actual: SuiteId,
    entity: Entity,
) -> Result<(), OpaqueError> {
    match name {
        None => Ok(()),
        Some(n) => match spec_suite_of_name(n) {
            None => Err(OpaqueError::UnsupportedSuite),
            Some(id) => spec_ensure_suite(id, actual, entity),
        },
    }
}

/// Checks an optional caller-requested suite name against the tag of the
/// value the step operates on. With no name given, the value's own tag
/// stands.
pub fn check_requested_suite(
    suite: Option<&str>,
    actual: SuiteId,
    entity: Entity,
) -> (r: Result<(), OpaqueError>)
    ensures
        r == spec_check_requested(spec_opt_name(suite), actual, entity),
{
    match suite {
        None => Ok(()),
        Some(raw) => match SuiteId::from_str(raw) {
            None => Err(OpaqueError::UnsupportedSuite),
            Some(id) => ensure_suite(id, actual, entity),
        },
    }
}

/// Every canonical suite name parses back to the suite that carries it:
/// the name catalog is injective and `from_str` inverts `as_str`.
pub proof fn lemma_suite_name_round_trip(s: SuiteId)
    ensures
        spec_suite_of_name(spec_suite_name(s)) == Some(s),
{
    reveal_strlit("ristretto255_sha512");
    reveal_strlit("p256_sha256");
    reveal_strlit("p384_sha384");
    reveal_strlit("p521_sha512");
    reveal_strlit("ml_kem_768_ristretto255_sha512");
    let ghost lowered = spec_lower_chars(spec_suite_name(s));
    assert(lowered =~= spec_suite_name(s));
    match s {
        SuiteId::Ristretto255Sha512 => {
            assert(spec_suite_of_name(spec_suite_name(s)) == Some(s));
        }
        SuiteId::P256Sha256 => {
            assert(lowered.len() == 11);
            assert(spec_suite_name(SuiteId::Ristretto255Sha512).len() == 19);
            assert(spec_suite_of_name(spec_suite_name(s)) == Some(s));
        }
        SuiteId::P384Sha384 => {
            assert(lowered[1] == '3' && spec_suite_name(SuiteId::P256Sha256)[1] == '2');
            assert(spec_suite_of_name(spec_suite_name(s)) == Some(s));
        }
        SuiteId::P521Sha512 => {
            assert(lowered[1] == '5');
            assert(spec_suite_name(SuiteId::P256Sha256)[1] == '2');
            assert(spec_suite_name(SuiteId::P384Sha384)[1] == '3');
            assert(spec_suite_of_name(spec_suite_name(s)) == Some(s));
        }
        SuiteId::MlKem768Ristretto255Sha512 => {
            assert(lowered.len() == 30);
            assert(spec_suite_name(SuiteId::Ristretto255Sha512).len() == 19);
            assert(spec_suite_name(SuiteId::P256Sha256).len() == 11);
            assert(spec_suite_name(SuiteId::P384Sha384).len() == 11);
            assert(spec_suite_name(SuiteId::P521Sha512).len() == 11);
            assert(spec_suite_of_name(spec_suite_name(s)) == Some(s));
        }
    }
}

} // verus!
