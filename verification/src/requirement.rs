//! Version requirements and their minimum satisfying versions.
//!
//! A requirement is modelled as the sequence of comparators the requirement
//! grammar yields: an operator, a major component, optional minor and patch
//! components, and an optional pre-release tag. The engine resolves only
//! single-comparator caret or exact requirements; every other shape is a
//! resolution failure that reports why.

use vstd::prelude::*;
use vstd::string::StringExecFns;

verus! {

/// A comparator's operator. The engine resolves only caret and exact
/// requirements; any other operator is kept solely under its printed name,
/// to be reported when resolution rejects it.
pub enum ReqOp {
    Caret,
    Exact,
    Unsupported(String),
}

/// One comparator of a version requirement: an operator and a partial
/// version. An absent patch implies nothing about minor here; the
/// requirement grammar itself only produces a patch when a minor is present.
pub struct Comparator {
    pub op: ReqOp,
    pub major: u64,
    pub minor: Option<u64>,
    pub patch: Option<u64>,
    /// Pre-release tag; empty means none.
    pub pre: String,
}

/// A parsed version requirement: one or more comparators. The empty sequence
/// arises only from the bare wildcard requirement.
pub struct VersionReq {
    pub comparators: Vec<Comparator>,
}

/// A concrete version: major, minor, patch and an optional pre-release tag.
/// Build metadata is never carried.
#[derive(Debug)]
pub struct ConcreteVersion {
    pub major: u64,
    pub minor: u64,
    pub patch: u64,
    /// Pre-release tag; empty means none.
    pub pre: String,
}

pub ghost enum SpecOp {
    Caret,
    Exact,
    Unsupported(Seq<char>),
}

pub ghost struct SpecComparator {
    pub op: SpecOp,
    pub major: u64,
    pub minor: Option<u64>,
    pub patch: Option<u64>,
    pub pre: Seq<char>,
}

pub ghost struct SpecVersion {
    pub major: u64,
    pub minor: u64,
    pub patch: u64,
    pub pre: Seq<char>,
}

impl View for ReqOp {
    type V = SpecOp;

    open spec fn view(&self) -> SpecOp {
        match self {
            ReqOp::Caret => SpecOp::Caret,
            ReqOp::Exact => SpecOp::Exact,
            ReqOp::Unsupported(name) => SpecOp::Unsupported(name@),
        }
    }
}

impl View for Comparator {
    type V = SpecComparator;

    open spec fn view(&self) -> SpecComparator {
        SpecComparator {
            op: self.op@,
            major: self.major,
            minor: self.minor,
            patch: self.patch,
            pre: self.pre@,
        }
    }
}

impl View for VersionReq {
    type V = Seq<SpecComparator>;

    open spec fn view(&self) -> Seq<SpecComparator> {
        Seq::new(self.comparators@.len(), |i: int| self.comparators@[i]@)
    }
}

impl View for ConcreteVersion {
    type V = SpecVersion;

    open spec fn view(&self) -> SpecVersion {
        SpecVersion { major: self.major, minor: self.minor, patch: self.patch, pre: self.pre@ }
    }
}

/// What the requirement grammar makes of a string: the comparator sequence on
/// success, or the parse error's rendering on failure. Both depend on the
/// string alone.
pub uninterp spec fn parse_req_spec(s: Seq<char>) -> Result<Seq<SpecComparator>, Seq<char>>;

/// Whether a pre-release tag's text is accepted by the pre-release grammar.
pub uninterp spec fn valid_prerelease(s: Seq<char>) -> bool;

/// Whether the requirement parsed from `s` accepts the version `v` under the
/// conventional semantic-versioning compatibility rule. Depends on the two
/// arguments alone.
pub uninterp spec fn req_matches_spec(s: Seq<char>, v: SpecVersion) -> bool;

/// Relies on `<semver::VersionReq as core::str::FromStr>::from_str`: it parses
/// the requirement grammar; on success each comparator's fields are copied
/// into the library's model (the operator keeping only caret, exact, or its
/// debug name), and each comparator's pre-release is a validated
/// `semver::Prerelease`, whose text `semver::Prerelease::new` accepts. On
/// failure the error's rendering is returned.
#[verifier::external_body]
pub(crate) fn parse_req(s: &str) -> (r: Result<VersionReq, String>)
    ensures
        r is Ok <==> parse_req_spec(s@) is Ok,
        (r matches Ok(req) ==> req@ == parse_req_spec(s@)->Ok_0 && (forall|i: int|
            0 <= i < req@.len() ==> valid_prerelease(#[trigger] req@[i].pre))),
        (r matches Err(m) ==> m@ == parse_req_spec(s@)->Err_0),
{
    match s.parse::<semver::VersionReq>() {
        Err(e) => Err(e.to_string()),
        Ok(req) => Ok(VersionReq {
            comparators: req.comparators.iter().map(|c| Comparator {
                op: match c.op {
                    semver::Op::Caret => ReqOp::Caret,
                    semver::Op::Exact => ReqOp::Exact,
                    other => ReqOp::Unsupported(format!("{other:?}")),
                },
                major: c.major, minor: c.minor, patch: c.patch,
                pre: c.pre.as_str().to_string(),
            }).collect(),
        }),
    }
}

/// Relies on `semver::VersionReq::matches`: the requirement parsed from `s`
/// is tested against the version assembled from `v` with empty build
/// metadata.
#[verifier::external_body]
pub(crate) fn req_matches(s: &str, v: &ConcreteVersion) -> (r: bool)
    requires
        parse_req_spec(s@) is Ok,
        valid_prerelease(v@.pre),
    ensures
        r == req_matches_spec(s@, v@),
{
    let req: semver::VersionReq = s.parse().unwrap();
    let version = semver::Version {
        major: v.major,
        minor: v.minor,
        patch: v.patch,
        pre: semver::Prerelease::new(&v.pre).unwrap(),
        build: semver::BuildMetadata::EMPTY,
    };
    req.matches(&version)
}

/// The decimal digit `d` as a character; `d` must be below ten.
pub open spec fn digit_char(d: nat) -> char {
    if d == 0 {
        '0'
    } else if d == 1 {
        '1'
    } else if d == 2 {
        '2'
    } else if d == 3 {
        '3'
    } else if d == 4 {
        '4'
    } else if d == 5 {
        '5'
    } else if d == 6 {
        '6'
    } else if d == 7 {
        '7'
    } else if d == 8 {
        '8'
    } else {
        '9'
    }
}

/// The decimal rendering of `n`, without sign or padding.
pub open spec fn spec_decimal(n: nat) -> Seq<char>
    decreases n,
{
    if n < 10 {
        seq![digit_char(n)]
    } else {
        spec_decimal(n / 10).push(digit_char(n % 10))
    }
}

/// Relies on `u64`'s `core::fmt::Display` (via `ToString`): an unsigned
/// integer formats as its plain decimal digits.
#[verifier::external_body]
fn u64_to_string(x: u64) -> (r: String)
    ensures
        r@ == spec_decimal(x as nat),
{
    x.to_string()
}

/// `o`'s value, with absence defaulted to zero.
pub open spec fn or_zero(o: Option<u64>) -> u64 {
    match o {
        Some(x) => x,
        None => 0,
    }
}

/// The minimum satisfying version of a comparator sequence, per the diff
/// engine's resolution rule: exactly one comparator, caret or exact, absent
/// components defaulted to zero, pre-release carried forward; anything else
/// is a failure whose message names the comparator count or the rejected
/// operator.
pub open spec fn spec_min_version(comps: Seq<SpecComparator>) -> Result<SpecVersion, Seq<char>> {
    if comps.len() != 1 {
        Err("unexpected number of comparators: "@ + spec_decimal(comps.len()))
    } else {
        match comps[0].op {
            SpecOp::Caret | SpecOp::Exact => Ok(
                SpecVersion {
                    major: comps[0].major,
                    minor: or_zero(comps[0].minor),
                    patch: or_zero(comps[0].patch),
                    pre: comps[0].pre,
                },
            ),
            SpecOp::Unsupported(name) => Err("unexpected operator: "@ + name),
        }
    }
}

/// The view of a resolution result: the version's or the message's view.
pub open spec fn min_version_result_view(r: Result<ConcreteVersion, String>) -> Result<
    SpecVersion,
    Seq<char>,
> {
    match r {
        Ok(v) => Ok(v@),
        Err(m) => Err(m@),
    }
}

/// Resolves a requirement to its single minimum satisfying version, or fails.
///
/// The result's components equal the comparator's explicit components with
/// absent minor or patch defaulted to zero; a requirement with zero or more
/// than one comparator, or with an operator other than caret or exact, always
/// fails, reporting the comparator count or the rejected operator.
pub fn minimum_version_for_req(req: &VersionReq) -> (r: Result<ConcreteVersion, String>)
    ensures
        min_version_result_view(r) == spec_min_version(req@),
{
    if req.comparators.len() != 1 {
        let mut msg = String::from_str("unexpected number of comparators: ");
        let count = u64_to_string(req.comparators.len() as u64);
        msg.append(count.as_str());
        Err(msg)
    } else {
        let c = &req.comparators[0];
        match &c.op {
            ReqOp::Caret | ReqOp::Exact => {
                let minor: u64 = match c.minor {
                    Some(m) => m,
                    None => 0,
                };
                let patch: u64 = match c.patch {
                    Some(p) => p,
                    None => 0,
                };
                Ok(ConcreteVersion { major: c.major, minor, patch, pre: c.pre.clone() })
            },
            ReqOp::Unsupported(name) => {
                let mut msg = String::from_str("unexpected operator: ");
                msg.append(name.as_str());
                Err(msg)
            },
        }
    }
}

/// The canonical text of a resolvable comparator from its first digit on:
/// the explicit components joined by dots, then `-` and the pre-release tag
/// if one is present. This is the display text a raised version floor is
/// reported with; the operator symbol that canonically precedes the first
/// digit is not part of it.
pub open spec fn spec_display_tail(c: SpecComparator) -> Seq<char> {
    match c.minor {
        None => spec_decimal(c.major as nat),
        Some(m) => match c.patch {
            None => spec_decimal(c.major as nat) + "."@ + spec_decimal(m as nat),
            Some(p) => {
                let base = spec_decimal(c.major as nat) + "."@ + spec_decimal(m as nat) + "."@
                    + spec_decimal(p as nat);
                if c.pre.len() == 0 {
                    base
                } else {
                    base + "-"@ + c.pre
                }
            },
        },
    }
}

/// Renders a comparator's operator-free canonical text, the display form of
/// an upgraded requirement.
pub fn upgraded_display(c: &Comparator) -> (r: String)
    ensures
        r@ == spec_display_tail(c@),
{
    let mut r = u64_to_string(c.major);
    match c.minor {
        None => {},
        Some(m) => {
            r.append(".");
            let minor = u64_to_string(m);
            r.append(minor.as_str());
            match c.patch {
                None => {},
                Some(p) => {
                    r.append(".");
                    let patch = u64_to_string(p);
                    r.append(patch.as_str());
                    if !c.pre.as_str().is_empty() {
                        r.append("-");
                        r.append(c.pre.as_str());
                    }
                },
            }
        },
    }
    r
}

/// Law: resolving a single caret or exact comparator yields exactly its
/// explicit components, with absent minor or patch defaulted to zero and the
/// pre-release tag carried forward unchanged.
pub proof fn lemma_resolution_components(comps: Seq<SpecComparator>)
    requires
        comps.len() == 1,
        comps[0].op is Caret || comps[0].op is Exact,
    ensures
        spec_min_version(comps) == Ok::<SpecVersion, Seq<char>>(
            SpecVersion {
                major: comps[0].major,
                minor: or_zero(comps[0].minor),
                patch: or_zero(comps[0].patch),
                pre: comps[0].pre,
            },
        ),
{
}

/// Law: resolution fails on every requirement with zero or several
/// comparators, and on every single comparator whose operator is neither
/// caret nor exact.
pub proof fn lemma_resolution_rejects(comps: Seq<SpecComparator>)
    requires
        comps.len() != 1 || comps[0].op is Unsupported,
    ensures
        spec_min_version(comps) is Err,
{
}

} // verus!

