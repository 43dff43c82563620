//! The OAM schematics: components, their parameters, configurations, traits
//! and scopes.
use vstd::prelude::*;
use crate::strings::{find_char, first_index_of, lemma_first_index_at, lemma_first_index_facts};
use crate::strmap::StrMap;

pub mod parameter;
pub mod scopes;
pub mod variable;
pub mod traits;
pub mod configuration;
pub mod component;
pub mod component_instance;

verus! {

/// Application defines a Hydra application
#[derive(Debug)]
pub struct Application {}

/// HydraStatus is the status of a Hydra object, per Kubernetes.
#[derive(Debug)]
pub struct HydraStatus {
    pub phase: Option<String>,
    pub components: Option<StrMap<StrMap<String>>>,
}

impl Default for HydraStatus {
    fn default() -> (s: Self)
        ensures
            s.phase is None,
            s.components is None,
    {
        HydraStatus { phase: None, components: None }
    }
}

/// Status is a convenience for an optional HydraStatus.
pub type Status = Option<HydraStatus>;

impl HydraStatus {
    pub fn new(phase: Option<String>, components: Option<StrMap<StrMap<String>>>) -> (s: HydraStatus)
        ensures
            s.phase == phase,
            s.components == components,
    {
        HydraStatus { phase, components }
    }
}

/// GroupVersionKind represents a fully qualified identifier for a resource type.
///
/// It is, as the name suggests, composed of three pieces of information:
/// - Group is a namespace
/// - Version is an API version
/// - Kind is the actual type marker
#[derive(Clone, Debug, PartialEq)]
pub struct GroupVersionKind {
    pub group: String,
    pub version: String,
    pub kind: String,
}

/// Why a text is not a group, version and kind.
#[derive(Debug, PartialEq, Eq, Structural)]
pub enum GvkError {
    MissingVersionAndKind,
    MissingKind,
}

impl GvkError {
    pub fn to_string(&self) -> (s: String)
        ensures
            s@ == match self {
                GvkError::MissingVersionAndKind => "missing version and kind"@,
                GvkError::MissingKind => "missing kind"@,
            },
    {
        match self {
            GvkError::MissingVersionAndKind => "missing version and kind".to_string(),
            GvkError::MissingKind => "missing kind".to_string(),
        }
    }
}

/// How a text `GROUP/VERSION.KIND` splits: the group ends at the first `/`,
/// the version at the first `.` after it.
pub open spec fn spec_parse_gvk(s: Seq<char>) -> Result<(Seq<char>, Seq<char>, Seq<char>), GvkError> {
    match first_index_of(s, '/') {
        None => Err(GvkError::MissingVersionAndKind),
        Some(i) => {
            let rest = s.subrange(i + 1, s.len() as int);
            match first_index_of(rest, '.') {
                None => Err(GvkError::MissingKind),
                Some(j) => Ok((s.subrange(0, i), rest.subrange(0, j), rest.subrange(j + 1, rest.len() as int))),
            }
        },
    }
}

/// A group without `/` and a version without `.` are read back from their text.
pub proof fn lemma_gvk_round_trip(g: Seq<char>, v: Seq<char>, k: Seq<char>)
    requires
        forall|i: int| 0 <= i < g.len() ==> g[i] != '/',
        forall|i: int| 0 <= i < v.len() ==> v[i] != '.',
    ensures
        spec_parse_gvk(g + seq!['/'] + v + seq!['.'] + k) == Ok::<(Seq<char>, Seq<char>, Seq<char>), GvkError>((g, v, k)),
{
    let s = g + seq!['/'] + v + seq!['.'] + k;
    lemma_first_index_at(s, '/', g.len() as int);
    let rest = s.subrange(g.len() as int + 1, s.len() as int);
    assert(rest =~= v + seq!['.'] + k);
    lemma_first_index_at(rest, '.', v.len() as int);
    assert(s.subrange(0, g.len() as int) =~= g);
    assert(rest.subrange(0, v.len() as int) =~= v);
    assert(rest.subrange(v.len() as int + 1, rest.len() as int) =~= k);
}

/// GroupVersionKind represents a canonical name, composed of group, version, and (you guessed it) kind.
///
/// Group is a dotted name. While the specification requires at least one dot in the group, we do not enforce.
/// Version is an API version
/// Kind the name of the type
impl GroupVersionKind {
    /// Create a new GroupVersionKind from each component.
    ///
    /// This does not check the formatting of each part.
    pub fn new(group: &str, version: &str, kind: &str) -> (g: GroupVersionKind)
        ensures
            g.group@ == group@,
            g.version@ == version@,
            g.kind@ == kind@,
    {
        GroupVersionKind { group: group.to_string(), version: version.to_string(), kind: kind.to_string() }
    }

    /// Parse a string `GROUP/VERSION.KIND` into a GroupVersionKind.
    pub fn parse(gvp: &str) -> (r: Result<GroupVersionKind, GvkError>)
        ensures
            match r {
                Ok(g) => spec_parse_gvk(gvp@) == Ok::<(Seq<char>, Seq<char>, Seq<char>), GvkError>((g.group@, g.version@, g.kind@)),
                Err(e) => spec_parse_gvk(gvp@) == Err::<(Seq<char>, Seq<char>, Seq<char>), GvkError>(e),
            },
    {
        let n = gvp.unicode_len();
        match find_char(gvp, '/') {
            None => Err(GvkError::MissingVersionAndKind),
            Some(i) => {
                proof {
                    lemma_first_index_facts(gvp@, '/');
                }
                let rest = gvp.substring_char(i + 1, n);
                match find_char(rest, '.') {
                    None => Err(GvkError::MissingKind),
                    Some(j) => {
                        proof {
                            lemma_first_index_facts(rest@, '.');
                        }
                        let m = rest.unicode_len();
                        let group = gvp.substring_char(0, i).to_string();
                        let version = rest.substring_char(0, j).to_string();
                        let kind = rest.substring_char(j + 1, m).to_string();
                        Ok(GroupVersionKind { group, version, kind })
                    },
                }
            },
        }
    }
}

impl std::str::FromStr for GroupVersionKind {
    type Err = GvkError;

    /// Parse a string into a GroupVersionKind.
    fn from_str(gvp: &str) -> (r: Result<GroupVersionKind, GvkError>)
        ensures
            match r {
                Ok(g) => spec_parse_gvk(gvp@) == Ok::<(Seq<char>, Seq<char>, Seq<char>), GvkError>((g.group@, g.version@, g.kind@)),
                Err(e) => spec_parse_gvk(gvp@) == Err::<(Seq<char>, Seq<char>, Seq<char>), GvkError>(e),
            },
    {
        GroupVersionKind::parse(gvp)
    }
}

} // verus!
