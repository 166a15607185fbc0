use vstd::prelude::*;
use vstd::string::*;

verus! {

/// Smallest value accepted for `vectors.k`.
pub const K_MIN: i32 = 1;

/// Largest value accepted for `vectors.k` (the largest `u16`).
pub const K_MAX: i32 = 65535;

/// Default of `vectors.k`.
pub const K_DEFAULT: i32 = 64;

/// Default of both boolean switches.
pub const ENABLE_DEFAULT: bool = true;

/// The runtime parameters of the vector search extension.
#[derive(Clone, Copy, Debug, PartialEq, Eq, Structural)]
pub enum Param {
    OpenaiApiKey,
    K,
    EnableVectorIndex,
    EnablePrefilter,
}

/// Who may change a parameter.
#[derive(Clone, Copy, Debug, PartialEq, Eq, Structural)]
pub enum Scope {
    /// Only an administrator.
    Superuser,
    /// Any session.
    Userset,
}

/// The type of a parameter, with its default and, for integers, its inclusive bounds.
#[derive(Clone, Copy, Debug, PartialEq, Eq, Structural)]
pub enum Kind {
    /// A string that may be absent; absent by default.
    OptionalString,
    Int { default: i32, min: i32, max: i32 },
    /// A switch, with its default.
    Bool(bool),
}

/// What is registered with the host for one parameter.
#[derive(Clone, Copy, Debug)]
pub struct Descriptor {
    pub name: &'static str,
    pub short_description: &'static str,
    pub long_description: &'static str,
    pub kind: Kind,
    pub scope: Scope,
}

pub open spec fn k_in_range(v: int) -> bool {
    K_MIN <= v <= K_MAX
}

/// The name under which a parameter is known to the host.
pub open spec fn param_name(p: Param) -> Seq<char> {
    match p {
        Param::OpenaiApiKey => "vectors.openai_api_key"@,
        Param::K => "vectors.k"@,
        Param::EnableVectorIndex => "vectors.enable_vector_index"@,
        Param::EnablePrefilter => "vectors.enable_prefilter"@,
    }
}

pub open spec fn short_description(p: Param) -> Seq<char> {
    match p {
        Param::OpenaiApiKey => "The API key of OpenAI."@,
        Param::K => "The number of nearest neighbors to return for searching."@,
        Param::EnableVectorIndex => "Whether to enable vector index."@,
        Param::EnablePrefilter => "Whether to enable prefilter."@,
    }
}

pub open spec fn long_description(p: Param) -> Seq<char> {
    match p {
        Param::OpenaiApiKey => "The OpenAI API key is required to use OpenAI embedding."@,
        Param::K => "The number of nearest neighbors to return for searching."@,
        Param::EnableVectorIndex =>
            "When enabled, it will use existing vector index to speed up the search."@,
        Param::EnablePrefilter =>
            "When enabled, it will use prefilter to reduce the number of vectors to search."@,
    }
}

pub open spec fn param_kind(p: Param) -> Kind {
    match p {
        Param::OpenaiApiKey => Kind::OptionalString,
        Param::K => Kind::Int { default: K_DEFAULT, min: K_MIN, max: K_MAX },
        Param::EnableVectorIndex => Kind::Bool(ENABLE_DEFAULT),
        Param::EnablePrefilter => Kind::Bool(ENABLE_DEFAULT),
    }
}

/// The parameter registered under `name`, if any.
pub open spec fn param_named(name: Seq<char>) -> Option<Param> {
    if name == param_name(Param::OpenaiApiKey) {
        Some(Param::OpenaiApiKey)
    } else if name == param_name(Param::K) {
        Some(Param::K)
    } else if name == param_name(Param::EnableVectorIndex) {
        Some(Param::EnableVectorIndex)
    } else if name == param_name(Param::EnablePrefilter) {
        Some(Param::EnablePrefilter)
    } else {
        None
    }
}

/// All parameters, in the order in which they are registered.
pub open spec fn all_params_spec() -> Seq<Param> {
    seq![Param::OpenaiApiKey, Param::K, Param::EnableVectorIndex, Param::EnablePrefilter]
}

/// The descriptor registered for `p`.
pub fn descriptor(p: Param) -> (d: Descriptor)
    ensures
        d.name@ == param_name(p),
        d.short_description@ == short_description(p),
        d.long_description@ == long_description(p),
        d.kind == param_kind(p),
        d.scope == Scope::Userset,
{
    match p {
        Param::OpenaiApiKey => Descriptor {
            name: "vectors.openai_api_key",
            short_description: "The API key of OpenAI.",
            long_description: "The OpenAI API key is required to use OpenAI embedding.",
            kind: Kind::OptionalString,
            scope: Scope::Userset,
        },
        Param::K => Descriptor {
            name: "vectors.k",
            short_description: "The number of nearest neighbors to return for searching.",
            long_description: "The number of nearest neighbors to return for searching.",
            kind: Kind::Int { default: K_DEFAULT, min: K_MIN, max: K_MAX },
            scope: Scope::Userset,
        },
        Param::EnableVectorIndex => Descriptor {
            name: "vectors.enable_vector_index",
            short_description: "Whether to enable vector index.",
            long_description:
                "When enabled, it will use existing vector index to speed up the search.",
            kind: Kind::Bool(ENABLE_DEFAULT),
            scope: Scope::Userset,
        },
        Param::EnablePrefilter => Descriptor {
            name: "vectors.enable_prefilter",
            short_description: "Whether to enable prefilter.",
            long_description:
                "When enabled, it will use prefilter to reduce the number of vectors to search.",
            kind: Kind::Bool(ENABLE_DEFAULT),
            scope: Scope::Userset,
        },
    }
}

/// All parameters, in the order in which they are registered.
pub fn all_params() -> (r: Vec<Param>)
    ensures
        r@ == all_params_spec(),
{
    let r = vec![Param::OpenaiApiKey, Param::K, Param::EnableVectorIndex, Param::EnablePrefilter];
    assert(r@ =~= all_params_spec());
    r
}

/// Compares two strings character by character.
fn str_eq(a: &str, b: &str) -> (r: bool)
    ensures
        r == (a@ == b@),
{
    let n = a.unicode_len();
    if n != b.unicode_len() {
        return false;
    }
    let mut i: usize = 0;
    while i < n
        invariant
            n == a@.len(),
            n == b@.len(),
            i <= n,
            forall|j: int| 0 <= j < i ==> a@[j] == b@[j],
        decreases n - i,
    {
        if a.get_char(i) != b.get_char(i) {
            return false;
        }
        i += 1;
    }
    assert(a@ =~= b@);
    true
}

/// The parameter registered under `name`, if any.
pub fn param_by_name(name: &str) -> (r: Option<Param>)
    ensures
        r == param_named(name@),
{
    if str_eq(name, descriptor(Param::OpenaiApiKey).name) {
        Some(Param::OpenaiApiKey)
    } else if str_eq(name, descriptor(Param::K).name) {
        Some(Param::K)
    } else if str_eq(name, descriptor(Param::EnableVectorIndex).name) {
        Some(Param::EnableVectorIndex)
    } else if str_eq(name, descriptor(Param::EnablePrefilter).name) {
        Some(Param::EnablePrefilter)
    } else {
        None
    }
}

/// Parameter names are unique: looking up the name of a parameter finds that parameter.
pub proof fn lemma_names_unique(p: Param)
    ensures
        param_named(param_name(p)) == Some(p),
{
    reveal_strlit("vectors.openai_api_key");
    reveal_strlit("vectors.k");
    reveal_strlit("vectors.enable_vector_index");
    reveal_strlit("vectors.enable_prefilter");
    assert(param_name(Param::OpenaiApiKey).len() == 22);
    assert(param_name(Param::K).len() == 9);
    assert(param_name(Param::EnableVectorIndex).len() == 27);
    assert(param_name(Param::EnablePrefilter).len() == 24);
}

} // verus!
