use vstd::prelude::*;

use crate::gucs::{k_in_range, lemma_names_unique, param_name, Param};
use crate::registry::{
    default_value, defaults, initialize_outcome, set_outcome, show_outcome, InitError,
    RegistryModel, SetError, ValueModel,
};

verus! {

/// Right after registration, before any assignment, every parameter shows its
/// default: the key is absent, `k` is 64 and both switches are on.
pub proof fn lemma_defaults_after_initialize(m: RegistryModel, p: Param)
    requires
        m.wf(),
        !m.registered,
    ensures
        initialize_outcome(m) == Ok::<RegistryModel, InitError>(defaults(true)),
        show_outcome(defaults(true), param_name(p)) == Some(default_value(p)),
{
    lemma_names_unique(p);
}

/// Registration happens once: whatever the first call did, a second call fails
/// with `AlreadyRegistered`, and changes nothing.
pub proof fn lemma_initialize_twice_fails(m: RegistryModel)
    requires
        m.wf(),
    ensures
        ({
            let m1 = match initialize_outcome(m) {
                Ok(x) => x,
                Err(_) => m,
            };
            initialize_outcome(m1) == Err::<RegistryModel, InitError>(InitError::AlreadyRegistered)
        }),
{
}

/// A value of `k` outside its bounds is refused, so the stored value stays as it was.
pub proof fn lemma_k_out_of_range_rejected(m: RegistryModel, v: int)
    requires
        m.wf(),
        !k_in_range(v),
    ensures
        set_outcome(m, param_name(Param::K), ValueModel::Int(v)) is Err,
        m.registered ==> set_outcome(m, param_name(Param::K), ValueModel::Int(v)) == Err::<
            RegistryModel,
            SetError,
        >(SetError::OutOfRange),
{
    lemma_names_unique(Param::K);
}

/// A value of `k` within its bounds is accepted, and the next read shows it.
pub proof fn lemma_k_set_then_show(m: RegistryModel, v: int)
    requires
        m.wf(),
        m.registered,
        k_in_range(v),
    ensures
        set_outcome(m, param_name(Param::K), ValueModel::Int(v)) is Ok,
        show_outcome(
            set_outcome(m, param_name(Param::K), ValueModel::Int(v))->Ok_0,
            param_name(Param::K),
        ) == Some(ValueModel::Int(v)),
{
    lemma_names_unique(Param::K);
}

/// The API key reads back exactly as it was set.
pub proof fn lemma_api_key_round_trip(m: RegistryModel, s: Seq<char>)
    requires
        m.wf(),
        m.registered,
    ensures
        set_outcome(m, param_name(Param::OpenaiApiKey), ValueModel::Str(Some(s))) is Ok,
        show_outcome(
            set_outcome(m, param_name(Param::OpenaiApiKey), ValueModel::Str(Some(s)))->Ok_0,
            param_name(Param::OpenaiApiKey),
        ) == Some(ValueModel::Str(Some(s))),
{
    lemma_names_unique(Param::OpenaiApiKey);
}

/// The two switches have separate cells: setting `enable_prefilter` leaves what
/// `enable_vector_index` shows as it was.
pub proof fn lemma_prefilter_independent(m: RegistryModel, b: bool)
    requires
        m.wf(),
        m.registered,
    ensures
        set_outcome(m, param_name(Param::EnablePrefilter), ValueModel::Bool(b)) is Ok,
        show_outcome(
            set_outcome(m, param_name(Param::EnablePrefilter), ValueModel::Bool(b))->Ok_0,
            param_name(Param::EnableVectorIndex),
        ) == show_outcome(m, param_name(Param::EnableVectorIndex)),
        show_outcome(
            set_outcome(m, param_name(Param::EnablePrefilter), ValueModel::Bool(b))->Ok_0,
            param_name(Param::EnablePrefilter),
        ) == Some(ValueModel::Bool(b)),
{
    lemma_names_unique(Param::EnablePrefilter);
    lemma_names_unique(Param::EnableVectorIndex);
}

/// Every accepted assignment and registration keeps the registry well formed;
/// in particular `k` never leaves its bounds.
pub proof fn lemma_wf_preserved(m: RegistryModel, name: Seq<char>, v: ValueModel)
    requires
        m.wf(),
    ensures
        set_outcome(m, name, v) is Ok ==> (set_outcome(m, name, v)->Ok_0).wf(),
        initialize_outcome(m) is Ok ==> (initialize_outcome(m)->Ok_0).wf(),
{
}

} // verus!
