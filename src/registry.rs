use vstd::prelude::*;

use crate::gucs::{
    param_by_name, param_named, k_in_range, Param, ENABLE_DEFAULT, K_DEFAULT, K_MAX, K_MIN,
};

verus! {

/// A value as the host hands it over when a parameter is set, or shows it.
#[derive(Debug, PartialEq, Eq)]
pub enum GucValue {
    Str(Option<String>),
    Int(i32),
    Bool(bool),
}

/// The mathematical model of a `GucValue`.
pub enum ValueModel {
    Str(Option<Seq<char>>),
    Int(int),
    Bool(bool),
}

pub open spec fn opt_str_view(s: Option<String>) -> Option<Seq<char>> {
    match s {
        Some(t) => Some(t@),
        None => None,
    }
}

impl View for GucValue {
    type V = ValueModel;

    open spec fn view(&self) -> ValueModel {
        match self {
            GucValue::Str(s) => ValueModel::Str(opt_str_view(*s)),
            GucValue::Int(n) => ValueModel::Int(*n as int),
            GucValue::Bool(b) => ValueModel::Bool(*b),
        }
    }
}

pub open spec fn opt_value_view(v: Option<GucValue>) -> Option<ValueModel> {
    match v {
        Some(x) => Some(x@),
        None => None,
    }
}

/// Why an assignment was refused.
#[derive(Clone, Copy, Debug, PartialEq, Eq, Structural)]
pub enum SetError {
    /// No parameter of that name is registered.
    UnknownParameter,
    /// The value is not of the parameter's type.
    WrongType,
    /// The value lies outside the parameter's bounds.
    OutOfRange,
}

/// Why registration failed.
#[derive(Clone, Copy, Debug, PartialEq, Eq, Structural)]
pub enum InitError {
    /// The parameters were registered before.
    AlreadyRegistered,
}

/// The state of the registry: its phase, and the current value of each parameter.
/// Each boolean switch has its own cell.
pub struct RegistryModel {
    pub registered: bool,
    pub api_key: Option<Seq<char>>,
    pub k: int,
    pub enable_vector_index: bool,
    pub enable_prefilter: bool,
}

/// Every parameter at its default.
pub open spec fn defaults(registered: bool) -> RegistryModel {
    RegistryModel {
        registered,
        api_key: None,
        k: K_DEFAULT as int,
        enable_vector_index: ENABLE_DEFAULT,
        enable_prefilter: ENABLE_DEFAULT,
    }
}

impl RegistryModel {
    /// `k` lies within its bounds, and nothing is assigned before registration.
    pub open spec fn wf(self) -> bool {
        &&& k_in_range(self.k)
        &&& !self.registered ==> self == defaults(false)
    }

    /// The current value of `p`.
    pub open spec fn value_of(self, p: Param) -> ValueModel {
        match p {
            Param::OpenaiApiKey => ValueModel::Str(self.api_key),
            Param::K => ValueModel::Int(self.k),
            Param::EnableVectorIndex => ValueModel::Bool(self.enable_vector_index),
            Param::EnablePrefilter => ValueModel::Bool(self.enable_prefilter),
        }
    }
}

/// The value a parameter has before anything is assigned to it.
pub open spec fn default_value(p: Param) -> ValueModel {
    match p {
        Param::OpenaiApiKey => ValueModel::Str(None),
        Param::K => ValueModel::Int(K_DEFAULT as int),
        Param::EnableVectorIndex => ValueModel::Bool(ENABLE_DEFAULT),
        Param::EnablePrefilter => ValueModel::Bool(ENABLE_DEFAULT),
    }
}

/// The state after registration, or the error when it was done before.
pub open spec fn initialize_outcome(m: RegistryModel) -> Result<RegistryModel, InitError> {
    if m.registered {
        Err(InitError::AlreadyRegistered)
    } else {
        Ok(RegistryModel { registered: true, ..m })
    }
}

/// The state after `p` is given the value `v`, or the reason it is refused.
pub open spec fn assign(m: RegistryModel, p: Param, v: ValueModel) -> Result<RegistryModel, SetError> {
    match (p, v) {
        (Param::OpenaiApiKey, ValueModel::Str(s)) => Ok(RegistryModel { api_key: s, ..m }),
        (Param::K, ValueModel::Int(n)) => if k_in_range(n) {
            Ok(RegistryModel { k: n, ..m })
        } else {
            Err(SetError::OutOfRange)
        },
        (Param::EnableVectorIndex, ValueModel::Bool(b)) => Ok(
            RegistryModel { enable_vector_index: b, ..m },
        ),
        (Param::EnablePrefilter, ValueModel::Bool(b)) => Ok(
            RegistryModel { enable_prefilter: b, ..m },
        ),
        _ => Err(SetError::WrongType),
    }
}

/// The state after the parameter named `name` is set to `v`, or the reason it is refused.
pub open spec fn set_outcome(m: RegistryModel, name: Seq<char>, v: ValueModel) -> Result<
    RegistryModel,
    SetError,
> {
    if !m.registered {
        Err(SetError::UnknownParameter)
    } else {
        match param_named(name) {
            Some(p) => assign(m, p, v),
            None => Err(SetError::UnknownParameter),
        }
    }
}

/// What showing the parameter named `name` yields.
pub open spec fn show_outcome(m: RegistryModel, name: Seq<char>) -> Option<ValueModel> {
    if !m.registered {
        None
    } else {
        match param_named(name) {
            Some(p) => Some(m.value_of(p)),
            None => None,
        }
    }
}

/// The configuration registry: registered once, then read and assigned by name.
pub struct Registry {
    registered: bool,
    api_key: Option<String>,
    k: i32,
    enable_vector_index: bool,
    enable_prefilter: bool,
}

impl View for Registry {
    type V = RegistryModel;

    closed spec fn view(&self) -> RegistryModel {
        RegistryModel {
            registered: self.registered,
            api_key: opt_str_view(self.api_key),
            k: self.k as int,
            enable_vector_index: self.enable_vector_index,
            enable_prefilter: self.enable_prefilter,
        }
    }
}

impl Registry {
    #[verifier::type_invariant]
    spec fn inv(&self) -> bool {
        self@.wf()
    }

    /// The registry before registration, every parameter at its default.
    pub fn new() -> (r: Registry)
        ensures
            r@ == defaults(false),
    {
        Registry {
            registered: false,
            api_key: None,
            k: K_DEFAULT,
            enable_vector_index: ENABLE_DEFAULT,
            enable_prefilter: ENABLE_DEFAULT,
        }
    }

    /// Registers the parameters; a second call fails and changes nothing.
    pub fn initialize(&mut self) -> (r: Result<(), InitError>)
        ensures
            match initialize_outcome(old(self)@) {
                Ok(m) => r is Ok && final(self)@ == m,
                Err(e) => r == Err::<(), InitError>(e) && final(self)@ == old(self)@,
            },
    {
        proof {
            use_type_invariant(&*self);
        }
        if self.registered {
            Err(InitError::AlreadyRegistered)
        } else {
            self.registered = true;
            Ok(())
        }
    }

    pub fn is_registered(&self) -> (r: bool)
        ensures
            r == self@.registered,
    {
        self.registered
    }

    /// Sets the parameter named `name` to `value`; on error nothing changes.
    pub fn set(&mut self, name: &str, value: GucValue) -> (r: Result<(), SetError>)
        ensures
            match set_outcome(old(self)@, name@, value@) {
                Ok(m) => r is Ok && final(self)@ == m,
                Err(e) => r == Err::<(), SetError>(e) && final(self)@ == old(self)@,
            },
    {
        proof {
            use_type_invariant(&*self);
        }
        if !self.registered {
            return Err(SetError::UnknownParameter);
        }
        match param_by_name(name) {
            None => Err(SetError::UnknownParameter),
            Some(p) => match (p, value) {
                (Param::OpenaiApiKey, GucValue::Str(s)) => {
                    self.api_key = s;
                    Ok(())
                },
                (Param::K, GucValue::Int(n)) => {
                    if K_MIN <= n && n <= K_MAX {
                        self.k = n;
                        Ok(())
                    } else {
                        Err(SetError::OutOfRange)
                    }
                },
                (Param::EnableVectorIndex, GucValue::Bool(b)) => {
                    self.enable_vector_index = b;
                    Ok(())
                },
                (Param::EnablePrefilter, GucValue::Bool(b)) => {
                    self.enable_prefilter = b;
                    Ok(())
                },
                _ => Err(SetError::WrongType),
            },
        }
    }

    /// The current value of the parameter named `name`, if it is registered.
    pub fn show(&self, name: &str) -> (r: Option<GucValue>)
        ensures
            opt_value_view(r) == show_outcome(self@, name@),
    {
        if !self.registered {
            return None;
        }
        match param_by_name(name) {
            None => None,
            Some(Param::OpenaiApiKey) => Some(GucValue::Str(self.get_api_key())),
            Some(Param::K) => Some(GucValue::Int(self.get_k())),
            Some(Param::EnableVectorIndex) => Some(GucValue::Bool(self.get_enable_vector_index())),
            Some(Param::EnablePrefilter) => Some(GucValue::Bool(self.get_enable_prefilter())),
        }
    }

    /// The API key, or `None` when no key is set.
    pub fn get_api_key(&self) -> (r: Option<String>)
        ensures
            opt_str_view(r) == self@.api_key,
    {
        match &self.api_key {
            Some(s) => Some(s.clone()),
            None => None,
        }
    }

    /// The number of nearest neighbours to return; always within its bounds.
    pub fn get_k(&self) -> (r: i32)
        ensures
            r as int == self@.k,
            K_MIN <= r <= K_MAX,
    {
        proof {
            use_type_invariant(self);
        }
        self.k
    }

    pub fn get_enable_vector_index(&self) -> (r: bool)
        ensures
            r == self@.enable_vector_index,
    {
        self.enable_vector_index
    }

    pub fn get_enable_prefilter(&self) -> (r: bool)
        ensures
            r == self@.enable_prefilter,
    {
        self.enable_prefilter
    }
}

} // verus!
