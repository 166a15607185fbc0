use vectors::gucs::{
    all_params, descriptor, param_by_name, Kind, Param, Scope, ENABLE_DEFAULT, K_DEFAULT, K_MAX,
    K_MIN,
};
use vectors::registry::{GucValue, InitError, Registry, SetError};

fn registered() -> Registry {
    let mut r = Registry::new();
    assert_eq!(r.initialize(), Ok(()));
    r
}

#[test]
fn defaults_after_initialize() {
    let r = registered();
    assert_eq!(r.get_api_key(), None);
    assert_eq!(r.get_k(), 64);
    assert!(r.get_enable_vector_index());
    assert!(r.get_enable_prefilter());
    assert_eq!(r.show("vectors.openai_api_key"), Some(GucValue::Str(None)));
    assert_eq!(r.show("vectors.k"), Some(GucValue::Int(64)));
    assert_eq!(r.show("vectors.enable_vector_index"), Some(GucValue::Bool(true)));
    assert_eq!(r.show("vectors.enable_prefilter"), Some(GucValue::Bool(true)));
}

#[test]
fn initialize_twice_fails_and_keeps_values() {
    let mut r = registered();
    assert_eq!(r.set("vectors.k", GucValue::Int(7)), Ok(()));
    assert_eq!(r.initialize(), Err(InitError::AlreadyRegistered));
    assert!(r.is_registered());
    assert_eq!(r.get_k(), 7);
    assert_eq!(r.initialize(), Err(InitError::AlreadyRegistered));
}

#[test]
fn k_zero_and_above_max_rejected() {
    let mut r = registered();
    assert_eq!(r.set("vectors.k", GucValue::Int(0)), Err(SetError::OutOfRange));
    assert_eq!(r.get_k(), 64);
    assert_eq!(r.set("vectors.k", GucValue::Int(65536)), Err(SetError::OutOfRange));
    assert_eq!(r.get_k(), 64);
    assert_eq!(r.set("vectors.k", GucValue::Int(100000)), Err(SetError::OutOfRange));
    assert_eq!(r.set("vectors.k", GucValue::Int(-1)), Err(SetError::OutOfRange));
    assert_eq!(r.set("vectors.k", GucValue::Int(200)), Ok(()));
    assert_eq!(r.set("vectors.k", GucValue::Int(0)), Err(SetError::OutOfRange));
    assert_eq!(r.get_k(), 200);
}

#[test]
fn k_within_bounds_read_back() {
    let mut r = registered();
    for v in [1, 2, 64, 1000, 65534, 65535] {
        assert_eq!(r.set("vectors.k", GucValue::Int(v)), Ok(()));
        assert_eq!(r.get_k(), v);
        assert_eq!(r.show("vectors.k"), Some(GucValue::Int(v)));
    }
}

#[test]
fn api_key_round_trip() {
    let mut r = registered();
    for key in ["sk-abc123", "  padded  ", "", "ключ"] {
        let v = GucValue::Str(Some(key.to_string()));
        assert_eq!(r.set("vectors.openai_api_key", v), Ok(()));
        assert_eq!(r.get_api_key(), Some(key.to_string()));
    }
    assert_eq!(r.show("vectors.openai_api_key"), Some(GucValue::Str(Some("ключ".to_string()))));
    assert_eq!(r.set("vectors.openai_api_key", GucValue::Str(None)), Ok(()));
    assert_eq!(r.get_api_key(), None);
}

#[test]
fn empty_key_differs_from_absent() {
    let mut r = registered();
    assert_eq!(r.set("vectors.openai_api_key", GucValue::Str(Some(String::new()))), Ok(()));
    assert_eq!(r.get_api_key(), Some(String::new()));
    assert_ne!(r.get_api_key(), None);
}

#[test]
fn prefilter_and_vector_index_are_independent() {
    let mut r = registered();
    assert_eq!(r.set("vectors.enable_prefilter", GucValue::Bool(false)), Ok(()));
    assert!(!r.get_enable_prefilter());
    assert!(r.get_enable_vector_index());
    assert_eq!(r.set("vectors.enable_vector_index", GucValue::Bool(false)), Ok(()));
    assert_eq!(r.set("vectors.enable_prefilter", GucValue::Bool(true)), Ok(()));
    assert!(r.get_enable_prefilter());
    assert!(!r.get_enable_vector_index());
}

#[test]
fn unknown_name_rejected() {
    let mut r = registered();
    assert_eq!(r.set("vectors.kk", GucValue::Int(3)), Err(SetError::UnknownParameter));
    assert_eq!(r.set("k", GucValue::Int(3)), Err(SetError::UnknownParameter));
    assert_eq!(r.set("", GucValue::Bool(true)), Err(SetError::UnknownParameter));
    assert_eq!(r.show("vectors.K"), None);
    assert_eq!(r.get_k(), 64);
}

#[test]
fn wrong_type_rejected() {
    let mut r = registered();
    assert_eq!(r.set("vectors.k", GucValue::Bool(true)), Err(SetError::WrongType));
    assert_eq!(
        r.set("vectors.enable_prefilter", GucValue::Int(0)),
        Err(SetError::WrongType)
    );
    assert_eq!(
        r.set("vectors.openai_api_key", GucValue::Int(1)),
        Err(SetError::WrongType)
    );
    assert_eq!(
        r.set("vectors.enable_vector_index", GucValue::Str(Some("on".to_string()))),
        Err(SetError::WrongType)
    );
    assert!(r.get_enable_prefilter());
    assert!(r.get_enable_vector_index());
    assert_eq!(r.get_api_key(), None);
}

#[test]
fn nothing_known_before_initialize() {
    let mut r = Registry::new();
    assert!(!r.is_registered());
    assert_eq!(r.set("vectors.k", GucValue::Int(5)), Err(SetError::UnknownParameter));
    assert_eq!(r.show("vectors.k"), None);
    assert_eq!(r.get_k(), 64);
    assert_eq!(r.initialize(), Ok(()));
    assert_eq!(r.get_k(), 64);
}

#[test]
fn lookup_by_name() {
    assert_eq!(param_by_name("vectors.openai_api_key"), Some(Param::OpenaiApiKey));
    assert_eq!(param_by_name("vectors.k"), Some(Param::K));
    assert_eq!(param_by_name("vectors.enable_vector_index"), Some(Param::EnableVectorIndex));
    assert_eq!(param_by_name("vectors.enable_prefilter"), Some(Param::EnablePrefilter));
    assert_eq!(param_by_name("vectors.enable_prefilte"), None);
    assert_eq!(param_by_name("vectors.k "), None);
    for p in all_params() {
        assert_eq!(param_by_name(descriptor(p).name), Some(p));
    }
}

#[test]
fn descriptors_as_registered() {
    assert_eq!(
        all_params(),
        vec![Param::OpenaiApiKey, Param::K, Param::EnableVectorIndex, Param::EnablePrefilter]
    );
    let d = descriptor(Param::OpenaiApiKey);
    assert_eq!(d.name, "vectors.openai_api_key");
    assert_eq!(d.short_description, "The API key of OpenAI.");
    assert_eq!(d.long_description, "The OpenAI API key is required to use OpenAI embedding.");
    assert_eq!(d.kind, Kind::OptionalString);
    let d = descriptor(Param::K);
    assert_eq!(d.name, "vectors.k");
    assert_eq!(d.short_description, "The number of nearest neighbors to return for searching.");
    assert_eq!(d.long_description, "The number of nearest neighbors to return for searching.");
    assert_eq!(d.kind, Kind::Int { default: 64, min: 1, max: 65535 });
    let d = descriptor(Param::EnableVectorIndex);
    assert_eq!(d.name, "vectors.enable_vector_index");
    assert_eq!(d.short_description, "Whether to enable vector index.");
    assert_eq!(
        d.long_description,
        "When enabled, it will use existing vector index to speed up the search."
    );
    assert_eq!(d.kind, Kind::Bool(true));
    let d = descriptor(Param::EnablePrefilter);
    assert_eq!(d.name, "vectors.enable_prefilter");
    assert_eq!(d.short_description, "Whether to enable prefilter.");
    assert_eq!(
        d.long_description,
        "When enabled, it will use prefilter to reduce the number of vectors to search."
    );
    assert_eq!(d.kind, Kind::Bool(true));
    for p in all_params() {
        assert_eq!(descriptor(p).scope, Scope::Userset);
    }
}

#[test]
fn constants() {
    assert_eq!(K_MIN, 1);
    assert_eq!(K_MAX, u16::MAX as i32);
    assert_eq!(K_DEFAULT, 64);
    assert!(ENABLE_DEFAULT);
}
