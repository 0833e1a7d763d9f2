use vstd::prelude::*;

verus! {

#[verifier::external_type_specification]
#[verifier::external_body]
pub struct ExJsonValue(serde_json::Value);

/// Relies on `serde_json::Value::pointer`: looks a value up by a JSON
/// pointer; an empty pointer gives the value itself.
pub assume_specification<'a>[ serde_json::Value::pointer ](
    v: &'a serde_json::Value,
    pointer: &str,
) -> (r: Option<&'a serde_json::Value>)
    ensures
        pointer@.len() == 0 ==> r == Some(v),
;

/// Relies on `serde_json::Value::as_str`: the text of a JSON string, `None`
/// for any other kind of value.
pub assume_specification<'a>[ serde_json::Value::as_str ](v: &'a serde_json::Value) -> (r: Option<
    &'a str,
>);

/// Relies on `serde_json::Value::as_bool`: the value of a JSON boolean,
/// `None` for any other kind of value.
pub assume_specification[ serde_json::Value::as_bool ](v: &serde_json::Value) -> (r: Option<bool>);

/// The model chosen when the configuration names none.
pub open spec fn fallback_model() -> Seq<char> {
    "llama3"@
}

/// The client's settings: the model to talk to and whether the conversation
/// view follows new text.
pub struct Settings {
    pub default_model: String,
    pub scroll_lock: bool,
}

impl Settings {
    /// Settings from the configured values: a missing model falls back to
    /// [`fallback_model`], a missing scroll lock to on.
    pub fn from_values(model: Option<&str>, scroll_lock: Option<bool>) -> (r: Settings)
        ensures
            r.default_model@ == match model {
                Some(m) => m@,
                None => fallback_model(),
            },
            r.scroll_lock == match scroll_lock {
                Some(b) => b,
                None => true,
            },
    {
        let mut name = String::new();
        match model {
            Some(m) => name.append(m),
            None => name.append("llama3"),
        }
        let lock = match scroll_lock {
            Some(b) => b,
            None => true,
        };
        Settings { default_model: name, scroll_lock: lock }
    }

    /// Settings read from a JSON configuration: the string at
    /// `default_model` and the boolean at `scroll_lock`, each falling back as
    /// [`Settings::from_values`] says when missing or of another kind.
    pub fn from_json(cfg: &serde_json::Value) -> (r: Settings) {
        let model = match cfg.pointer("/default_model") {
            Some(v) => v.as_str(),
            None => None,
        };
        let lock = match cfg.pointer("/scroll_lock") {
            Some(v) => v.as_bool(),
            None => None,
        };
        Settings::from_values(model, lock)
    }
}

} // verus!
