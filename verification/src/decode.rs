//! Envelope decoding: from a parsed JSON document to the closed set of
//! `Interaction` variants.
//!
//! Decoding is discriminant-first: the top-level `type` field selects the
//! variant (1 = Ping, 2 = ApplicationCommand), and each entry of the option
//! list selects its payload by its own `type` discriminant. Every branch
//! checks that the declared and the actual JSON shape agree; an unknown
//! discriminant is a failure, never a default.

use vstd::prelude::*;

use crate::discord::{
    ApplicationCommandData, ApplicationCommandOption, ApplicationCommandOptionType, CommonModel,
    DataModel, Interaction, InteractionCommon, InteractionModel, OptionModel, OptionValueModel,
};
use crate::json::{
    json_get, parse_json, parsed_json, value_as_array, value_as_bool, value_as_i64, value_as_str,
    value_as_u64, value_get, value_is_null, value_model, value_number_text, JsonModel,
};

verus! {

/// Why a request body failed to decode.
#[derive(Clone, Copy, Debug, PartialEq, Eq, Structural)]
pub enum DecodeError {
    /// The body is not valid JSON text.
    InvalidJson,
    /// A required field is absent.
    MissingField,
    /// A `type` discriminant carries a value outside the closed set.
    UnknownDiscriminant,
    /// A field's JSON type disagrees with what its discriminant declares.
    TypeMismatch,
}

/// A required string field: present and a string, or the exact error.
pub open spec fn spec_req_str(j: JsonModel, key: Seq<char>) -> Result<Seq<char>, DecodeError> {
    match json_get(j, key) {
        None => Err(DecodeError::MissingField),
        Some(f) => match f {
            JsonModel::Text(s) => Ok(s),
            _ => Err(DecodeError::TypeMismatch),
        },
    }
}

/// An optional string field: absent or `null` is `None`; any other
/// non-string shape is a mismatch.
pub open spec fn spec_opt_str(j: JsonModel, key: Seq<char>) -> Result<
    Option<Seq<char>>,
    DecodeError,
> {
    match json_get(j, key) {
        None => Ok(None),
        Some(f) => match f {
            JsonModel::Text(s) => Ok(Some(s)),
            JsonModel::Null => Ok(None),
            _ => Err(DecodeError::TypeMismatch),
        },
    }
}

/// A required small-integer field: a nonnegative number no larger than 255.
pub open spec fn spec_req_u8(j: JsonModel, key: Seq<char>) -> Result<u8, DecodeError> {
    match json_get(j, key) {
        None => Err(DecodeError::MissingField),
        Some(f) => match f {
            JsonModel::Num { as_uint: Some(t), .. } => if t <= 255 {
                Ok(t as u8)
            } else {
                Err(DecodeError::TypeMismatch)
            },
            _ => Err(DecodeError::TypeMismatch),
        },
    }
}

/// One option entry's payload, selected by its `type` discriminant 1-11.
/// Discriminants 3, 4 and 5 require the `value` field to be exactly a
/// string, an integer, or a boolean; 10 requires a number, kept as its
/// decimal text; the remaining discriminants carry no scalar payload.
pub open spec fn spec_decode_option_value(j: JsonModel) -> Result<OptionValueModel, DecodeError> {
    match json_get(j, "type"@) {
        None => Err(DecodeError::MissingField),
        Some(tv) => match tv {
            JsonModel::Num { as_uint: Some(t), .. } => {
                if t == 1 {
                    Ok(OptionValueModel::SUB_COMMAND)
                } else if t == 2 {
                    Ok(OptionValueModel::SUB_COMMAND_GROUP)
                } else if t == 3 {
                    match json_get(j, "value"@) {
                        None => Err(DecodeError::MissingField),
                        Some(JsonModel::Text(s)) => Ok(OptionValueModel::STRING(s)),
                        Some(_) => Err(DecodeError::TypeMismatch),
                    }
                } else if t == 4 {
                    match json_get(j, "value"@) {
                        None => Err(DecodeError::MissingField),
                        Some(JsonModel::Num { as_int: Some(i), .. }) => Ok(
                            OptionValueModel::INTEGER(i),
                        ),
                        Some(_) => Err(DecodeError::TypeMismatch),
                    }
                } else if t == 5 {
                    match json_get(j, "value"@) {
                        None => Err(DecodeError::MissingField),
                        Some(JsonModel::Bool(b)) => Ok(OptionValueModel::BOOLEAN(b)),
                        Some(_) => Err(DecodeError::TypeMismatch),
                    }
                } else if t == 6 {
                    Ok(OptionValueModel::USER)
                } else if t == 7 {
                    Ok(OptionValueModel::CHANNEL)
                } else if t == 8 {
                    Ok(OptionValueModel::ROLE)
                } else if t == 9 {
                    Ok(OptionValueModel::MENTIONABLE)
                } else if t == 10 {
                    match json_get(j, "value"@) {
                        None => Err(DecodeError::MissingField),
                        Some(JsonModel::Num { text, .. }) => Ok(OptionValueModel::NUMBER(text)),
                        Some(_) => Err(DecodeError::TypeMismatch),
                    }
                } else if t == 11 {
                    Ok(OptionValueModel::ATTACHMENT)
                } else {
                    Err(DecodeError::UnknownDiscriminant)
                }
            },
            _ => Err(DecodeError::TypeMismatch),
        },
    }
}

/// One option entry: its required `name` and its discriminated payload.
pub open spec fn spec_decode_option(j: JsonModel) -> Result<OptionModel, DecodeError> {
    match spec_req_str(j, "name"@) {
        Err(e) => Err(e),
        Ok(name) => match spec_decode_option_value(j) {
            Err(e) => Err(e),
            Ok(value) => Ok(OptionModel { name, value }),
        },
    }
}

/// An option list, element by element; the first failing entry's error, so
/// no entry is ever dropped silently.
pub open spec fn spec_decode_options(elems: Seq<JsonModel>) -> Result<Seq<OptionModel>, DecodeError>
    decreases elems.len(),
{
    if elems.len() == 0 {
        Ok(Seq::empty())
    } else {
        match spec_decode_options(elems.drop_last()) {
            Err(e) => Err(e),
            Ok(init) => match spec_decode_option(elems.last()) {
                Err(e) => Err(e),
                Ok(o) => Ok(init.push(o)),
            },
        }
    }
}

/// The `options` value itself must be an array.
pub open spec fn spec_decode_options_value(j: JsonModel) -> Result<Seq<OptionModel>, DecodeError> {
    match j {
        JsonModel::Arr(elems) => spec_decode_options(elems),
        _ => Err(DecodeError::TypeMismatch),
    }
}

/// The optional `options` field: absent or `null` is `None`.
pub open spec fn spec_opt_options(j: JsonModel) -> Result<Option<Seq<OptionModel>>, DecodeError> {
    match json_get(j, "options"@) {
        None => Ok(None),
        Some(f) => match f {
            JsonModel::Null => Ok(None),
            _ => match spec_decode_options_value(f) {
                Err(e) => Err(e),
                Ok(s) => Ok(Some(s)),
            },
        },
    }
}

/// The command payload: `id`, dispatch `name`, command kind `type`, and the
/// optional option list.
pub open spec fn spec_decode_data(j: JsonModel) -> Result<DataModel, DecodeError> {
    match spec_req_str(j, "id"@) {
        Err(e) => Err(e),
        Ok(id) => match spec_req_str(j, "name"@) {
            Err(e) => Err(e),
            Ok(name) => match spec_req_u8(j, "type"@) {
                Err(e) => Err(e),
                Ok(t) => match spec_opt_options(j) {
                    Err(e) => Err(e),
                    Ok(options) => Ok(DataModel { id, name, t, options }),
                },
            },
        },
    }
}

/// The calling context, read from the top-level object; unrelated fields
/// are ignored.
pub open spec fn spec_decode_common(j: JsonModel) -> Result<CommonModel, DecodeError> {
    match spec_opt_str(j, "guild_id"@) {
        Err(e) => Err(e),
        Ok(guild_id) => match spec_opt_str(j, "channel_id"@) {
            Err(e) => Err(e),
            Ok(channel_id) => match spec_req_str(j, "token"@) {
                Err(e) => Err(e),
                Ok(token) => match spec_req_str(j, "id"@) {
                    Err(e) => Err(e),
                    Ok(id) => match spec_req_str(j, "application_id"@) {
                        Err(e) => Err(e),
                        Ok(application_id) => Ok(
                            CommonModel { guild_id, channel_id, token, id, application_id },
                        ),
                    },
                },
            },
        },
    }
}

/// A whole interaction envelope: the top-level `type` discriminant selects
/// the variant; 1 is a probe, 2 requires a `data` object; anything else
/// fails.
pub open spec fn spec_decode_interaction(j: JsonModel) -> Result<InteractionModel, DecodeError> {
    match json_get(j, "type"@) {
        None => Err(DecodeError::MissingField),
        Some(tv) => match tv {
            JsonModel::Num { as_uint: Some(t), .. } => {
                if t == 1 {
                    Ok(InteractionModel::Ping)
                } else if t == 2 {
                    match json_get(j, "data"@) {
                        None => Err(DecodeError::MissingField),
                        Some(d) => match spec_decode_data(d) {
                            Err(e) => Err(e),
                            Ok(data) => match spec_decode_common(j) {
                                Err(e) => Err(e),
                                Ok(interaction) => Ok(
                                    InteractionModel::ApplicationCommand { data, interaction },
                                ),
                            },
                        },
                    }
                } else {
                    Err(DecodeError::UnknownDiscriminant)
                }
            },
            _ => Err(DecodeError::TypeMismatch),
        },
    }
}

/// Decoding is a total function over the discriminant space: it succeeds
/// only when the top-level `type` is the number 1 or 2; every other value of
/// the field yields a failure, never a default variant.
pub proof fn lemma_decode_rejects_unknown_discriminant(j: JsonModel)
    ensures
        spec_decode_interaction(j) is Ok ==> (json_get(j, "type"@) matches Some(tv)
            && tv matches JsonModel::Num { as_uint, .. } && (as_uint == Some(1u64) || as_uint
            == Some(2u64))),
{
}

// ----- executable decoding -----

fn req_str(v: &serde_json::Value, key: &str) -> (r: Result<String, DecodeError>)
    ensures
        (match (r, spec_req_str(value_model(*v), key@)) {
            (Ok(s), Ok(m)) => s@ == m,
            (Err(e1), Err(e2)) => e1 == e2,
            _ => false,
        }),
{
    match value_get(v, key) {
        None => Err(DecodeError::MissingField),
        Some(f) => match value_as_str(f) {
            Some(s) => Ok(String::from_str(s)),
            None => Err(DecodeError::TypeMismatch),
        },
    }
}

fn opt_str(v: &serde_json::Value, key: &str) -> (r: Result<Option<String>, DecodeError>)
    ensures
        (match (r, spec_opt_str(value_model(*v), key@)) {
            (Ok(s), Ok(m)) => s.deep_view() == m,
            (Err(e1), Err(e2)) => e1 == e2,
            _ => false,
        }),
{
    match value_get(v, key) {
        None => Ok(None),
        Some(f) => match value_as_str(f) {
            Some(s) => Ok(Some(String::from_str(s))),
            None => if value_is_null(f) {
                Ok(None)
            } else {
                Err(DecodeError::TypeMismatch)
            },
        },
    }
}

fn req_u8(v: &serde_json::Value, key: &str) -> (r: Result<u8, DecodeError>)
    ensures
        (match (r, spec_req_u8(value_model(*v), key@)) {
            (Ok(t), Ok(m)) => t == m,
            (Err(e1), Err(e2)) => e1 == e2,
            _ => false,
        }),
{
    match value_get(v, key) {
        None => Err(DecodeError::MissingField),
        Some(f) => match value_as_u64(f) {
            Some(t) => if t <= 255 {
                Ok(t as u8)
            } else {
                Err(DecodeError::TypeMismatch)
            },
            None => Err(DecodeError::TypeMismatch),
        },
    }
}

fn decode_option_value(v: &serde_json::Value) -> (r: Result<
    ApplicationCommandOptionType,
    DecodeError,
>)
    ensures
        (match (r, spec_decode_option_value(value_model(*v))) {
            (Ok(o), Ok(m)) => o@ == m,
            (Err(e1), Err(e2)) => e1 == e2,
            _ => false,
        }),
{
    let tv = match value_get(v, "type") {
        None => {
            return Err(DecodeError::MissingField);
        },
        Some(f) => f,
    };
    let t = match value_as_u64(tv) {
        None => {
            return Err(DecodeError::TypeMismatch);
        },
        Some(t) => t,
    };
    if t == 1 {
        Ok(ApplicationCommandOptionType::SUB_COMMAND)
    } else if t == 2 {
        Ok(ApplicationCommandOptionType::SUB_COMMAND_GROUP)
    } else if t == 3 {
        match value_get(v, "value") {
            None => Err(DecodeError::MissingField),
            Some(f) => match value_as_str(f) {
                Some(s) => Ok(ApplicationCommandOptionType::STRING(String::from_str(s))),
                None => Err(DecodeError::TypeMismatch),
            },
        }
    } else if t == 4 {
        match value_get(v, "value") {
            None => Err(DecodeError::MissingField),
            Some(f) => match value_as_i64(f) {
                Some(i) => Ok(ApplicationCommandOptionType::INTEGER(i)),
                None => Err(DecodeError::TypeMismatch),
            },
        }
    } else if t == 5 {
        match value_get(v, "value") {
            None => Err(DecodeError::MissingField),
            Some(f) => match value_as_bool(f) {
                Some(b) => Ok(ApplicationCommandOptionType::BOOLEAN(b)),
                None => Err(DecodeError::TypeMismatch),
            },
        }
    } else if t == 6 {
        Ok(ApplicationCommandOptionType::USER)
    } else if t == 7 {
        Ok(ApplicationCommandOptionType::CHANNEL)
    } else if t == 8 {
        Ok(ApplicationCommandOptionType::ROLE)
    } else if t == 9 {
        Ok(ApplicationCommandOptionType::MENTIONABLE)
    } else if t == 10 {
        match value_get(v, "value") {
            None => Err(DecodeError::MissingField),
            Some(f) => match value_number_text(f) {
                Some(s) => Ok(ApplicationCommandOptionType::NUMBER(s)),
                None => Err(DecodeError::TypeMismatch),
            },
        }
    } else if t == 11 {
        Ok(ApplicationCommandOptionType::ATTACHMENT)
    } else {
        Err(DecodeError::UnknownDiscriminant)
    }
}

fn decode_option(v: &serde_json::Value) -> (r: Result<ApplicationCommandOption, DecodeError>)
    ensures
        (match (r, spec_decode_option(value_model(*v))) {
            (Ok(o), Ok(m)) => o@ == m,
            (Err(e1), Err(e2)) => e1 == e2,
            _ => false,
        }),
{
    let name = match req_str(v, "name") {
        Err(e) => {
            return Err(e);
        },
        Ok(s) => s,
    };
    let value = match decode_option_value(v) {
        Err(e) => {
            return Err(e);
        },
        Ok(o) => o,
    };
    Ok(ApplicationCommandOption { name, value })
}

proof fn lemma_options_err_extends(elems: Seq<JsonModel>, k: int, m: int)
    requires
        0 <= k <= m <= elems.len(),
        spec_decode_options(elems.take(k)) is Err,
    ensures
        spec_decode_options(elems.take(m)) == spec_decode_options(elems.take(k)),
    decreases m - k,
{
    if m > k {
        lemma_options_err_extends(elems, k, m - 1);
        assert(elems.take(m).drop_last() =~= elems.take(m - 1));
    }
}

fn decode_options_value(v: &serde_json::Value) -> (r: Result<
    Vec<ApplicationCommandOption>,
    DecodeError,
>)
    ensures
        (match (r, spec_decode_options_value(value_model(*v))) {
            (Ok(os), Ok(m)) => os@.map_values(|o: ApplicationCommandOption| o@) == m,
            (Err(e1), Err(e2)) => e1 == e2,
            _ => false,
        }),
{
    let arr = match value_as_array(v) {
        None => {
            return Err(DecodeError::TypeMismatch);
        },
        Some(a) => a,
    };
    let ghost elems = value_model(*v)->Arr_0;
    let mut out: Vec<ApplicationCommandOption> = Vec::new();
    let mut i: usize = 0;
    proof {
        assert(elems.take(0) =~= Seq::<JsonModel>::empty());
        assert(out@.map_values(|o: ApplicationCommandOption| o@) =~= Seq::<OptionModel>::empty());
    }
    while i < arr.len()
        invariant
            value_model(*v) == JsonModel::Arr(elems),
            arr@.len() == elems.len(),
            forall|k: int| 0 <= k < elems.len() ==> value_model(arr@[k]) == elems[k],
            i <= elems.len(),
            spec_decode_options(elems.take(i as int)) == Ok::<Seq<OptionModel>, DecodeError>(
                out@.map_values(|o: ApplicationCommandOption| o@),
            ),
        decreases arr@.len() - i,
    {
        let o = match decode_option(&arr[i]) {
            Err(e) => {
                proof {
                    assert(elems.take(i + 1).drop_last() =~= elems.take(i as int));
                    assert(elems.take(i + 1).last() == elems[i as int]);
                    assert(spec_decode_options(elems.take(i + 1)) == Err::<
                        Seq<OptionModel>,
                        DecodeError,
                    >(e));
                    lemma_options_err_extends(elems, i + 1, elems.len() as int);
                    assert(elems.take(elems.len() as int) =~= elems);
                }
                return Err(e);
            },
            Ok(o) => o,
        };
        let ghost prev = out@;
        out.push(o);
        proof {
            assert(out@ =~= prev.push(o));
            assert(out@.map_values(|x: ApplicationCommandOption| x@) =~= prev.map_values(
                |x: ApplicationCommandOption| x@,
            ).push(o@));
            assert(elems.take(i + 1).drop_last() =~= elems.take(i as int));
            assert(elems.take(i + 1).last() == elems[i as int]);
        }
        i = i + 1;
    }
    proof {
        assert(elems.take(elems.len() as int) =~= elems);
    }
    Ok(out)
}

fn decode_data(v: &serde_json::Value) -> (r: Result<ApplicationCommandData, DecodeError>)
    ensures
        (match (r, spec_decode_data(value_model(*v))) {
            (Ok(d), Ok(m)) => d@ == m,
            (Err(e1), Err(e2)) => e1 == e2,
            _ => false,
        }),
{
    let id = match req_str(v, "id") {
        Err(e) => {
            return Err(e);
        },
        Ok(s) => s,
    };
    let name = match req_str(v, "name") {
        Err(e) => {
            return Err(e);
        },
        Ok(s) => s,
    };
    let t = match req_u8(v, "type") {
        Err(e) => {
            return Err(e);
        },
        Ok(t) => t,
    };
    let options: Option<Vec<ApplicationCommandOption>> = match value_get(v, "options") {
        None => None,
        Some(f) => {
            if value_is_null(f) {
                None
            } else {
                match decode_options_value(f) {
                    Err(e) => {
                        return Err(e);
                    },
                    Ok(os) => Some(os),
                }
            }
        },
    };
    Ok(ApplicationCommandData { id, name, t, options })
}

fn decode_common(v: &serde_json::Value) -> (r: Result<InteractionCommon, DecodeError>)
    ensures
        (match (r, spec_decode_common(value_model(*v))) {
            (Ok(c), Ok(m)) => c@ == m,
            (Err(e1), Err(e2)) => e1 == e2,
            _ => false,
        }),
{
    let guild_id = match opt_str(v, "guild_id") {
        Err(e) => {
            return Err(e);
        },
        Ok(s) => s,
    };
    let channel_id = match opt_str(v, "channel_id") {
        Err(e) => {
            return Err(e);
        },
        Ok(s) => s,
    };
    let token = match req_str(v, "token") {
        Err(e) => {
            return Err(e);
        },
        Ok(s) => s,
    };
    let id = match req_str(v, "id") {
        Err(e) => {
            return Err(e);
        },
        Ok(s) => s,
    };
    let application_id = match req_str(v, "application_id") {
        Err(e) => {
            return Err(e);
        },
        Ok(s) => s,
    };
    Ok(InteractionCommon { guild_id, channel_id, token, id, application_id })
}

fn decode_value(v: &serde_json::Value) -> (r: Result<Interaction, DecodeError>)
    ensures
        (match (r, spec_decode_interaction(value_model(*v))) {
            (Ok(i), Ok(m)) => i@ == m,
            (Err(e1), Err(e2)) => e1 == e2,
            _ => false,
        }),
{
    let tv = match value_get(v, "type") {
        None => {
            return Err(DecodeError::MissingField);
        },
        Some(f) => f,
    };
    let t = match value_as_u64(tv) {
        None => {
            return Err(DecodeError::TypeMismatch);
        },
        Some(t) => t,
    };
    if t == 1 {
        Ok(Interaction::Ping)
    } else if t == 2 {
        let dv = match value_get(v, "data") {
            None => {
                return Err(DecodeError::MissingField);
            },
            Some(f) => f,
        };
        let data = match decode_data(dv) {
            Err(e) => {
                return Err(e);
            },
            Ok(d) => d,
        };
        let interaction = match decode_common(v) {
            Err(e) => {
                return Err(e);
            },
            Ok(c) => c,
        };
        Ok(Interaction::ApplicationCommand { data, interaction })
    } else {
        Err(DecodeError::UnknownDiscriminant)
    }
}

impl Interaction {
    /// Decode a request body into an `Interaction`: the body must be valid
    /// JSON denoting an envelope whose `type` discriminant is 1 or 2, with
    /// the fields that discriminant requires; anything else is the exact
    /// error the envelope's first fault earns.
    pub fn decode(body: &str) -> (r: Result<Interaction, DecodeError>)
        ensures
            (match parsed_json(body@) {
                Some(m) => (match (r, spec_decode_interaction(m)) {
                    (Ok(i), Ok(im)) => i@ == im,
                    (Err(e1), Err(e2)) => e1 == e2,
                    _ => false,
                }),
                None => r matches Err(e) && e == DecodeError::InvalidJson,
            }),
    {
        match parse_json(body) {
            Err(_) => Err(DecodeError::InvalidJson),
            Ok(v) => decode_value(&v),
        }
    }
}

} // verus!
