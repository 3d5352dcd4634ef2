//! The per-field converter: from the tri-state outcome of one
//! environment lookup to a typed value, and the mandatory-versus-
//! optional policy applied on top of it.
//!
//! The converter's behaviour, for a variable name and a lookup
//! outcome, is: absent succeeds with `None`; non-text bytes fail as
//! `NotUnicode` with the exact name and bytes; text that the target
//! type rejects fails as `NotParsable` with the exact name and text;
//! text that parses succeeds with `Some` of the parsed value.

use vstd::prelude::*;
use vstd::string::StringExecFns;

use crate::error::{EnvError, EnvErrorView, EnvVarError, EnvVarErrorView};
use crate::parse::FromEnvVar;

verus! {

/// The tri-state outcome of reading one environment variable:
/// absent, present with non-text bytes, or present as text.
#[derive(Clone, Debug, PartialEq, Eq)]
pub enum RawLookupResult {
    Absent,
    NonText { raw_value: Vec<u8> },
    Text { value: String },
}

/// The mathematical model of [`RawLookupResult`].
pub ghost enum RawLookupView {
    Absent,
    NonText(Seq<u8>),
    Text(Seq<char>),
}

impl View for RawLookupResult {
    type V = RawLookupView;

    open spec fn view(&self) -> RawLookupView {
        match self {
            RawLookupResult::Absent => RawLookupView::Absent,
            RawLookupResult::NonText { raw_value } => RawLookupView::NonText(raw_value@),
            RawLookupResult::Text { value } => RawLookupView::Text(value@),
        }
    }
}

/// What the converter returns for a variable name and a lookup
/// outcome.
pub open spec fn spec_from_env_var<T: FromEnvVar>(
    env_var_name: Seq<char>,
    lookup: RawLookupView,
) -> Result<Option<T>, EnvVarErrorView> {
    match lookup {
        RawLookupView::Absent => Ok(None),
        RawLookupView::NonText(raw) => Err(EnvVarErrorView::NotUnicode {
            env_var_name: env_var_name,
            env_var_raw_value: raw,
        }),
        RawLookupView::Text(value) => match T::spec_parse(value) {
            Some(v) => Ok(Some(v)),
            None => Err(EnvVarErrorView::NotParsable {
                env_var_name: env_var_name,
                env_var_value: value,
            }),
        },
    }
}

/// Convert one looked-up variable into an optional typed value.
pub fn from_env_var<T: FromEnvVar>(env_var_name: &str, lookup: RawLookupResult) -> (r: Result<
    Option<T>,
    EnvVarError,
>)
    ensures
        match r {
            Ok(v) => spec_from_env_var::<T>(env_var_name@, lookup@) == Ok::<
                Option<T>,
                EnvVarErrorView,
            >(v),
            Err(e) => spec_from_env_var::<T>(env_var_name@, lookup@) == Err::<
                Option<T>,
                EnvVarErrorView,
            >(e@),
        },
{
    match lookup {
        RawLookupResult::Absent => Ok(None),
        RawLookupResult::NonText { raw_value } => Err(
            EnvVarError::NotUnicode {
                env_var_name: String::from_str(env_var_name),
                env_var_raw_value: raw_value,
            },
        ),
        RawLookupResult::Text { value } => match T::parse_text(value.as_str()) {
            Some(v) => Ok(Some(v)),
            None => Err(
                EnvVarError::NotParsable {
                    env_var_name: String::from_str(env_var_name),
                    env_var_value: value,
                },
            ),
        },
    }
}

/// The policy for a mandatory field: a parsed value is required, an
/// absent variable is the `MandatoryEnvVarNotSet` error, and a
/// converter failure propagates as `InvalidValue`.
pub open spec fn spec_mandatory_field<T: FromEnvVar>(
    env_var_name: Seq<char>,
    lookup: RawLookupView,
) -> Result<T, EnvErrorView> {
    match spec_from_env_var::<T>(env_var_name, lookup) {
        Ok(Some(v)) => Ok(v),
        Ok(None) => Err(EnvErrorView::MandatoryEnvVarNotSet { env_var_name: env_var_name }),
        Err(e) => Err(EnvErrorView::InvalidValue(e)),
    }
}

/// The policy for an optional field: the converter's optional value is
/// kept as-is (`None` is a legitimate final value), and a converter
/// failure propagates as `InvalidValue`.
pub open spec fn spec_optional_field<T: FromEnvVar>(
    env_var_name: Seq<char>,
    lookup: RawLookupView,
) -> Result<Option<T>, EnvErrorView> {
    match spec_from_env_var::<T>(env_var_name, lookup) {
        Ok(v) => Ok(v),
        Err(e) => Err(EnvErrorView::InvalidValue(e)),
    }
}

/// The boolean parse applied to a present text value is
/// case-sensitive: exactly `"true"` yields `Some(true)` and exactly
/// `"false"` yields `Some(false)`, while any other text — other
/// casings included — fails as `NotParsable` carrying the variable
/// name and the exact offending text.
pub proof fn lemma_bool_text_outcomes(env_var_name: Seq<char>, value: Seq<char>)
    ensures
        value == seq!['t', 'r', 'u', 'e'] ==> spec_from_env_var::<bool>(
            env_var_name,
            RawLookupView::Text(value),
        ) == Ok::<Option<bool>, EnvVarErrorView>(Some(true)),
        value == seq!['f', 'a', 'l', 's', 'e'] ==> spec_from_env_var::<bool>(
            env_var_name,
            RawLookupView::Text(value),
        ) == Ok::<Option<bool>, EnvVarErrorView>(Some(false)),
        value != seq!['t', 'r', 'u', 'e'] && value != seq!['f', 'a', 'l', 's', 'e']
            ==> spec_from_env_var::<bool>(env_var_name, RawLookupView::Text(value)) == Err::<
            Option<bool>,
            EnvVarErrorView,
        >(EnvVarErrorView::NotParsable { env_var_name: env_var_name, env_var_value: value }),
{
}

/// An absent variable for an optional field is a success carrying
/// `None`: no error is produced.
pub proof fn lemma_optional_absent<T: FromEnvVar>(env_var_name: Seq<char>)
    ensures
        spec_optional_field::<T>(env_var_name, RawLookupView::Absent) == Ok::<
            Option<T>,
            EnvErrorView,
        >(None),
{
}

/// An absent variable for a mandatory field is the
/// `MandatoryEnvVarNotSet` error carrying the exact derived variable
/// name.
pub proof fn lemma_mandatory_absent<T: FromEnvVar>(env_var_name: Seq<char>)
    ensures
        spec_mandatory_field::<T>(env_var_name, RawLookupView::Absent) == Err::<T, EnvErrorView>(
            EnvErrorView::MandatoryEnvVarNotSet { env_var_name: env_var_name },
        ),
{
}

/// A present variable whose raw value is not valid text is the
/// `NotUnicode` error carrying the exact variable name and raw bytes,
/// under the mandatory and the optional policy alike.
pub proof fn lemma_non_text_either_policy<T: FromEnvVar>(env_var_name: Seq<char>, raw: Seq<u8>)
    ensures
        spec_mandatory_field::<T>(env_var_name, RawLookupView::NonText(raw)) == Err::<
            T,
            EnvErrorView,
        >(
            EnvErrorView::InvalidValue(
                EnvVarErrorView::NotUnicode {
                    env_var_name: env_var_name,
                    env_var_raw_value: raw,
                },
            ),
        ),
        spec_optional_field::<T>(env_var_name, RawLookupView::NonText(raw)) == Err::<
            Option<T>,
            EnvErrorView,
        >(
            EnvErrorView::InvalidValue(
                EnvVarErrorView::NotUnicode {
                    env_var_name: env_var_name,
                    env_var_raw_value: raw,
                },
            ),
        ),
{
}

/// Populate one mandatory field from a looked-up variable.
pub fn mandatory_field<T: FromEnvVar>(env_var_name: &str, lookup: RawLookupResult) -> (r: Result<
    T,
    EnvError,
>)
    ensures
        match r {
            Ok(v) => spec_mandatory_field::<T>(env_var_name@, lookup@) == Ok::<T, EnvErrorView>(v),
            Err(e) => spec_mandatory_field::<T>(env_var_name@, lookup@) == Err::<T, EnvErrorView>(
                e@,
            ),
        },
{
    match from_env_var::<T>(env_var_name, lookup) {
        Ok(Some(v)) => Ok(v),
        Ok(None) => Err(
            EnvError::MandatoryEnvVarNotSet { env_var_name: String::from_str(env_var_name) },
        ),
        Err(e) => Err(EnvError::InvalidValue(e)),
    }
}

/// Populate one optional field from a looked-up variable.
pub fn optional_field<T: FromEnvVar>(env_var_name: &str, lookup: RawLookupResult) -> (r: Result<
    Option<T>,
    EnvError,
>)
    ensures
        match r {
            Ok(v) => spec_optional_field::<T>(env_var_name@, lookup@) == Ok::<
                Option<T>,
                EnvErrorView,
            >(v),
            Err(e) => spec_optional_field::<T>(env_var_name@, lookup@) == Err::<
                Option<T>,
                EnvErrorView,
            >(e@),
        },
{
    match from_env_var::<T>(env_var_name, lookup) {
        Ok(v) => Ok(v),
        Err(e) => Err(EnvError::InvalidValue(e)),
    }
}

} // verus!
