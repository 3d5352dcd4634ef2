//! The error taxonomy of the loader.
//!
//! `EnvVarError` describes one variable whose value exists but cannot
//! be used: the bytes are not valid text, or the text does not parse
//! into the target type.  `EnvError` is the whole-assembly error: an
//! invalid value, or a mandatory variable that is absent.  Every error
//! carries the derived variable name, so a caller can diagnose without
//! re-deriving names.

use vstd::prelude::*;

verus! {

/// A variable that is present but unusable.
#[derive(Clone, Debug, PartialEq, Eq)]
pub enum EnvVarError {
    /// The variable's raw value is not valid text.
    NotUnicode { env_var_name: String, env_var_raw_value: Vec<u8> },
    /// The variable's text does not parse into the target type.
    NotParsable { env_var_name: String, env_var_value: String },
}

/// The mathematical model of [`EnvVarError`].
pub ghost enum EnvVarErrorView {
    NotUnicode { env_var_name: Seq<char>, env_var_raw_value: Seq<u8> },
    NotParsable { env_var_name: Seq<char>, env_var_value: Seq<char> },
}

impl View for EnvVarError {
    type V = EnvVarErrorView;

    open spec fn view(&self) -> EnvVarErrorView {
        match self {
            EnvVarError::NotUnicode { env_var_name, env_var_raw_value } => EnvVarErrorView::NotUnicode {
                env_var_name: env_var_name@,
                env_var_raw_value: env_var_raw_value@,
            },
            EnvVarError::NotParsable { env_var_name, env_var_value } => EnvVarErrorView::NotParsable {
                env_var_name: env_var_name@,
                env_var_value: env_var_value@,
            },
        }
    }
}

/// The error that halts one assembly attempt.
#[derive(Clone, Debug, PartialEq, Eq)]
pub enum EnvError {
    /// A variable is present but unusable.
    InvalidValue(EnvVarError),
    /// A mandatory field's variable is absent.
    MandatoryEnvVarNotSet { env_var_name: String },
}

/// The mathematical model of [`EnvError`].
pub ghost enum EnvErrorView {
    InvalidValue(EnvVarErrorView),
    MandatoryEnvVarNotSet { env_var_name: Seq<char> },
}

impl View for EnvError {
    type V = EnvErrorView;

    open spec fn view(&self) -> EnvErrorView {
        match self {
            EnvError::InvalidValue(e) => EnvErrorView::InvalidValue(e@),
            EnvError::MandatoryEnvVarNotSet { env_var_name } => EnvErrorView::MandatoryEnvVarNotSet {
                env_var_name: env_var_name@,
            },
        }
    }
}

} // verus!
