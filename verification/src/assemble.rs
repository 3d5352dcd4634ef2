//! The structure assembler: derive one variable name per field,
//! convert, and apply the mandatory-versus-optional policy, stopping
//! at the first failure.
//!
//! A target structure is described by its field list in declaration
//! order — each field an identifier and its optionality — together
//! with the structure-level prefix.  Assembly yields one value slot
//! per field (`None` marking an optional field whose variable is
//! absent), or the single error that halted it.  A structure with no
//! named fields is a configuration-authoring error and is rejected at
//! definition time, so assembly demands a non-empty field list.

use vstd::prelude::*;

use crate::convert::{mandatory_field, optional_field, spec_mandatory_field, spec_optional_field, RawLookupView};
use crate::environment::{spec_env_lookup, Environment};
use crate::error::{EnvError, EnvErrorView};
use crate::name::{derive_env_var_name, spec_derived_name};
use crate::parse::FromEnvVar;

verus! {

/// The description of one field of the target structure: its
/// identifier and whether its declared type is an optional wrapper.
#[derive(Clone, Debug, PartialEq, Eq)]
pub struct FieldDecl {
    pub name: String,
    pub optional: bool,
}

/// The mathematical model of [`FieldDecl`].
pub ghost struct FieldView {
    pub name: Seq<char>,
    pub optional: bool,
}

impl View for FieldDecl {
    type V = FieldView;

    open spec fn view(&self) -> FieldView {
        FieldView { name: self.name@, optional: self.optional }
    }
}

/// A type whose values are populated from a recorded environment.
///
/// The per-structure body is written by hand from the verified
/// pieces of this crate: derive each field's name, look it up,
/// convert, and apply the field's policy in declaration order.
pub trait FromEnv: Sized {
    fn from_env(env: &Environment) -> Result<Self, EnvError>;
}

/// The value slot one field contributes, or the error that halts
/// assembly: the optional or mandatory policy applied to the field's
/// derived name, with a mandatory value wrapped in `Some` so that
/// every slot has one shape.
pub open spec fn spec_field_value<T: FromEnvVar>(
    prefix: Option<Seq<char>>,
    field: FieldView,
    env: Seq<(Seq<char>, RawLookupView)>,
) -> Result<Option<T>, EnvErrorView> {
    let var_name = spec_derived_name(prefix, field.name);
    let lookup = spec_env_lookup(env, var_name);
    if field.optional {
        spec_optional_field::<T>(var_name, lookup)
    } else {
        match spec_mandatory_field::<T>(var_name, lookup) {
            Ok(v) => Ok(Some(v)),
            Err(e) => Err(e),
        }
    }
}

/// What assembling a field list yields: one slot per field in
/// declaration order, or the first failure.
pub open spec fn spec_assemble<T: FromEnvVar>(
    prefix: Option<Seq<char>>,
    fields: Seq<FieldView>,
    env: Seq<(Seq<char>, RawLookupView)>,
) -> Result<Seq<Option<T>>, EnvErrorView>
    decreases fields.len(),
{
    if fields.len() == 0 {
        Ok(Seq::empty())
    } else {
        match spec_field_value::<T>(prefix, fields[0], env) {
            Ok(v) => match spec_assemble::<T>(prefix, fields.drop_first(), env) {
                Ok(rest) => Ok(seq![v] + rest),
                Err(e) => Err(e),
            },
            Err(e) => Err(e),
        }
    }
}

/// Assembling one more field extends a successful assembly by that
/// field's slot, and fails with that field's error otherwise.
pub proof fn lemma_assemble_snoc<T: FromEnvVar>(
    prefix: Option<Seq<char>>,
    fields: Seq<FieldView>,
    field: FieldView,
    env: Seq<(Seq<char>, RawLookupView)>,
)
    ensures
        spec_assemble::<T>(prefix, fields, env) matches Err(e) ==> spec_assemble::<T>(
            prefix,
            fields.push(field),
            env,
        ) == Err::<Seq<Option<T>>, EnvErrorView>(e),
        spec_field_value::<T>(prefix, field, env) matches Err(e) ==> (spec_assemble::<T>(
            prefix,
            fields,
            env,
        ) is Ok ==> spec_assemble::<T>(prefix, fields.push(field), env) == Err::<
            Seq<Option<T>>,
            EnvErrorView,
        >(e)),
        spec_assemble::<T>(prefix, fields, env) matches Ok(vs) ==> (spec_field_value::<T>(
            prefix,
            field,
            env,
        ) matches Ok(v) ==> spec_assemble::<T>(prefix, fields.push(field), env) == Ok::<
            Seq<Option<T>>,
            EnvErrorView,
        >(vs.push(v))),
    decreases fields.len(),
{
    if fields.len() == 0 {
        assert(fields.push(field)[0] == field);
        assert(fields.push(field).drop_first() =~= fields);
        match spec_field_value::<T>(prefix, field, env) {
            Ok(v) => {
                assert(spec_assemble::<T>(prefix, fields, env) == Ok::<
                    Seq<Option<T>>,
                    EnvErrorView,
                >(Seq::<Option<T>>::empty()));
                assert(spec_assemble::<T>(prefix, fields.push(field), env) == Ok::<
                    Seq<Option<T>>,
                    EnvErrorView,
                >(seq![v] + Seq::<Option<T>>::empty()));
                assert(seq![v] + Seq::<Option<T>>::empty() =~= Seq::<Option<T>>::empty().push(v));
            },
            Err(_) => {},
        }
    } else {
        lemma_assemble_snoc::<T>(prefix, fields.drop_first(), field, env);
        assert(fields.push(field)[0] == fields[0]);
        assert(fields.push(field).drop_first() =~= fields.drop_first().push(field));
        match spec_field_value::<T>(prefix, fields[0], env) {
            Ok(v0) => {
                match spec_assemble::<T>(prefix, fields.drop_first(), env) {
                    Ok(rest) => {
                        match spec_field_value::<T>(prefix, field, env) {
                            Ok(v) => {
                                assert(spec_assemble::<T>(prefix, fields.drop_first().push(field), env)
                                    == Ok::<Seq<Option<T>>, EnvErrorView>(rest.push(v)));
                                assert(spec_assemble::<T>(prefix, fields.push(field), env) == Ok::<
                                    Seq<Option<T>>,
                                    EnvErrorView,
                                >(seq![v0] + rest.push(v)));
                                assert(seq![v0] + rest.push(v) =~= (seq![v0] + rest).push(v));
                            },
                            Err(_) => {},
                        }
                    },
                    Err(_) => {},
                }
            },
            Err(_) => {},
        }
    }
}

/// The first failure wins: once a field list fails to assemble,
/// appending further fields leaves the same error.
pub proof fn lemma_assemble_err_extend<T: FromEnvVar>(
    prefix: Option<Seq<char>>,
    fields: Seq<FieldView>,
    more: Seq<FieldView>,
    env: Seq<(Seq<char>, RawLookupView)>,
)
    ensures
        spec_assemble::<T>(prefix, fields, env) matches Err(e) ==> spec_assemble::<T>(
            prefix,
            fields + more,
            env,
        ) == Err::<Seq<Option<T>>, EnvErrorView>(e),
    decreases fields.len(),
{
    if spec_assemble::<T>(prefix, fields, env) is Err {
        assert(fields.len() > 0);
        assert((fields + more)[0] == fields[0]);
        assert((fields + more).len() > 0);
        match spec_field_value::<T>(prefix, fields[0], env) {
            Ok(_) => {
                assert((fields + more).drop_first() =~= fields.drop_first() + more);
                lemma_assemble_err_extend::<T>(prefix, fields.drop_first(), more, env);
            },
            Err(_) => {},
        }
    }
}

/// The shape of a successful assembly: one slot per field, each slot
/// exactly the field's own outcome, and every mandatory field's slot
/// populated.
pub proof fn lemma_assemble_ok_shape<T: FromEnvVar>(
    prefix: Option<Seq<char>>,
    fields: Seq<FieldView>,
    env: Seq<(Seq<char>, RawLookupView)>,
    values: Seq<Option<T>>,
)
    requires
        spec_assemble::<T>(prefix, fields, env) == Ok::<Seq<Option<T>>, EnvErrorView>(values),
    ensures
        values.len() == fields.len(),
        forall|i: int|
            0 <= i < fields.len() ==> #[trigger] spec_field_value::<T>(prefix, fields[i], env)
                == Ok::<Option<T>, EnvErrorView>(values[i]),
        forall|i: int| 0 <= i < fields.len() && !fields[i].optional ==> values[i] is Some,
    decreases fields.len(),
{
    if fields.len() == 0 {
    } else {
        match spec_field_value::<T>(prefix, fields[0], env) {
            Ok(v) => {
                match spec_assemble::<T>(prefix, fields.drop_first(), env) {
                    Ok(rest) => {
                        lemma_assemble_ok_shape::<T>(prefix, fields.drop_first(), env, rest);
                        assert(values =~= seq![v] + rest);
                        assert forall|i: int| 0 <= i < fields.len() implies #[trigger]
                        spec_field_value::<T>(prefix, fields[i], env) == Ok::<
                            Option<T>,
                            EnvErrorView,
                        >(values[i]) by {
                            if i > 0 {
                                assert(fields.drop_first()[i - 1] == fields[i]);
                                assert(rest[i - 1] == values[i]);
                            }
                        }
                        assert forall|i: int|
                            0 <= i < fields.len() && !fields[i].optional implies values[i]
                            is Some by {
                            assert(spec_field_value::<T>(prefix, fields[i], env) == Ok::<
                                Option<T>,
                                EnvErrorView,
                            >(values[i]));
                            match spec_mandatory_field::<T>(
                                spec_derived_name(prefix, fields[i].name),
                                spec_env_lookup(env, spec_derived_name(prefix, fields[i].name)),
                            ) {
                                Ok(_) => {},
                                Err(_) => {},
                            }
                        }
                    },
                    Err(_) => {},
                }
            },
            Err(_) => {},
        }
    }
}

/// Assemble a described structure from a recorded environment.
///
/// Fields are processed in declaration order; the first failure halts
/// assembly and is returned as the overall result.  On success the
/// result holds one slot per field: the parsed value of a mandatory
/// field, and the optional value — possibly `None` — of an optional
/// one.
pub fn assemble<T: FromEnvVar>(
    prefix: Option<&str>,
    fields: &Vec<FieldDecl>,
    env: &Environment,
) -> (r: Result<Vec<Option<T>>, EnvError>)
    requires
        fields@.len() > 0,
    ensures
        match r {
            Ok(values) => spec_assemble::<T>(
                match prefix {
                    Some(p) => Some(p@),
                    None => None,
                },
                fields@.map_values(|f: FieldDecl| f@),
                env@,
            ) == Ok::<Seq<Option<T>>, EnvErrorView>(values@),
            Err(e) => spec_assemble::<T>(
                match prefix {
                    Some(p) => Some(p@),
                    None => None,
                },
                fields@.map_values(|f: FieldDecl| f@),
                env@,
            ) == Err::<Seq<Option<T>>, EnvErrorView>(e@),
        },
{
    let ghost prefix_view: Option<Seq<char>> = match prefix {
        Some(p) => Some(p@),
        None => None,
    };
    let ghost field_views: Seq<FieldView> = fields@.map_values(|f: FieldDecl| f@);
    let mut values: Vec<Option<T>> = Vec::new();
    let mut i: usize = 0;
    while i < fields.len()
        invariant
            i <= fields@.len(),
            prefix_view == match prefix {
                Some(p) => Some(p@),
                None => None,
            },
            field_views == fields@.map_values(|f: FieldDecl| f@),
            field_views.len() == fields@.len(),
            spec_assemble::<T>(prefix_view, field_views.take(i as int), env@) == Ok::<
                Seq<Option<T>>,
                EnvErrorView,
            >(values@),
        decreases fields@.len() - i,
    {
        let field = &fields[i];
        let var_name = derive_env_var_name(prefix, field.name.as_str());
        let lookup = env.lookup(&var_name);
        proof {
            assert(field_views[i as int] == fields@[i as int]@);
            assert(var_name@ == spec_derived_name(prefix_view, field_views[i as int].name));
        }
        let slot: Option<T> = if field.optional {
            match optional_field::<T>(var_name.as_str(), lookup) {
                Ok(v) => v,
                Err(e) => {
                    proof {
                        lemma_assemble_snoc::<T>(
                            prefix_view,
                            field_views.take(i as int),
                            field_views[i as int],
                            env@,
                        );
                        assert(field_views.take(i as int).push(field_views[i as int])
                            =~= field_views.take(i + 1));
                        assert(field_views.take(i + 1) + field_views.skip(i + 1) =~= field_views);
                        lemma_assemble_err_extend::<T>(
                            prefix_view,
                            field_views.take(i + 1),
                            field_views.skip(i + 1),
                            env@,
                        );
                    }
                    return Err(e);
                },
            }
        } else {
            match mandatory_field::<T>(var_name.as_str(), lookup) {
                Ok(v) => Some(v),
                Err(e) => {
                    proof {
                        lemma_assemble_snoc::<T>(
                            prefix_view,
                            field_views.take(i as int),
                            field_views[i as int],
                            env@,
                        );
                        assert(field_views.take(i as int).push(field_views[i as int])
                            =~= field_views.take(i + 1));
                        assert(field_views.take(i + 1) + field_views.skip(i + 1) =~= field_views);
                        lemma_assemble_err_extend::<T>(
                            prefix_view,
                            field_views.take(i + 1),
                            field_views.skip(i + 1),
                            env@,
                        );
                    }
                    return Err(e);
                },
            }
        };
        values.push(slot);
        proof {
            lemma_assemble_snoc::<T>(
                prefix_view,
                field_views.take(i as int),
                field_views[i as int],
                env@,
            );
            assert(field_views.take(i as int).push(field_views[i as int]) =~= field_views.take(
                i + 1,
            ));
        }
        i = i + 1;
    }
    proof {
        assert(field_views.take(field_views.len() as int) =~= field_views);
    }
    Ok(values)
}

} // verus!
