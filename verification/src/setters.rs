//! Mutators: for each field a function that overwrites it.

use vstd::prelude::*;
use vstd::string::*;
use crate::annotation::Annotation;
use crate::annotation::AnnotationView;
use crate::annotation::Literal;
use crate::annotation::LiteralView;
use crate::config::config_from;
use crate::config::parse_sites;
use crate::config::sites;
use crate::config::texts;
use crate::config::Configuration;
use crate::config::Options;
use crate::error::GenError;
use crate::error::GenErrorView;
use crate::output::declarations;
use crate::output::generates;
use crate::output::FunctionKind;
use crate::output::GeneratedFunction;
use crate::output::GeneratedFunctionView;
use crate::output::ImplBlock;
use crate::output::ImplBlockView;
use crate::record::members;
use crate::record::Body;
use crate::record::BodyView;
use crate::record::Field;
use crate::record::FieldView;
use crate::record::Record;
use crate::record::RecordView;

verus! {

/// The name of the annotation sites that configure mutators.
pub open spec fn setters_site() -> Seq<char> {
    "setters"@
}

/// The option names that mutators recognize, on a record and on a field
/// alike.
pub open spec fn setters_keys() -> Seq<Seq<char>> {
    seq!["into"@]
}

/// Whether a configuration asks for converting mutators: `into` must be a
/// boolean where it is set, and is `false` where it is not.
pub open spec fn into_option(options: Options) -> Result<bool, GenErrorView> {
    if !options.contains_key("into"@) {
        Ok(false)
    } else {
        match options["into"@] {
            LiteralView::Bool(flag) => Ok(flag),
            _ => Err(GenErrorView::InvalidOptionType("into"@)),
        }
    }
}

/// Whether the sites named `setters` among a record's `annotations` ask for
/// converting mutators.
pub open spec fn declared_into(annotations: Seq<AnnotationView>) -> Result<bool, GenErrorView> {
    match parse_sites(annotations, setters_site(), setters_keys()) {
        Ok(options) => into_option(options),
        Err(failure) => Err(failure),
    }
}

/// The mutator of a field: named `set_` and the field's name, taking the
/// field's type, or with `into` anything that converts into it.
pub open spec fn mutator_for(field: FieldView, into: bool) -> GeneratedFunctionView {
    GeneratedFunctionView {
        kind: if into {
            FunctionKind::ConvertingMutator
        } else {
            FunctionKind::Mutator
        },
        name: "set_"@ + field.name,
        field: field.name,
        ty: field.ty,
    }
}

/// What one field contributes: its mutator, or the failure of its own
/// `setters` sites. What those sites set plays no part: the record decides
/// whether mutators convert.
pub open spec fn field_mutator(into: bool, field: FieldView) -> Result<
    GeneratedFunctionView,
    GenErrorView,
> {
    match parse_sites(field.annotations, setters_site(), setters_keys()) {
        Err(failure) => Err(failure),
        Ok(_) => Ok(mutator_for(field, into)),
    }
}

/// The mutators of `fields` after those in `emitted`, in field order, up to
/// the first failure.
pub open spec fn mutators_after(
    emitted: Seq<GeneratedFunctionView>,
    into: bool,
    fields: Seq<FieldView>,
) -> Result<Seq<GeneratedFunctionView>, GenErrorView>
    decreases fields.len(),
{
    if fields.len() == 0 {
        Ok(emitted)
    } else {
        match field_mutator(into, fields[0]) {
            Err(failure) => Err(failure),
            Ok(mutator) => mutators_after(emitted.push(mutator), into, fields.skip(1)),
        }
    }
}

/// The implementation block of mutators for a record, or the first failure
/// on the way: the record's own `setters` sites are read first, then the
/// record must have named fields, then each field is taken in order.
pub open spec fn setters_of(record: RecordView) -> Result<ImplBlockView, GenErrorView> {
    match declared_into(record.annotations) {
        Err(failure) => Err(failure),
        Ok(into) => match record.body {
            BodyView::Named(fields) => match mutators_after(Seq::empty(), into, fields) {
                Err(failure) => Err(failure),
                Ok(functions) => Ok(
                    ImplBlockView { name: record.name, generics: record.generics, functions },
                ),
            },
            _ => Err(GenErrorView::UnsupportedShape(record.name)),
        },
    }
}

/// Reads out of a configuration whether mutators convert.
pub fn resolve_into(config: &Configuration) -> (outcome: Result<bool, GenError>)
    ensures
        match outcome {
            Ok(flag) => into_option(config@) == Ok::<bool, GenErrorView>(flag),
            Err(failure) => into_option(config@) == Err::<bool, GenErrorView>(failure@),
        },
{
    match config.get("into") {
        None => Ok(false),
        Some(Literal::Bool(flag)) => Ok(*flag),
        Some(_) => Err(GenError::InvalidOptionType(String::from_str("into"))),
    }
}

/// The option names that mutators recognize.
fn recognized_keys() -> (keys: Vec<String>)
    ensures
        texts(keys@) == setters_keys(),
{
    let mut keys: Vec<String> = Vec::new();
    keys.push(String::from_str("into"));
    assert(texts(keys@) =~= setters_keys());
    keys
}

/// Reads whether the sites named `setters` on a record ask for converting
/// mutators.
fn read_into(annotations: &Vec<Annotation>, keys: &Vec<String>) -> (outcome: Result<
    bool,
    GenError,
>)
    requires
        texts(keys@) == setters_keys(),
    ensures
        match outcome {
            Ok(flag) => declared_into(sites(annotations@)) == Ok::<bool, GenErrorView>(flag),
            Err(failure) => declared_into(sites(annotations@)) == Err::<bool, GenErrorView>(
                failure@,
            ),
        },
{
    match config_from(annotations, "setters", keys) {
        Ok(config) => resolve_into(&config),
        Err(failure) => Err(failure),
    }
}

/// Generates the mutator of one field.
fn expand_field(into: bool, field: &Field, keys: &Vec<String>) -> (outcome: Result<
    GeneratedFunction,
    GenError,
>)
    requires
        texts(keys@) == setters_keys(),
    ensures
        match outcome {
            Ok(mutator) => field_mutator(into, field@) == Ok::<
                GeneratedFunctionView,
                GenErrorView,
            >(mutator@),
            Err(failure) => field_mutator(into, field@) == Err::<
                GeneratedFunctionView,
                GenErrorView,
            >(failure@),
        },
{
    match config_from(&field.annotations, "setters", keys) {
        Err(failure) => Err(failure),
        Ok(_) => Ok(
            GeneratedFunction {
                kind: if into {
                    FunctionKind::ConvertingMutator
                } else {
                    FunctionKind::Mutator
                },
                name: String::from_str("set_").concat(field.name.as_str()),
                field: field.name.clone(),
                ty: field.ty.clone(),
            },
        ),
    }
}

/// Generates the implementation block of mutators for `record`.
///
/// Each field gets a public function named `set_` and the field's name that
/// takes `&mut self` and a value, and overwrites the field with it. With the
/// record's option `into` the value may be of any type that converts into
/// the field's type; without it the value is of exactly that type. A field's
/// own `setters` sites are read as the record's are, and fail as they do, but
/// what they set changes nothing. The first failure ends generation, and
/// nothing is emitted beside it.
pub fn expand_setters(record: &Record) -> (outcome: Result<ImplBlock, GenError>)
    ensures
        generates(outcome, setters_of(record@)),
{
    let keys = recognized_keys();
    let into = match read_into(&record.annotations, &keys) {
        Ok(into) => into,
        Err(failure) => {
            return Err(failure);
        },
    };
    match &record.body {
        Body::Named(fields) => {
            let ghost all = members(fields@);
            let mut functions: Vec<GeneratedFunction> = Vec::new();
            let mut at: usize = 0;
            assert(all.skip(0) =~= all);
            assert(declarations(functions@) =~= Seq::<GeneratedFunctionView>::empty());
            while at < fields.len()
                invariant
                    at <= fields@.len(),
                    all == members(fields@),
                    record@.body == BodyView::Named(all),
                    texts(keys@) == setters_keys(),
                    declared_into(record@.annotations) == Ok::<bool, GenErrorView>(into),
                    mutators_after(declarations(functions@), into, all.skip(at as int))
                        == mutators_after(Seq::empty(), into, all),
                decreases fields@.len() - at,
            {
                proof {
                    assert(all.skip(at as int)[0] == fields@[at as int]@);
                    assert(all.skip(at as int).skip(1) =~= all.skip(at + 1));
                }
                let ghost before = declarations(functions@);
                match expand_field(into, &fields[at], &keys) {
                    Err(failure) => {
                        return Err(failure);
                    },
                    Ok(mutator) => {
                        functions.push(mutator);
                        assert(declarations(functions@) =~= before.push(mutator@));
                    },
                }
                at += 1;
            }
            Ok(
                ImplBlock {
                    name: record.name.clone(),
                    generics: record.generics.clone(),
                    functions,
                },
            )
        },
        _ => Err(GenError::UnsupportedShape(record.name.clone())),
    }
}

} // verus!
