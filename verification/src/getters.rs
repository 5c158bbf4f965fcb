//! Accessors: for each field that does not opt out, a function that reads
//! it.

use vstd::prelude::*;
use vstd::string::*;
use crate::annotation::Annotation;
use crate::annotation::AnnotationView;
use crate::annotation::Literal;
use crate::config::config_from;
use crate::config::parse_sites;
use crate::config::sites;
use crate::config::texts;
use crate::config::Configuration;
use crate::config::Options;
use crate::error::GenError;
use crate::error::GenErrorView;
use crate::output::declarations;
use crate::output::generates;
use crate::output::FunctionKind;
use crate::output::GeneratedFunction;
use crate::output::GeneratedFunctionView;
use crate::output::ImplBlock;
use crate::output::ImplBlockView;
use crate::record::members;
use crate::record::Body;
use crate::record::BodyView;
use crate::record::Field;
use crate::record::FieldView;
use crate::record::Record;
use crate::record::RecordView;

verus! {

/// The name of the annotation sites that configure accessors.
pub open spec fn getters_site() -> Seq<char> {
    "getters"@
}

/// The option names that accessors recognize.
pub open spec fn getters_keys() -> Seq<Seq<char>> {
    seq!["ignore"@, "return_type"@]
}

/// The accessor options that one scope sets, each absent where the scope
/// does not speak of it.
#[derive(Debug, PartialEq, Eq)]
pub struct AccessorOptions {
    /// Whether no accessor is generated.
    pub ignore: Option<bool>,
    /// The declared return type of the accessor.
    pub return_type: Option<String>,
}

/// The mathematical value of [`AccessorOptions`].
pub struct AccessorOptionsView {
    pub ignore: Option<bool>,
    pub return_type: Option<Seq<char>>,
}

impl View for AccessorOptions {
    type V = AccessorOptionsView;

    open spec fn view(&self) -> AccessorOptionsView {
        AccessorOptionsView {
            ignore: self.ignore,
            return_type: match self.return_type {
                Some(ty) => Some(ty@),
                None => None,
            },
        }
    }
}

impl AccessorOptionsView {
    /// These options laid over those of the enclosing scope: an option set
    /// here stands, one not set here is taken from `base`.
    pub open spec fn over(self, base: AccessorOptionsView) -> AccessorOptionsView {
        AccessorOptionsView {
            ignore: if self.ignore is Some {
                self.ignore
            } else {
                base.ignore
            },
            return_type: if self.return_type is Some {
                self.return_type
            } else {
                base.return_type
            },
        }
    }

    /// Whether the accessor is suppressed; it is not unless `ignore` says
    /// so.
    pub open spec fn suppressed(self) -> bool {
        self.ignore == Some(true)
    }
}

/// The accessor options in a configuration: `ignore` must be a boolean and
/// `return_type` a string, where they are set.
pub open spec fn accessor_options(options: Options) -> Result<AccessorOptionsView, GenErrorView> {
    if options.contains_key("ignore"@) && !(options["ignore"@] is Bool) {
        Err(GenErrorView::InvalidOptionType("ignore"@))
    } else if options.contains_key("return_type"@) && !(options["return_type"@] is Str) {
        Err(GenErrorView::InvalidOptionType("return_type"@))
    } else {
        Ok(
            AccessorOptionsView {
                ignore: if options.contains_key("ignore"@) {
                    Some(options["ignore"@]->Bool_0)
                } else {
                    None
                },
                return_type: if options.contains_key("return_type"@) {
                    Some(options["return_type"@]->Str_0)
                } else {
                    None
                },
            },
        )
    }
}

/// The accessor options that the sites named `getters` among `annotations`
/// declare.
pub open spec fn declared_accessor_options(annotations: Seq<AnnotationView>)
    -> Result<AccessorOptionsView, GenErrorView> {
    match parse_sites(annotations, getters_site(), getters_keys()) {
        Ok(options) => accessor_options(options),
        Err(failure) => Err(failure),
    }
}

/// The accessor of a field under the given options: named as the field,
/// returning the configured type or else a reference to the field's type.
pub open spec fn accessor_for(field: FieldView, options: AccessorOptionsView)
    -> GeneratedFunctionView {
    GeneratedFunctionView {
        kind: FunctionKind::Accessor,
        name: field.name,
        field: field.name,
        ty: match options.return_type {
            Some(ty) => ty,
            None => "&"@ + field.ty,
        },
    }
}

/// What one field contributes: its accessor, nothing where it opts out, or
/// the failure of its own annotations.
pub open spec fn field_accessor(base: AccessorOptionsView, field: FieldView) -> Result<
    Option<GeneratedFunctionView>,
    GenErrorView,
> {
    match declared_accessor_options(field.annotations) {
        Err(failure) => Err(failure),
        Ok(own) => {
            let options = own.over(base);
            if options.suppressed() {
                Ok(None)
            } else {
                Ok(Some(accessor_for(field, options)))
            }
        },
    }
}

/// The accessors of `fields` after those in `emitted`, in field order, up to
/// the first failure.
pub open spec fn accessors_after(
    emitted: Seq<GeneratedFunctionView>,
    base: AccessorOptionsView,
    fields: Seq<FieldView>,
) -> Result<Seq<GeneratedFunctionView>, GenErrorView>
    decreases fields.len(),
{
    if fields.len() == 0 {
        Ok(emitted)
    } else {
        match field_accessor(base, fields[0]) {
            Err(failure) => Err(failure),
            Ok(None) => accessors_after(emitted, base, fields.skip(1)),
            Ok(Some(accessor)) => accessors_after(emitted.push(accessor), base, fields.skip(1)),
        }
    }
}

/// The implementation block of accessors for a record, or the first failure
/// on the way: the record's own `getters` sites are read first, then the
/// record must have named fields, then each field is taken in order.
pub open spec fn getters_of(record: RecordView) -> Result<ImplBlockView, GenErrorView> {
    match declared_accessor_options(record.annotations) {
        Err(failure) => Err(failure),
        Ok(base) => match record.body {
            BodyView::Named(fields) => match accessors_after(Seq::empty(), base, fields) {
                Err(failure) => Err(failure),
                Ok(functions) => Ok(
                    ImplBlockView { name: record.name, generics: record.generics, functions },
                ),
            },
            _ => Err(GenErrorView::UnsupportedShape(record.name)),
        },
    }
}

/// The option names that accessors recognize.
fn recognized_keys() -> (keys: Vec<String>)
    ensures
        texts(keys@) == getters_keys(),
{
    let mut keys: Vec<String> = Vec::new();
    keys.push(String::from_str("ignore"));
    keys.push(String::from_str("return_type"));
    assert(texts(keys@) =~= getters_keys());
    keys
}

impl AccessorOptions {
    /// Reads the accessor options out of a configuration.
    pub fn from_config(config: &Configuration) -> (outcome: Result<AccessorOptions, GenError>)
        ensures
            match outcome {
                Ok(options) => accessor_options(config@) == Ok::<
                    AccessorOptionsView,
                    GenErrorView,
                >(options@),
                Err(failure) => accessor_options(config@) == Err::<
                    AccessorOptionsView,
                    GenErrorView,
                >(failure@),
            },
    {
        let ignore = match config.get("ignore") {
            None => None,
            Some(Literal::Bool(flag)) => Some(*flag),
            Some(_) => {
                return Err(GenError::InvalidOptionType(String::from_str("ignore")));
            },
        };
        let return_type = match config.get("return_type") {
            None => None,
            Some(Literal::Str(ty)) => Some(ty.clone()),
            Some(_) => {
                return Err(GenError::InvalidOptionType(String::from_str("return_type")));
            },
        };
        Ok(AccessorOptions { ignore, return_type })
    }

    /// These options laid over those of the enclosing scope: an option set
    /// here stands, one not set here is taken from `base`.
    pub fn over(self, base: &AccessorOptions) -> (merged: AccessorOptions)
        ensures
            merged@ == self@.over(base@),
    {
        AccessorOptions {
            ignore: match self.ignore {
                Some(flag) => Some(flag),
                None => base.ignore,
            },
            return_type: match self.return_type {
                Some(ty) => Some(ty),
                None => match &base.return_type {
                    Some(ty) => Some(ty.clone()),
                    None => None,
                },
            },
        }
    }

    /// Whether the accessor is suppressed.
    pub fn suppressed(&self) -> (suppressed: bool)
        ensures
            suppressed == self@.suppressed(),
    {
        match self.ignore {
            Some(flag) => flag,
            None => false,
        }
    }

    /// Reads the accessor options that the sites named `getters` among
    /// `annotations` declare.
    pub fn declared(annotations: &Vec<Annotation>) -> (outcome: Result<
        AccessorOptions,
        GenError,
    >)
        ensures
            match outcome {
                Ok(options) => declared_accessor_options(sites(annotations@)) == Ok::<
                    AccessorOptionsView,
                    GenErrorView,
                >(options@),
                Err(failure) => declared_accessor_options(sites(annotations@))
                    == Err::<AccessorOptionsView, GenErrorView>(failure@),
            },
    {
        let keys = recognized_keys();
        match config_from(annotations, "getters", &keys) {
            Ok(config) => AccessorOptions::from_config(&config),
            Err(failure) => Err(failure),
        }
    }
}

/// Generates the accessor of one field, if it has one.
fn expand_field(base: &AccessorOptions, field: &Field) -> (outcome: Result<
    Option<GeneratedFunction>,
    GenError,
>)
    ensures
        match outcome {
            Ok(Some(accessor)) => field_accessor(base@, field@) == Ok::<
                Option<GeneratedFunctionView>,
                GenErrorView,
            >(Some(accessor@)),
            Ok(None) => field_accessor(base@, field@) == Ok::<
                Option<GeneratedFunctionView>,
                GenErrorView,
            >(None),
            Err(failure) => field_accessor(base@, field@) == Err::<
                Option<GeneratedFunctionView>,
                GenErrorView,
            >(failure@),
        },
{
    let own = match AccessorOptions::declared(&field.annotations) {
        Ok(own) => own,
        Err(failure) => {
            return Err(failure);
        },
    };
    let options = own.over(base);
    if options.suppressed() {
        return Ok(None);
    }
    let ty = match options.return_type {
        Some(ty) => ty,
        None => String::from_str("&").concat(field.ty.as_str()),
    };
    Ok(
        Some(
            GeneratedFunction {
                kind: FunctionKind::Accessor,
                name: field.name.clone(),
                field: field.name.clone(),
                ty,
            },
        ),
    )
}

/// Generates the implementation block of accessors for `record`.
///
/// Each field with named storage gets a public function of its own name that
/// takes `&self` and returns a reference into the field, unless the option
/// `ignore` is `true` for it. The option `return_type` gives the declared
/// return type; without it the type is a reference to the field's type.
/// Options on a field stand over those on the record. The first failure ends
/// generation, and nothing is emitted beside it.
pub fn expand_getters(record: &Record) -> (outcome: Result<ImplBlock, GenError>)
    ensures
        generates(outcome, getters_of(record@)),
{
    let base = match AccessorOptions::declared(&record.annotations) {
        Ok(base) => base,
        Err(failure) => {
            return Err(failure);
        },
    };
    match &record.body {
        Body::Named(fields) => {
            let ghost all = members(fields@);
            let mut functions: Vec<GeneratedFunction> = Vec::new();
            let mut at: usize = 0;
            assert(all.skip(0) =~= all);
            assert(declarations(functions@) =~= Seq::<GeneratedFunctionView>::empty());
            while at < fields.len()
                invariant
                    at <= fields@.len(),
                    all == members(fields@),
                    record@.body == BodyView::Named(all),
                    declared_accessor_options(record@.annotations) == Ok::<
                        AccessorOptionsView,
                        GenErrorView,
                    >(base@),
                    accessors_after(declarations(functions@), base@, all.skip(at as int))
                        == accessors_after(Seq::empty(), base@, all),
                decreases fields@.len() - at,
            {
                proof {
                    assert(all.skip(at as int)[0] == fields@[at as int]@);
                    assert(all.skip(at as int).skip(1) =~= all.skip(at + 1));
                }
                let ghost before = declarations(functions@);
                match expand_field(&base, &fields[at]) {
                    Err(failure) => {
                        return Err(failure);
                    },
                    Ok(None) => {},
                    Ok(Some(accessor)) => {
                        functions.push(accessor);
                        assert(declarations(functions@) =~= before.push(accessor@));
                    },
                }
                at += 1;
            }
            Ok(
                ImplBlock {
                    name: record.name.clone(),
                    generics: record.generics.clone(),
                    functions,
                },
            )
        },
        _ => Err(GenError::UnsupportedShape(record.name.clone())),
    }
}

} // verus!
