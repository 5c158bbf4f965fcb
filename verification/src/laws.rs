//! What holds of generation on every record, proved from the definitions
//! that the functions' contracts use.

use vstd::prelude::*;
use crate::annotation::AnnotationView;
use crate::annotation::ArgumentView;
use crate::annotation::LiteralView;
use crate::config::apply_argument;
use crate::config::apply_arguments;
use crate::config::apply_site;
use crate::config::apply_sites;
use crate::config::parse_sites;
use crate::config::Options;
use crate::error::GenError;
use crate::error::GenErrorView;
use crate::getters::accessor_for;
use crate::getters::accessor_options;
use crate::getters::accessors_after;
use crate::getters::declared_accessor_options;
use crate::getters::field_accessor;
use crate::getters::getters_keys;
use crate::getters::getters_of;
use crate::getters::getters_site;
use crate::getters::AccessorOptionsView;
use crate::output::generates;
use crate::output::FunctionKind;
use crate::output::GeneratedFunctionView;
use crate::output::ImplBlock;
use crate::output::ImplBlockView;
use crate::record::BodyView;
use crate::record::FieldView;
use crate::record::RecordView;
use crate::setters::declared_into;
use crate::setters::field_mutator;
use crate::setters::into_option;
use crate::setters::mutator_for;
use crate::setters::mutators_after;
use crate::setters::setters_keys;
use crate::setters::setters_of;
use crate::setters::setters_site;

verus! {

/// The key of an argument, where it has one.
pub open spec fn argument_key(argument: ArgumentView) -> Option<Seq<char>> {
    match argument {
        ArgumentView::Word(name) => Some(name),
        ArgumentView::NameValue(name, _) => Some(name),
        ArgumentView::List(name, _) => Some(name),
        ArgumentView::Literal(_) => None,
    }
}

/// The argument has a key, and `keys` does not hold it.
pub open spec fn is_unknown(argument: ArgumentView, keys: Seq<Seq<char>>) -> bool {
    match argument_key(argument) {
        Some(name) => !keys.contains(name),
        None => false,
    }
}

/// The site is a keyed list, and one of its arguments has a key that `keys`
/// does not hold.
pub open spec fn holds_unknown_key(site: AnnotationView, keys: Seq<Seq<char>>) -> bool {
    match site {
        AnnotationView::List(_, arguments) => exists|j: int|
            0 <= j < arguments.len() && is_unknown(#[trigger] arguments[j], keys),
        _ => false,
    }
}

/// One of the sites named `name` holds a key that `keys` does not hold.
pub open spec fn names_unknown_key(
    annotations: Seq<AnnotationView>,
    name: Seq<char>,
    keys: Seq<Seq<char>>,
) -> bool {
    exists|i: int|
        0 <= i < annotations.len() && (#[trigger] annotations[i]).name() == name
            && holds_unknown_key(annotations[i], keys)
}

/// The record itself, or one of its named fields, has a site named `name`
/// with a key that `keys` does not hold.
pub open spec fn record_names_unknown_key(
    record: RecordView,
    name: Seq<char>,
    keys: Seq<Seq<char>>,
) -> bool {
    names_unknown_key(record.annotations, name, keys) || match record.body {
        BodyView::Named(fields) => exists|f: int|
            0 <= f < fields.len() && names_unknown_key(
                (#[trigger] fields[f]).annotations,
                name,
                keys,
            ),
        _ => false,
    }
}

/// A list of arguments with an unknown key is not read to its end, whatever
/// stands before and after that key.
pub proof fn lemma_unknown_argument_fails(
    options: Options,
    arguments: Seq<ArgumentView>,
    at: int,
    keys: Seq<Seq<char>>,
)
    requires
        0 <= at < arguments.len(),
        is_unknown(arguments[at], keys),
    ensures
        apply_arguments(options, arguments, keys) is Err,
    decreases arguments.len(),
{
    if at > 0 {
        match apply_argument(options, arguments[0], keys) {
            Ok(next) => {
                assert(arguments.skip(1)[at - 1] == arguments[at]);
                lemma_unknown_argument_fails(next, arguments.skip(1), at - 1, keys);
            },
            Err(_) => {},
        }
    }
}

/// Sites of which one, named `name`, holds an unknown key are not read to
/// their end.
pub proof fn lemma_unknown_key_fails(
    options: Options,
    annotations: Seq<AnnotationView>,
    name: Seq<char>,
    keys: Seq<Seq<char>>,
)
    requires
        names_unknown_key(annotations, name, keys),
    ensures
        apply_sites(options, annotations, name, keys) is Err,
    decreases annotations.len(),
{
    let at = choose|i: int|
        0 <= i < annotations.len() && (#[trigger] annotations[i]).name() == name
            && holds_unknown_key(annotations[i], keys);
    if at == 0 {
        let arguments = annotations[0]->List_1;
        let bad = choose|j: int|
            0 <= j < arguments.len() && is_unknown(#[trigger] arguments[j], keys);
        lemma_unknown_argument_fails(options, arguments, bad, keys);
    } else {
        let rest = annotations.skip(1);
        assert(rest[at - 1] == annotations[at]);
        assert(names_unknown_key(rest, name, keys));
        if annotations[0].name() != name {
            lemma_unknown_key_fails(options, rest, name, keys);
        } else {
            match apply_site(options, annotations[0], keys) {
                Ok(next) => {
                    lemma_unknown_key_fails(next, rest, name, keys);
                },
                Err(_) => {},
            }
        }
    }
}

/// Where one field fails, the accessors of the fields fail.
pub proof fn lemma_failing_accessor(
    emitted: Seq<GeneratedFunctionView>,
    base: AccessorOptionsView,
    fields: Seq<FieldView>,
    at: int,
)
    requires
        0 <= at < fields.len(),
        field_accessor(base, fields[at]) is Err,
    ensures
        accessors_after(emitted, base, fields) is Err,
    decreases fields.len(),
{
    if at > 0 {
        assert(fields.skip(1)[at - 1] == fields[at]);
        match field_accessor(base, fields[0]) {
            Err(_) => {},
            Ok(None) => {
                lemma_failing_accessor(emitted, base, fields.skip(1), at - 1);
            },
            Ok(Some(accessor)) => {
                lemma_failing_accessor(emitted.push(accessor), base, fields.skip(1), at - 1);
            },
        }
    }
}

/// Where one field fails, the mutators of the fields fail.
pub proof fn lemma_failing_mutator(
    emitted: Seq<GeneratedFunctionView>,
    into: bool,
    fields: Seq<FieldView>,
    at: int,
)
    requires
        0 <= at < fields.len(),
        field_mutator(into, fields[at]) is Err,
    ensures
        mutators_after(emitted, into, fields) is Err,
    decreases fields.len(),
{
    if at > 0 {
        assert(fields.skip(1)[at - 1] == fields[at]);
        match field_mutator(into, fields[0]) {
            Err(_) => {},
            Ok(mutator) => {
                lemma_failing_mutator(emitted.push(mutator), into, fields.skip(1), at - 1);
            },
        }
    }
}

/// An option name that accessors do not recognize, at a `getters` site of
/// the record or of any of its fields, makes generation fail: no accessor is
/// emitted.
pub proof fn law_unknown_getters_option_fails(record: RecordView)
    requires
        record_names_unknown_key(record, getters_site(), getters_keys()),
    ensures
        getters_of(record) is Err,
{
    if names_unknown_key(record.annotations, getters_site(), getters_keys()) {
        lemma_unknown_key_fails(Map::empty(), record.annotations, getters_site(), getters_keys());
    } else {
        let fields = record.body->Named_0;
        let at = choose|f: int|
            0 <= f < fields.len() && names_unknown_key(
                (#[trigger] fields[f]).annotations,
                getters_site(),
                getters_keys(),
            );
        lemma_unknown_key_fails(
            Map::empty(),
            fields[at].annotations,
            getters_site(),
            getters_keys(),
        );
        match declared_accessor_options(record.annotations) {
            Ok(base) => {
                lemma_failing_accessor(Seq::empty(), base, fields, at);
            },
            Err(_) => {},
        }
    }
}

/// An option name that mutators do not recognize, at a `setters` site of the
/// record or of any of its fields, makes generation fail: no mutator is
/// emitted.
pub proof fn law_unknown_setters_option_fails(record: RecordView)
    requires
        record_names_unknown_key(record, setters_site(), setters_keys()),
    ensures
        setters_of(record) is Err,
{
    if names_unknown_key(record.annotations, setters_site(), setters_keys()) {
        lemma_unknown_key_fails(Map::empty(), record.annotations, setters_site(), setters_keys());
    } else {
        let fields = record.body->Named_0;
        let at = choose|f: int|
            0 <= f < fields.len() && names_unknown_key(
                (#[trigger] fields[f]).annotations,
                setters_site(),
                setters_keys(),
            );
        lemma_unknown_key_fails(
            Map::empty(),
            fields[at].annotations,
            setters_site(),
            setters_keys(),
        );
        match declared_into(record.annotations) {
            Ok(into) => {
                lemma_failing_mutator(Seq::empty(), into, fields, at);
            },
            Err(_) => {},
        }
    }
}

/// The accessor options that set nothing.
pub open spec fn no_accessor_options() -> AccessorOptionsView {
    AccessorOptionsView { ignore: None, return_type: None }
}

/// The accessor of each field in turn, under options that set nothing.
pub open spec fn plain_accessors(fields: Seq<FieldView>) -> Seq<GeneratedFunctionView> {
    Seq::new(fields.len(), |i: int| accessor_for(fields[i], no_accessor_options()))
}

/// The mutator of each field in turn.
pub open spec fn all_mutators(fields: Seq<FieldView>, into: bool) -> Seq<GeneratedFunctionView> {
    Seq::new(fields.len(), |i: int| mutator_for(fields[i], into))
}

/// Fields that set no accessor option, in a record that sets none, each
/// emit their plain accessor.
pub proof fn lemma_plain_accessors(emitted: Seq<GeneratedFunctionView>, fields: Seq<FieldView>)
    requires
        forall|i: int|
            0 <= i < fields.len() ==> declared_accessor_options(
                (#[trigger] fields[i]).annotations,
            ) == Ok::<AccessorOptionsView, GenErrorView>(no_accessor_options()),
    ensures
        accessors_after(emitted, no_accessor_options(), fields) == Ok::<
            Seq<GeneratedFunctionView>,
            GenErrorView,
        >(emitted + plain_accessors(fields)),
    decreases fields.len(),
{
    if fields.len() == 0 {
        assert(emitted + plain_accessors(fields) =~= emitted);
    } else {
        let rest = fields.skip(1);
        let first = accessor_for(fields[0], no_accessor_options());
        assert forall|i: int| 0 <= i < rest.len() implies declared_accessor_options(
            (#[trigger] rest[i]).annotations,
        ) == Ok::<AccessorOptionsView, GenErrorView>(no_accessor_options()) by {
            assert(rest[i] == fields[i + 1]);
        }
        lemma_plain_accessors(emitted.push(first), rest);
        assert(emitted.push(first) + plain_accessors(rest) =~= emitted + plain_accessors(fields));
    }
}

/// Mutators that are emitted are those of all the fields, in order.
pub proof fn lemma_all_mutators(
    emitted: Seq<GeneratedFunctionView>,
    into: bool,
    fields: Seq<FieldView>,
)
    requires
        mutators_after(emitted, into, fields) is Ok,
    ensures
        mutators_after(emitted, into, fields) == Ok::<Seq<GeneratedFunctionView>, GenErrorView>(
            emitted + all_mutators(fields, into),
        ),
    decreases fields.len(),
{
    if fields.len() == 0 {
        assert(emitted + all_mutators(fields, into) =~= emitted);
    } else {
        let rest = fields.skip(1);
        let first = mutator_for(fields[0], into);
        lemma_all_mutators(emitted.push(first), into, rest);
        assert(emitted.push(first) + all_mutators(rest, into) =~= emitted + all_mutators(
            fields,
            into,
        ));
    }
}

/// A record with named fields in which no `getters` site sets `ignore` or
/// `return_type`, on the record or on a field, gets exactly one accessor for
/// each field, in field order: named as the field, and returning a reference
/// to the field's type.
pub proof fn law_one_accessor_per_field(record: RecordView, fields: Seq<FieldView>)
    requires
        record.body == BodyView::Named(fields),
        declared_accessor_options(record.annotations) == Ok::<AccessorOptionsView, GenErrorView>(
            no_accessor_options(),
        ),
        forall|i: int|
            0 <= i < fields.len() ==> declared_accessor_options(
                (#[trigger] fields[i]).annotations,
            ) == Ok::<AccessorOptionsView, GenErrorView>(no_accessor_options()),
    ensures
        getters_of(record) is Ok,
        getters_of(record)->Ok_0.functions.len() == fields.len(),
        forall|i: int|
            0 <= i < fields.len() ==> #[trigger] getters_of(record)->Ok_0.functions[i]
                == (GeneratedFunctionView {
                kind: FunctionKind::Accessor,
                name: fields[i].name,
                field: fields[i].name,
                ty: "&"@ + fields[i].ty,
            }),
{
    lemma_plain_accessors(Seq::empty(), fields);
    assert(Seq::<GeneratedFunctionView>::empty() + plain_accessors(fields) =~= plain_accessors(
        fields,
    ));
}

/// Whenever mutators are generated, there is exactly one for each field, in
/// field order, named `set_` and the field's name, for the field's own type.
/// What the fields say of accessors plays no part: a field that opts out of
/// its accessor still gets its mutator.
pub proof fn law_one_mutator_per_field(record: RecordView, fields: Seq<FieldView>)
    requires
        record.body == BodyView::Named(fields),
        setters_of(record) is Ok,
    ensures
        setters_of(record)->Ok_0.functions.len() == fields.len(),
        forall|i: int|
            0 <= i < fields.len() ==> {
                let mutator = #[trigger] setters_of(record)->Ok_0.functions[i];
                &&& mutator.name == "set_"@ + fields[i].name
                &&& mutator.field == fields[i].name
                &&& mutator.ty == fields[i].ty
                &&& mutator.kind != FunctionKind::Accessor
            },
{
    let into = declared_into(record.annotations)->Ok_0;
    lemma_all_mutators(Seq::empty(), into, fields);
    assert(Seq::<GeneratedFunctionView>::empty() + all_mutators(fields, into) =~= all_mutators(
        fields,
        into,
    ));
}

/// With the record's option `into` every mutator takes any value that
/// converts into its field's type; with `into = false`, or without the
/// option, every mutator takes exactly its field's type.
pub proof fn law_mutators_follow_into(record: RecordView, fields: Seq<FieldView>, into: bool)
    requires
        record.body == BodyView::Named(fields),
        declared_into(record.annotations) == Ok::<bool, GenErrorView>(into),
        setters_of(record) is Ok,
    ensures
        forall|i: int|
            0 <= i < fields.len() ==> (#[trigger] setters_of(record)->Ok_0.functions[i]).kind == (
            if into {
                FunctionKind::ConvertingMutator
            } else {
                FunctionKind::Mutator
            }),
{
    lemma_all_mutators(Seq::empty(), into, fields);
    assert(Seq::<GeneratedFunctionView>::empty() + all_mutators(fields, into) =~= all_mutators(
        fields,
        into,
    ));
}

/// A record without a site named `setters` does not ask for converting
/// mutators.
pub proof fn law_into_defaults_to_false(annotations: Seq<AnnotationView>)
    requires
        forall|i: int|
            0 <= i < annotations.len() ==> (#[trigger] annotations[i]).name() != setters_site(),
    ensures
        declared_into(annotations) == Ok::<bool, GenErrorView>(false),
{
    lemma_other_sites_pass(Map::empty(), annotations, setters_site(), setters_keys());
}

/// Sites of which none is named `name` set nothing.
pub proof fn lemma_other_sites_pass(
    options: Options,
    annotations: Seq<AnnotationView>,
    name: Seq<char>,
    keys: Seq<Seq<char>>,
)
    requires
        forall|i: int| 0 <= i < annotations.len() ==> (#[trigger] annotations[i]).name() != name,
    ensures
        apply_sites(options, annotations, name, keys) == Ok::<Options, GenErrorView>(options),
    decreases annotations.len(),
{
    if annotations.len() > 0 {
        let rest = annotations.skip(1);
        assert forall|i: int| 0 <= i < rest.len() implies (#[trigger] rest[i]).name() != name by {
            assert(rest[i] == annotations[i + 1]);
        }
        lemma_other_sites_pass(options, rest, name, keys);
    }
}

/// One site added among others does not change what the sites of another
/// name declare.
pub proof fn lemma_added_site_passes(
    options: Options,
    annotations: Seq<AnnotationView>,
    at: int,
    site: AnnotationView,
    name: Seq<char>,
    keys: Seq<Seq<char>>,
)
    requires
        0 <= at <= annotations.len(),
        site.name() != name,
    ensures
        apply_sites(options, annotations.insert(at, site), name, keys) == apply_sites(
            options,
            annotations,
            name,
            keys,
        ),
    decreases annotations.len(),
{
    let added = annotations.insert(at, site);
    if at == 0 {
        assert(added.skip(1) =~= annotations);
    } else {
        assert(added[0] == annotations[0]);
        assert(added.skip(1) =~= annotations.skip(1).insert(at - 1, site));
        if annotations[0].name() != name {
            lemma_added_site_passes(options, annotations.skip(1), at - 1, site, name, keys);
        } else {
            match apply_site(options, annotations[0], keys) {
                Ok(next) => {
                    lemma_added_site_passes(next, annotations.skip(1), at - 1, site, name, keys);
                },
                Err(_) => {},
            }
        }
    }
}

/// Fields that contribute the same mutators one by one contribute the same
/// mutators together.
pub proof fn lemma_same_mutators(
    emitted: Seq<GeneratedFunctionView>,
    into: bool,
    fields: Seq<FieldView>,
    others: Seq<FieldView>,
)
    requires
        fields.len() == others.len(),
        forall|i: int|
            0 <= i < fields.len() ==> field_mutator(into, #[trigger] fields[i]) == field_mutator(
                into,
                others[i],
            ),
    ensures
        mutators_after(emitted, into, fields) == mutators_after(emitted, into, others),
    decreases fields.len(),
{
    if fields.len() > 0 {
        assert forall|i: int| 0 <= i < fields.skip(1).len() implies field_mutator(
            into,
            #[trigger] fields.skip(1)[i],
        ) == field_mutator(into, others.skip(1)[i]) by {
            assert(fields.skip(1)[i] == fields[i + 1]);
            assert(others.skip(1)[i] == others[i + 1]);
        }
        match field_mutator(into, fields[0]) {
            Ok(mutator) => {
                lemma_same_mutators(emitted.push(mutator), into, fields.skip(1), others.skip(1));
            },
            Err(_) => {},
        }
    }
}

/// The field with one more annotation site.
pub open spec fn with_site(field: FieldView, at: int, site: AnnotationView) -> FieldView {
    FieldView { name: field.name, ty: field.ty, annotations: field.annotations.insert(at, site) }
}

/// The record with other fields in place of its own.
pub open spec fn with_fields(record: RecordView, fields: Seq<FieldView>) -> RecordView {
    RecordView {
        name: record.name,
        generics: record.generics,
        annotations: record.annotations,
        body: BodyView::Named(fields),
    }
}

/// Marking a field for the accessors leaves the mutators as they were: a
/// `getters` site added to a field, whatever it holds, changes nothing in
/// what is generated for `setters`.
pub proof fn law_getters_sites_leave_mutators(
    record: RecordView,
    fields: Seq<FieldView>,
    field: int,
    at: int,
    site: AnnotationView,
)
    requires
        record.body == BodyView::Named(fields),
        0 <= field < fields.len(),
        0 <= at <= fields[field].annotations.len(),
        site.name() == getters_site(),
    ensures
        setters_of(with_fields(record, fields.update(field, with_site(fields[field], at, site))))
            == setters_of(record),
{
    let marked = fields.update(field, with_site(fields[field], at, site));
    assert(getters_site() != setters_site()) by {
        reveal_strlit("getters");
        reveal_strlit("setters");
        assert("getters"@[0] != "setters"@[0]);
    }
    lemma_added_site_passes(
        Map::empty(),
        fields[field].annotations,
        at,
        site,
        setters_site(),
        setters_keys(),
    );
    match declared_into(record.annotations) {
        Ok(into) => {
            assert forall|i: int| 0 <= i < marked.len() implies field_mutator(
                into,
                #[trigger] marked[i],
            ) == field_mutator(into, fields[i]) by {}
            lemma_same_mutators(Seq::empty(), into, marked, fields);
        },
        Err(_) => {},
    }
}

/// A field that emits no accessor can be left out: the accessors of the
/// fields are those of the others.
pub proof fn lemma_silent_field(
    emitted: Seq<GeneratedFunctionView>,
    base: AccessorOptionsView,
    fields: Seq<FieldView>,
    at: int,
)
    requires
        0 <= at < fields.len(),
        field_accessor(base, fields[at]) == Ok::<Option<GeneratedFunctionView>, GenErrorView>(
            None,
        ),
    ensures
        accessors_after(emitted, base, fields) == accessors_after(emitted, base, fields.remove(at)),
    decreases fields.len(),
{
    let others = fields.remove(at);
    if at == 0 {
        assert(others =~= fields.skip(1));
    } else {
        assert(others[0] == fields[0]);
        assert(others.skip(1) =~= fields.skip(1).remove(at - 1));
        assert(fields.skip(1)[at - 1] == fields[at]);
        match field_accessor(base, fields[0]) {
            Err(_) => {},
            Ok(None) => {
                lemma_silent_field(emitted, base, fields.skip(1), at - 1);
            },
            Ok(Some(accessor)) => {
                lemma_silent_field(emitted.push(accessor), base, fields.skip(1), at - 1);
            },
        }
    }
}

/// A field marked `ignore` gets no accessor: what is generated for the
/// record is what is generated for it without that field.
pub proof fn law_ignored_field_has_no_accessor(
    record: RecordView,
    fields: Seq<FieldView>,
    field: int,
)
    requires
        record.body == BodyView::Named(fields),
        0 <= field < fields.len(),
        declared_accessor_options(fields[field].annotations) is Ok,
        declared_accessor_options(fields[field].annotations)->Ok_0.ignore == Some(true),
    ensures
        getters_of(record) == getters_of(with_fields(record, fields.remove(field))),
{
    match declared_accessor_options(record.annotations) {
        Ok(base) => {
            lemma_silent_field(Seq::empty(), base, fields, field);
        },
        Err(_) => {},
    }
}

/// What has been emitted stays, in its place.
pub proof fn lemma_emitted_stays(
    emitted: Seq<GeneratedFunctionView>,
    base: AccessorOptionsView,
    fields: Seq<FieldView>,
)
    requires
        accessors_after(emitted, base, fields) is Ok,
    ensures
        emitted.len() <= accessors_after(emitted, base, fields)->Ok_0.len(),
        forall|i: int|
            0 <= i < emitted.len() ==> accessors_after(emitted, base, fields)->Ok_0[i]
                == #[trigger] emitted[i],
    decreases fields.len(),
{
    if fields.len() > 0 {
        let next = match field_accessor(base, fields[0]) {
            Ok(Some(accessor)) => emitted.push(accessor),
            _ => emitted,
        };
        let out = accessors_after(emitted, base, fields)->Ok_0;
        lemma_emitted_stays(next, base, fields.skip(1));
        assert forall|i: int| 0 <= i < emitted.len() implies out[i] == #[trigger] emitted[i] by {
            assert(next[i] == emitted[i]);
        }
    }
}

/// The accessor that a field emits is among what comes out.
pub proof fn lemma_accessor_emitted(
    emitted: Seq<GeneratedFunctionView>,
    base: AccessorOptionsView,
    fields: Seq<FieldView>,
    at: int,
)
    requires
        accessors_after(emitted, base, fields) is Ok,
        0 <= at < fields.len(),
        field_accessor(base, fields[at]) is Ok,
        field_accessor(base, fields[at])->Ok_0 is Some,
    ensures
        accessors_after(emitted, base, fields)->Ok_0.contains(
            field_accessor(base, fields[at])->Ok_0->Some_0,
        ),
    decreases fields.len(),
{
    let next = match field_accessor(base, fields[0]) {
        Ok(Some(accessor)) => emitted.push(accessor),
        _ => emitted,
    };
    let out = accessors_after(emitted, base, fields)->Ok_0;
    if at == 0 {
        lemma_emitted_stays(next, base, fields.skip(1));
        assert(next[emitted.len() as int] == field_accessor(base, fields[0])->Ok_0->Some_0);
        assert(out[emitted.len() as int] == field_accessor(base, fields[0])->Ok_0->Some_0);
    } else {
        assert(fields.skip(1)[at - 1] == fields[at]);
        lemma_accessor_emitted(next, base, fields.skip(1), at - 1);
    }
}

/// A field whose options give a return type, and do not suppress the
/// accessor, gets an accessor that declares exactly that return type,
/// whatever the field's own type is.
pub proof fn law_return_type_is_verbatim(
    record: RecordView,
    fields: Seq<FieldView>,
    field: int,
    ty: Seq<char>,
)
    requires
        record.body == BodyView::Named(fields),
        0 <= field < fields.len(),
        getters_of(record) is Ok,
        declared_accessor_options(fields[field].annotations) is Ok,
        declared_accessor_options(fields[field].annotations)->Ok_0.return_type == Some(ty),
        !declared_accessor_options(fields[field].annotations)->Ok_0.over(
            declared_accessor_options(record.annotations)->Ok_0,
        ).suppressed(),
    ensures
        getters_of(record)->Ok_0.functions.contains(
            GeneratedFunctionView {
                kind: FunctionKind::Accessor,
                name: fields[field].name,
                field: fields[field].name,
                ty,
            },
        ),
{
    let base = declared_accessor_options(record.annotations)->Ok_0;
    lemma_accessor_emitted(Seq::empty(), base, fields, field);
}

/// Generation is a function of the record: two runs on one record end the
/// same way, with the same functions and the same text, or with the same
/// failure.
pub proof fn law_same_record_same_output(
    first: Result<ImplBlock, GenError>,
    second: Result<ImplBlock, GenError>,
    expected: Result<ImplBlockView, GenErrorView>,
)
    requires
        generates(first, expected),
        generates(second, expected),
    ensures
        match (first, second) {
            (Ok(one), Ok(other)) => one@ == other@ && one@.text() == other@.text(),
            (Err(one), Err(other)) => one@ == other@ && one@.message() == other@.message(),
            _ => false,
        },
{
}

/// A single site with a single argument declares what that argument sets.
pub proof fn lemma_single_argument(
    name: Seq<char>,
    argument: ArgumentView,
    keys: Seq<Seq<char>>,
)
    ensures
        parse_sites(seq![AnnotationView::List(name, seq![argument])], name, keys)
            == apply_argument(Map::empty(), argument, keys),
{
    let arguments = seq![argument];
    let annotations = seq![AnnotationView::List(name, arguments)];
    assert(arguments.skip(1) =~= Seq::<ArgumentView>::empty());
    assert(annotations.skip(1) =~= Seq::<AnnotationView>::empty());
    assert(arguments[0] == argument);
    assert(annotations[0] == AnnotationView::List(name, arguments));
    match apply_argument(Map::empty(), argument, keys) {
        Ok(next) => {
            assert(apply_arguments(next, arguments.skip(1), keys) == Ok::<Options, GenErrorView>(
                next,
            ));
            assert(apply_sites(next, annotations.skip(1), name, keys) == Ok::<
                Options,
                GenErrorView,
            >(next));
        },
        Err(_) => {},
    }
}

/// The names of the options are three different names.
pub proof fn lemma_option_names_differ()
    ensures
        "ignore"@ != "return_type"@,
        getters_keys().contains("ignore"@),
        getters_keys().contains("return_type"@),
        setters_keys().contains("into"@),
{
    reveal_strlit("ignore");
    reveal_strlit("return_type");
    assert("ignore"@.len() != "return_type"@.len());
    assert(getters_keys()[0] == "ignore"@);
    assert(getters_keys()[1] == "return_type"@);
    assert(setters_keys()[0] == "into"@);
}

/// The site `getters(ignore)` sets `ignore` to `true` and nothing else.
pub proof fn law_ignore_as_word()
    ensures
        declared_accessor_options(
            seq![AnnotationView::List(getters_site(), seq![ArgumentView::Word("ignore"@)])],
        ) == Ok::<AccessorOptionsView, GenErrorView>(
            AccessorOptionsView { ignore: Some(true), return_type: None },
        ),
{
    lemma_option_names_differ();
    lemma_single_argument(getters_site(), ArgumentView::Word("ignore"@), getters_keys());
}

/// The site `getters(return_type = "..")` sets the return type to the
/// contents of the string, and nothing else.
pub proof fn law_return_type_as_string(ty: Seq<char>)
    ensures
        declared_accessor_options(
            seq![
                AnnotationView::List(
                    getters_site(),
                    seq![ArgumentView::NameValue("return_type"@, LiteralView::Str(ty))],
                ),
            ],
        ) == Ok::<AccessorOptionsView, GenErrorView>(
            AccessorOptionsView { ignore: None, return_type: Some(ty) },
        ),
{
    lemma_option_names_differ();
    lemma_single_argument(
        getters_site(),
        ArgumentView::NameValue("return_type"@, LiteralView::Str(ty)),
        getters_keys(),
    );
}

/// The site `setters(into)` asks for converting mutators, and the site
/// `setters(into = ..)` asks for what its boolean says.
pub proof fn law_into_as_written(flag: bool)
    ensures
        declared_into(
            seq![AnnotationView::List(setters_site(), seq![ArgumentView::Word("into"@)])],
        ) == Ok::<bool, GenErrorView>(true),
        declared_into(
            seq![
                AnnotationView::List(
                    setters_site(),
                    seq![ArgumentView::NameValue("into"@, LiteralView::Bool(flag))],
                ),
            ],
        ) == Ok::<bool, GenErrorView>(flag),
{
    lemma_option_names_differ();
    lemma_single_argument(setters_site(), ArgumentView::Word("into"@), setters_keys());
    lemma_single_argument(
        setters_site(),
        ArgumentView::NameValue("into"@, LiteralView::Bool(flag)),
        setters_keys(),
    );
}

/// A value of the wrong kind for a recognized option is a failure that
/// names the option.
pub proof fn law_wrong_kind_fails(options: Options)
    ensures
        options.contains_key("ignore"@) && !(options["ignore"@] is Bool) ==> accessor_options(
            options,
        ) == Err::<AccessorOptionsView, GenErrorView>(
            GenErrorView::InvalidOptionType("ignore"@),
        ),
        options.contains_key("return_type"@) && !(options["return_type"@] is Str)
            ==> accessor_options(options) is Err,
        options.contains_key("into"@) && !(options["into"@] is Bool) ==> into_option(options)
            == Err::<bool, GenErrorView>(GenErrorView::InvalidOptionType("into"@)),
{
}

/// Arguments are read in turn: one more argument is read after the others,
/// if they were read to their end.
pub proof fn lemma_arguments_in_turn(
    options: Options,
    arguments: Seq<ArgumentView>,
    last: ArgumentView,
    keys: Seq<Seq<char>>,
)
    ensures
        apply_arguments(options, arguments.push(last), keys) == match apply_arguments(
            options,
            arguments,
            keys,
        ) {
            Ok(read) => apply_argument(read, last, keys),
            Err(failure) => Err(failure),
        },
    decreases arguments.len(),
{
    let all = arguments.push(last);
    if arguments.len() == 0 {
        assert(all[0] == last);
        assert(all.skip(1) =~= Seq::<ArgumentView>::empty());
        match apply_argument(options, last, keys) {
            Ok(next) => {
                assert(apply_arguments(next, all.skip(1), keys) == Ok::<Options, GenErrorView>(
                    next,
                ));
            },
            Err(_) => {},
        }
    } else {
        assert(all[0] == arguments[0]);
        assert(all.skip(1) =~= arguments.skip(1).push(last));
        match apply_argument(options, arguments[0], keys) {
            Ok(next) => {
                lemma_arguments_in_turn(next, arguments.skip(1), last, keys);
            },
            Err(_) => {},
        }
    }
}

/// Sites are read in turn: one more site is read after the others, if they
/// were read to their end, and is passed over if it has another name.
pub proof fn lemma_sites_in_turn(
    options: Options,
    annotations: Seq<AnnotationView>,
    last: AnnotationView,
    name: Seq<char>,
    keys: Seq<Seq<char>>,
)
    ensures
        apply_sites(options, annotations.push(last), name, keys) == match apply_sites(
            options,
            annotations,
            name,
            keys,
        ) {
            Ok(read) => if last.name() == name {
                apply_site(read, last, keys)
            } else {
                Ok(read)
            },
            Err(failure) => Err(failure),
        },
    decreases annotations.len(),
{
    let all = annotations.push(last);
    if annotations.len() == 0 {
        assert(all[0] == last);
        assert(all.skip(1) =~= Seq::<AnnotationView>::empty());
        if last.name() != name {
            assert(apply_sites(options, all.skip(1), name, keys) == Ok::<Options, GenErrorView>(
                options,
            ));
        } else {
            match apply_site(options, last, keys) {
                Ok(next) => {
                    assert(apply_sites(next, all.skip(1), name, keys) == Ok::<
                        Options,
                        GenErrorView,
                    >(next));
                },
                Err(_) => {},
            }
        }
    } else {
        assert(all[0] == annotations[0]);
        assert(all.skip(1) =~= annotations.skip(1).push(last));
        if annotations[0].name() != name {
            lemma_sites_in_turn(options, annotations.skip(1), last, name, keys);
        } else {
            match apply_site(options, annotations[0], keys) {
                Ok(next) => {
                    lemma_sites_in_turn(next, annotations.skip(1), last, name, keys);
                },
                Err(_) => {},
            }
        }
    }
}

/// The last write wins: where a key is set again, by the last argument of
/// the last site, the configuration holds that last value, whatever was set
/// before.
pub proof fn law_last_write_wins(
    annotations: Seq<AnnotationView>,
    arguments: Seq<ArgumentView>,
    key: Seq<char>,
    value: LiteralView,
    name: Seq<char>,
    keys: Seq<Seq<char>>,
)
    requires
        parse_sites(
            annotations.push(
                AnnotationView::List(name, arguments.push(ArgumentView::NameValue(key, value))),
            ),
            name,
            keys,
        ) is Ok,
    ensures
        parse_sites(
            annotations.push(
                AnnotationView::List(name, arguments.push(ArgumentView::NameValue(key, value))),
            ),
            name,
            keys,
        )->Ok_0.contains_pair(key, value),
{
    let last = ArgumentView::NameValue(key, value);
    let site = AnnotationView::List(name, arguments.push(last));
    lemma_sites_in_turn(Map::empty(), annotations, site, name, keys);
    let read = apply_sites(Map::empty(), annotations, name, keys)->Ok_0;
    lemma_arguments_in_turn(read, arguments, last, keys);
}

/// No two fields have the same name.
pub open spec fn distinct_names(fields: Seq<FieldView>) -> bool {
    forall|i: int, j: int|
        0 <= i < j < fields.len() ==> (#[trigger] fields[i]).name != (#[trigger] fields[j]).name
}

/// No two functions have the same name.
pub open spec fn distinct_functions(functions: Seq<GeneratedFunctionView>) -> bool {
    forall|i: int, j: int|
        0 <= i < j < functions.len() ==> (#[trigger] functions[i]).name != (
        #[trigger] functions[j]).name
}

/// What follows one prefix differs where the whole differs.
pub proof fn lemma_same_prefix(prefix: Seq<char>, one: Seq<char>, other: Seq<char>)
    requires
        prefix + one == prefix + other,
    ensures
        one == other,
{
    assert((prefix + one).subrange(prefix.len() as int, (prefix + one).len() as int) =~= one);
    assert((prefix + other).subrange(prefix.len() as int, (prefix + other).len() as int)
        =~= other);
}

/// Accessors emitted for fields of different names, after functions of
/// other names still, have different names.
pub proof fn lemma_accessor_names(
    emitted: Seq<GeneratedFunctionView>,
    base: AccessorOptionsView,
    fields: Seq<FieldView>,
)
    requires
        accessors_after(emitted, base, fields) is Ok,
        distinct_names(fields),
        distinct_functions(emitted),
        forall|i: int, k: int|
            0 <= i < emitted.len() && 0 <= k < fields.len() ==> (#[trigger] emitted[i]).name != (
            #[trigger] fields[k]).name,
    ensures
        distinct_functions(accessors_after(emitted, base, fields)->Ok_0),
    decreases fields.len(),
{
    if fields.len() > 0 {
        let rest = fields.skip(1);
        let next = match field_accessor(base, fields[0]) {
            Ok(Some(accessor)) => emitted.push(accessor),
            _ => emitted,
        };
        assert(distinct_names(rest)) by {
            assert forall|i: int, j: int| 0 <= i < j < rest.len() implies (#[trigger] rest[i]).name
                != (#[trigger] rest[j]).name by {
                assert(rest[i] == fields[i + 1]);
                assert(rest[j] == fields[j + 1]);
            }
        }
        assert forall|i: int, j: int| 0 <= i < j < next.len() implies (#[trigger] next[i]).name != (
        #[trigger] next[j]).name by {
            if j < emitted.len() {
                assert(next[i] == emitted[i]);
                assert(next[j] == emitted[j]);
            } else {
                assert(next[i] == emitted[i]);
                assert(next[j].name == fields[0].name);
            }
        }
        assert forall|i: int, k: int| 0 <= i < next.len() && 0 <= k < rest.len() implies (
        #[trigger] next[i]).name != (#[trigger] rest[k]).name by {
            assert(rest[k] == fields[k + 1]);
            if i < emitted.len() {
                assert(next[i] == emitted[i]);
            } else {
                assert(next[i].name == fields[0].name);
            }
        }
        lemma_accessor_names(next, base, rest);
    }
}

/// Where no two fields of a record have the same name, no two of its
/// accessors have the same name.
pub proof fn law_accessor_names_are_distinct(record: RecordView, fields: Seq<FieldView>)
    requires
        record.body == BodyView::Named(fields),
        distinct_names(fields),
        getters_of(record) is Ok,
    ensures
        distinct_functions(getters_of(record)->Ok_0.functions),
{
    let base = declared_accessor_options(record.annotations)->Ok_0;
    lemma_accessor_names(Seq::empty(), base, fields);
}

/// Where no two fields of a record have the same name, no two of its
/// mutators have the same name.
pub proof fn law_mutator_names_are_distinct(record: RecordView, fields: Seq<FieldView>)
    requires
        record.body == BodyView::Named(fields),
        distinct_names(fields),
        setters_of(record) is Ok,
    ensures
        distinct_functions(setters_of(record)->Ok_0.functions),
{
    let into = declared_into(record.annotations)->Ok_0;
    let functions = setters_of(record)->Ok_0.functions;
    lemma_all_mutators(Seq::empty(), into, fields);
    assert(Seq::<GeneratedFunctionView>::empty() + all_mutators(fields, into) =~= all_mutators(
        fields,
        into,
    ));
    assert forall|i: int, j: int| 0 <= i < j < functions.len() implies (
    #[trigger] functions[i]).name != (#[trigger] functions[j]).name by {
        if functions[i].name == functions[j].name {
            lemma_same_prefix("set_"@, fields[i].name, fields[j].name);
        }
    }
}

/// The argument is `key` or `key = value`, with a key that `keys` holds.
pub open spec fn is_setting(argument: ArgumentView, keys: Seq<Seq<char>>) -> bool {
    match argument {
        ArgumentView::Word(name) => keys.contains(name),
        ArgumentView::NameValue(name, _) => keys.contains(name),
        _ => false,
    }
}

/// The site is a keyed list, and each of its arguments sets a key that
/// `keys` holds.
pub open spec fn sets_known_keys(site: AnnotationView, keys: Seq<Seq<char>>) -> bool {
    match site {
        AnnotationView::List(_, arguments) => forall|j: int|
            0 <= j < arguments.len() ==> is_setting(#[trigger] arguments[j], keys),
        _ => false,
    }
}

/// Each of the sites named `name` is a keyed list that sets known keys.
pub open spec fn all_set_known_keys(
    annotations: Seq<AnnotationView>,
    name: Seq<char>,
    keys: Seq<Seq<char>>,
) -> bool {
    forall|i: int|
        0 <= i < annotations.len() && (#[trigger] annotations[i]).name() == name
            ==> sets_known_keys(annotations[i], keys)
}

/// Arguments that each set a known key are read to their end.
pub proof fn lemma_settings_are_read(
    options: Options,
    arguments: Seq<ArgumentView>,
    keys: Seq<Seq<char>>,
)
    requires
        forall|j: int| 0 <= j < arguments.len() ==> is_setting(#[trigger] arguments[j], keys),
    ensures
        apply_arguments(options, arguments, keys) is Ok,
    decreases arguments.len(),
{
    if arguments.len() > 0 {
        assert(is_setting(arguments[0], keys));
        let next = apply_argument(options, arguments[0], keys)->Ok_0;
        assert forall|j: int| 0 <= j < arguments.skip(1).len() implies is_setting(
            #[trigger] arguments.skip(1)[j],
            keys,
        ) by {
            assert(arguments.skip(1)[j] == arguments[j + 1]);
        }
        lemma_settings_are_read(next, arguments.skip(1), keys);
    }
}

/// Sites of which each one named `name` is a keyed list that sets known
/// keys are read to their end.
pub proof fn lemma_known_keys_are_read(
    options: Options,
    annotations: Seq<AnnotationView>,
    name: Seq<char>,
    keys: Seq<Seq<char>>,
)
    requires
        all_set_known_keys(annotations, name, keys),
    ensures
        apply_sites(options, annotations, name, keys) is Ok,
    decreases annotations.len(),
{
    if annotations.len() > 0 {
        let rest = annotations.skip(1);
        assert(all_set_known_keys(rest, name, keys)) by {
            assert forall|i: int| 0 <= i < rest.len() && (#[trigger] rest[i]).name()
                == name implies sets_known_keys(rest[i], keys) by {
                assert(rest[i] == annotations[i + 1]);
            }
        }
        if annotations[0].name() != name {
            lemma_known_keys_are_read(options, rest, name, keys);
        } else {
            assert(sets_known_keys(annotations[0], keys));
            lemma_settings_are_read(options, annotations[0]->List_1, keys);
            let next = apply_site(options, annotations[0], keys)->Ok_0;
            lemma_known_keys_are_read(next, rest, name, keys);
        }
    }
}

/// Where every field contributes its mutator, the mutators of the fields
/// are those of all of them, in order.
pub proof fn lemma_all_fields_contribute(
    emitted: Seq<GeneratedFunctionView>,
    into: bool,
    fields: Seq<FieldView>,
)
    requires
        forall|i: int| 0 <= i < fields.len() ==> field_mutator(into, #[trigger] fields[i]) is Ok,
    ensures
        mutators_after(emitted, into, fields) == Ok::<Seq<GeneratedFunctionView>, GenErrorView>(
            emitted + all_mutators(fields, into),
        ),
    decreases fields.len(),
{
    if fields.len() == 0 {
        assert(emitted + all_mutators(fields, into) =~= emitted);
    } else {
        let rest = fields.skip(1);
        let first = mutator_for(fields[0], into);
        assert(field_mutator(into, fields[0]) is Ok);
        assert forall|i: int| 0 <= i < rest.len() implies field_mutator(
            into,
            #[trigger] rest[i],
        ) is Ok by {
            assert(rest[i] == fields[i + 1]);
        }
        lemma_all_fields_contribute(emitted.push(first), into, rest);
        assert(emitted.push(first) + all_mutators(rest, into) =~= emitted + all_mutators(
            fields,
            into,
        ));
    }
}

/// The record decides for every field. Where the record's `setters` sites
/// resolve `into`, and each `setters` site on a field is a keyed list that
/// sets nothing but `into`, to whatever value, generation succeeds with one
/// mutator for each field, in field order, and each is of the kind that the
/// record asks for: what a field sets changes nothing.
pub proof fn law_record_decides_for_every_field(
    record: RecordView,
    fields: Seq<FieldView>,
    into: bool,
)
    requires
        record.body == BodyView::Named(fields),
        declared_into(record.annotations) == Ok::<bool, GenErrorView>(into),
        forall|i: int|
            0 <= i < fields.len() ==> all_set_known_keys(
                (#[trigger] fields[i]).annotations,
                setters_site(),
                setters_keys(),
            ),
    ensures
        setters_of(record) == Ok::<ImplBlockView, GenErrorView>(
            ImplBlockView {
                name: record.name,
                generics: record.generics,
                functions: all_mutators(fields, into),
            },
        ),
{
    assert forall|i: int| 0 <= i < fields.len() implies field_mutator(
        into,
        #[trigger] fields[i],
    ) is Ok by {
        lemma_known_keys_are_read(
            Map::empty(),
            fields[i].annotations,
            setters_site(),
            setters_keys(),
        );
    }
    lemma_all_fields_contribute(Seq::empty(), into, fields);
    assert(Seq::<GeneratedFunctionView>::empty() + all_mutators(fields, into) =~= all_mutators(
        fields,
        into,
    ));
}

/// A record with named fields and no site named `setters`, on itself or on
/// a field, gets exactly one mutator for each field, in field order, and
/// each takes a value of exactly its field's type.
pub proof fn law_plain_record_gets_exact_mutators(record: RecordView, fields: Seq<FieldView>)
    requires
        record.body == BodyView::Named(fields),
        forall|i: int|
            0 <= i < record.annotations.len() ==> (#[trigger] record.annotations[i]).name()
                != setters_site(),
        forall|i: int, j: int|
            0 <= i < fields.len() && 0 <= j < fields[i].annotations.len() ==> (
            #[trigger] fields[i].annotations[j]).name() != setters_site(),
    ensures
        setters_of(record) == Ok::<ImplBlockView, GenErrorView>(
            ImplBlockView {
                name: record.name,
                generics: record.generics,
                functions: all_mutators(fields, false),
            },
        ),
{
    law_into_defaults_to_false(record.annotations);
    law_record_decides_for_every_field(record, fields, false);
}

} // verus!
