//! Configurations: the options that the annotation sites of one scope set,
//! and how they are read from the sites.

use vstd::prelude::*;
use vstd::string::*;
use crate::annotation::Annotation;
use crate::annotation::AnnotationView;
use crate::annotation::Argument;
use crate::annotation::ArgumentView;
use crate::annotation::Literal;
use crate::annotation::LiteralView;
use crate::error::GenError;
use crate::error::GenErrorView;

verus! {

/// The options of one scope as a mapping from option name to value.
pub type Options = Map<Seq<char>, LiteralView>;

/// What reading annotations yields: the options, or the first failure.
pub type Parsed = Result<Options, GenErrorView>;

/// The texts of a sequence of strings.
pub open spec fn texts(names: Seq<String>) -> Seq<Seq<char>> {
    names.map_values(|name: String| name@)
}

/// The values of a sequence of annotation sites.
pub open spec fn sites(annotations: Seq<Annotation>) -> Seq<AnnotationView> {
    annotations.map_values(|site: Annotation| site@)
}

/// The mapping that a list of entries stands for: each entry is written in
/// turn, a later one over an earlier one of the same key.
pub open spec fn entries_map(entries: Seq<(String, Literal)>) -> Options
    decreases entries.len(),
{
    if entries.len() == 0 {
        Map::empty()
    } else {
        entries_map(entries.drop_last()).insert(entries.last().0@, entries.last().1@)
    }
}

/// No key occurs in two entries.
pub open spec fn distinct_keys(entries: Seq<(String, Literal)>) -> bool {
    forall|i: int, j: int|
        0 <= i < j < entries.len() ==> (#[trigger] entries[i]).0@ != (#[trigger] entries[j]).0@
}

/// A key that no entry holds is not in the mapping.
pub proof fn lemma_absent_key(entries: Seq<(String, Literal)>, key: Seq<char>)
    requires
        forall|i: int| 0 <= i < entries.len() ==> (#[trigger] entries[i]).0@ != key,
    ensures
        !entries_map(entries).contains_key(key),
    decreases entries.len(),
{
    if entries.len() > 0 {
        let init = entries.drop_last();
        assert forall|i: int| 0 <= i < init.len() implies (#[trigger] init[i]).0@ != key by {
            assert(init[i] == entries[i]);
        }
        lemma_absent_key(init, key);
        assert(entries.last() == entries[entries.len() - 1]);
    }
}

/// Where keys are distinct, the mapping gives each entry's key that entry's
/// value.
pub proof fn lemma_present_key(entries: Seq<(String, Literal)>, at: int)
    requires
        distinct_keys(entries),
        0 <= at < entries.len(),
    ensures
        entries_map(entries).contains_key(entries[at].0@),
        entries_map(entries)[entries[at].0@] == entries[at].1@,
    decreases entries.len(),
{
    let init = entries.drop_last();
    if at < entries.len() - 1 {
        assert(distinct_keys(init)) by {
            assert forall|i: int, j: int| 0 <= i < j < init.len() implies (#[trigger] init[i]).0@
                != (#[trigger] init[j]).0@ by {
                assert(init[i] == entries[i]);
                assert(init[j] == entries[j]);
            }
        }
        lemma_present_key(init, at);
        assert(init[at] == entries[at]);
        assert(entries.last() == entries[entries.len() - 1]);
    }
}

/// Writing a new value into the entry that holds a key writes it into the
/// mapping.
pub proof fn lemma_replaced_entry(
    entries: Seq<(String, Literal)>,
    at: int,
    entry: (String, Literal),
)
    requires
        distinct_keys(entries),
        0 <= at < entries.len(),
        entries[at].0@ == entry.0@,
    ensures
        distinct_keys(entries.update(at, entry)),
        entries_map(entries.update(at, entry)) == entries_map(entries).insert(entry.0@, entry.1@),
    decreases entries.len(),
{
    let after = entries.update(at, entry);
    assert(distinct_keys(after)) by {
        assert forall|i: int, j: int| 0 <= i < j < after.len() implies (#[trigger] after[i]).0@
            != (#[trigger] after[j]).0@ by {
            assert(after[i].0@ == entries[i].0@);
            assert(after[j].0@ == entries[j].0@);
        }
    }
    let init = entries.drop_last();
    if at == entries.len() - 1 {
        assert(after.drop_last() =~= init);
        assert(entries_map(after) =~= entries_map(entries).insert(entry.0@, entry.1@));
    } else {
        assert(distinct_keys(init)) by {
            assert forall|i: int, j: int| 0 <= i < j < init.len() implies (#[trigger] init[i]).0@
                != (#[trigger] init[j]).0@ by {
                assert(init[i] == entries[i]);
                assert(init[j] == entries[j]);
            }
        }
        lemma_replaced_entry(init, at, entry);
        assert(after.drop_last() =~= init.update(at, entry));
        assert(after.last() == entries.last());
        assert(entries[at].0@ != entries[entries.len() - 1].0@);
        assert(entries_map(after) =~= entries_map(entries).insert(entry.0@, entry.1@));
    }
}

/// What one argument of a site does to the options read so far. A key must
/// be recognized before its form is looked at; a bare key sets `true`.
pub open spec fn apply_argument(options: Options, argument: ArgumentView, keys: Seq<Seq<char>>)
    -> Parsed {
    match argument {
        ArgumentView::Literal(_) => Err(GenErrorView::MalformedAttribute(argument.syntax())),
        ArgumentView::Word(name) => if keys.contains(name) {
            Ok(options.insert(name, LiteralView::Bool(true)))
        } else {
            Err(GenErrorView::UnknownOption(name))
        },
        ArgumentView::NameValue(name, value) => if keys.contains(name) {
            Ok(options.insert(name, value))
        } else {
            Err(GenErrorView::UnknownOption(name))
        },
        ArgumentView::List(name, _) => if keys.contains(name) {
            Err(GenErrorView::MalformedAttribute(argument.syntax()))
        } else {
            Err(GenErrorView::UnknownOption(name))
        },
    }
}

/// What the arguments of a site do, taken in order up to the first failure.
pub open spec fn apply_arguments(
    options: Options,
    arguments: Seq<ArgumentView>,
    keys: Seq<Seq<char>>,
) -> Parsed
    decreases arguments.len(),
{
    if arguments.len() == 0 {
        Ok(options)
    } else {
        match apply_argument(options, arguments[0], keys) {
            Ok(next) => apply_arguments(next, arguments.skip(1), keys),
            Err(failure) => Err(failure),
        }
    }
}

/// What one site does: only the keyed list form is read.
pub open spec fn apply_site(options: Options, site: AnnotationView, keys: Seq<Seq<char>>)
    -> Parsed {
    match site {
        AnnotationView::List(_, arguments) => apply_arguments(options, arguments, keys),
        _ => Err(GenErrorView::MalformedAttribute(site.syntax())),
    }
}

/// What the sites named `name` among `annotations` do, taken in order up to
/// the first failure; sites of another name are passed over.
pub open spec fn apply_sites(
    options: Options,
    annotations: Seq<AnnotationView>,
    name: Seq<char>,
    keys: Seq<Seq<char>>,
) -> Parsed
    decreases annotations.len(),
{
    if annotations.len() == 0 {
        Ok(options)
    } else if annotations[0].name() != name {
        apply_sites(options, annotations.skip(1), name, keys)
    } else {
        match apply_site(options, annotations[0], keys) {
            Ok(next) => apply_sites(next, annotations.skip(1), name, keys),
            Err(failure) => Err(failure),
        }
    }
}

/// The configuration that the sites named `name` declare, read from nothing.
pub open spec fn parse_sites(
    annotations: Seq<AnnotationView>,
    name: Seq<char>,
    keys: Seq<Seq<char>>,
) -> Parsed {
    apply_sites(Map::empty(), annotations, name, keys)
}

/// Whether an exec result is the given outcome of reading annotations.
pub open spec fn reads_as(outcome: Result<Configuration, GenError>, parsed: Parsed) -> bool {
    match outcome {
        Ok(config) => parsed == Ok::<Options, GenErrorView>(config@),
        Err(failure) => parsed == Err::<Options, GenErrorView>(failure@),
    }
}

/// Every key of `options` is among `keys`.
pub open spec fn within(options: Options, keys: Seq<Seq<char>>) -> bool {
    forall|key: Seq<char>| #[trigger] options.contains_key(key) ==> keys.contains(key)
}

/// Arguments that are read to their end set recognized keys only.
pub proof fn lemma_arguments_stay_within(
    options: Options,
    arguments: Seq<ArgumentView>,
    keys: Seq<Seq<char>>,
)
    requires
        within(options, keys),
        apply_arguments(options, arguments, keys) is Ok,
    ensures
        within(apply_arguments(options, arguments, keys)->Ok_0, keys),
    decreases arguments.len(),
{
    if arguments.len() > 0 {
        let next = apply_argument(options, arguments[0], keys)->Ok_0;
        assert(within(next, keys));
        lemma_arguments_stay_within(next, arguments.skip(1), keys);
    }
}

/// Sites that are read to their end set recognized keys only: a
/// configuration never holds a key that its reader does not recognize.
pub proof fn lemma_sites_stay_within(
    options: Options,
    annotations: Seq<AnnotationView>,
    name: Seq<char>,
    keys: Seq<Seq<char>>,
)
    requires
        within(options, keys),
        apply_sites(options, annotations, name, keys) is Ok,
    ensures
        within(apply_sites(options, annotations, name, keys)->Ok_0, keys),
    decreases annotations.len(),
{
    if annotations.len() > 0 {
        if annotations[0].name() != name {
            lemma_sites_stay_within(options, annotations.skip(1), name, keys);
        } else {
            let next = apply_site(options, annotations[0], keys)->Ok_0;
            lemma_arguments_stay_within(options, annotations[0]->List_1, keys);
            lemma_sites_stay_within(next, annotations.skip(1), name, keys);
        }
    }
}

/// The resolved options of one scope: each option name with its value.
#[derive(Debug)]
pub struct Configuration {
    entries: Vec<(String, Literal)>,
}

impl View for Configuration {
    type V = Options;

    closed spec fn view(&self) -> Options {
        entries_map(self.entries@)
    }
}

impl Configuration {
    #[verifier::type_invariant]
    spec fn keys_are_distinct(self) -> bool {
        distinct_keys(self.entries@)
    }

    /// The configuration that sets no option.
    pub fn new() -> (config: Configuration)
        ensures
            config@ == Map::<Seq<char>, LiteralView>::empty(),
    {
        Configuration { entries: Vec::new() }
    }

    /// Where the entry of `key` stands, if there is one.
    fn position(&self, key: &String) -> (found: Option<usize>)
        ensures
            match found {
                Some(at) => at < self.entries@.len() && self.entries@[at as int].0@ == key@,
                None => forall|i: int|
                    0 <= i < self.entries@.len() ==> (#[trigger] self.entries@[i]).0@ != key@,
            },
    {
        let mut at: usize = 0;
        while at < self.entries.len()
            invariant
                at <= self.entries@.len(),
                forall|i: int| 0 <= i < at ==> (#[trigger] self.entries@[i]).0@ != key@,
            decreases self.entries@.len() - at,
        {
            if self.entries[at].0 == *key {
                return Some(at);
            }
            at += 1;
        }
        None
    }

    /// This configuration with `key` set to `value`, over any value that it
    /// had.
    pub fn with(self, key: String, value: Literal) -> (config: Configuration)
        ensures
            config@ == self@.insert(key@, value@),
    {
        proof {
            use_type_invariant(&self);
        }
        let found = self.position(&key);
        let mut entries = self.entries;
        let ghost before = entries@;
        match found {
            Some(at) => {
                proof {
                    lemma_replaced_entry(before, at as int, (key, value));
                }
                entries.set(at, (key, value));
            },
            None => {
                entries.push((key, value));
                proof {
                    assert(entries@.drop_last() =~= before);
                    assert forall|i: int, j: int|
                        0 <= i < j < entries@.len() implies (#[trigger] entries@[i]).0@
                        != (#[trigger] entries@[j]).0@ by {
                        assert(before[i] == entries@[i]);
                        if j < before.len() {
                            assert(before[j] == entries@[j]);
                        }
                    }
                }
            },
        }
        Configuration { entries }
    }

    /// The value of `key`, if the configuration sets it.
    pub fn get(&self, key: &str) -> (value: Option<&Literal>)
        ensures
            match value {
                Some(found) => self@.contains_key(key@) && found@ == self@[key@],
                None => !self@.contains_key(key@),
            },
    {
        proof {
            use_type_invariant(self);
        }
        let wanted = String::from_str(key);
        match self.position(&wanted) {
            Some(at) => {
                proof {
                    lemma_present_key(self.entries@, at as int);
                }
                Some(&self.entries[at].1)
            },
            None => {
                proof {
                    lemma_absent_key(self.entries@, key@);
                }
                None
            },
        }
    }
}

/// Whether `name` is among the recognized option names.
pub fn recognizes(keys: &Vec<String>, name: &String) -> (known: bool)
    ensures
        known == texts(keys@).contains(name@),
{
    let mut at: usize = 0;
    while at < keys.len()
        invariant
            at <= keys@.len(),
            forall|i: int| 0 <= i < at ==> (#[trigger] texts(keys@)[i]) != name@,
        decreases keys@.len() - at,
    {
        if keys[at] == *name {
            assert(texts(keys@)[at as int] == name@);
            return true;
        }
        at += 1;
    }
    false
}

/// Reads one argument of a site into `config`.
fn read_argument(config: Configuration, argument: &Argument, keys: &Vec<String>) -> (outcome:
    Result<Configuration, GenError>)
    ensures
        reads_as(outcome, apply_argument(config@, argument@, texts(keys@))),
{
    match argument {
        Argument::Literal(_) => Err(GenError::MalformedAttribute(argument.syntax())),
        Argument::Word(name) => if recognizes(keys, name) {
            Ok(config.with(name.clone(), Literal::Bool(true)))
        } else {
            Err(GenError::UnknownOption(name.clone()))
        },
        Argument::NameValue(name, value) => if recognizes(keys, name) {
            Ok(config.with(name.clone(), value.clone()))
        } else {
            Err(GenError::UnknownOption(name.clone()))
        },
        Argument::List(name, _) => if recognizes(keys, name) {
            Err(GenError::MalformedAttribute(argument.syntax()))
        } else {
            Err(GenError::UnknownOption(name.clone()))
        },
    }
}

/// Reads one site into `config`.
fn read_site(config: Configuration, site: &Annotation, keys: &Vec<String>) -> (outcome: Result<
    Configuration,
    GenError,
>)
    ensures
        reads_as(outcome, apply_site(config@, site@, texts(keys@))),
{
    match site {
        Annotation::List(_, arguments) => {
            let ghost goal = apply_site(config@, site@, texts(keys@));
            let ghost all = site@->List_1;
            let mut current = config;
            let mut at: usize = 0;
            assert(all.skip(0) =~= all);
            while at < arguments.len()
                invariant
                    at <= arguments@.len(),
                    all.len() == arguments@.len(),
                    forall|i: int| 0 <= i < all.len() ==> all[i] == (#[trigger] arguments@[i])@,
                    apply_arguments(current@, all.skip(at as int), texts(keys@)) == goal,
                    goal == apply_site(config@, site@, texts(keys@)),
                decreases arguments@.len() - at,
            {
                proof {
                    assert(all.skip(at as int)[0] == arguments@[at as int]@);
                    assert(all.skip(at as int).skip(1) =~= all.skip(at + 1));
                }
                match read_argument(current, &arguments[at], keys) {
                    Ok(next) => {
                        current = next;
                    },
                    Err(failure) => {
                        return Err(failure);
                    },
                }
                at += 1;
            }
            Ok(current)
        },
        _ => Err(GenError::MalformedAttribute(site.syntax())),
    }
}

/// Reads the configuration that the sites named `name` among `annotations`
/// declare, where `keys` are the option names that the caller recognizes.
///
/// Sites are read in order and a later value of a key replaces an earlier
/// one. The first site that is not a keyed list, the first key that is not
/// recognized and the first argument that is neither `key` nor `key = value`
/// each end the reading with their error.
pub fn config_from(annotations: &Vec<Annotation>, name: &str, keys: &Vec<String>) -> (outcome:
    Result<Configuration, GenError>)
    ensures
        reads_as(outcome, parse_sites(sites(annotations@), name@, texts(keys@))),
        outcome matches Ok(config) ==> within(config@, texts(keys@)),
{
    let ghost goal = parse_sites(sites(annotations@), name@, texts(keys@));
    proof {
        if goal is Ok {
            lemma_sites_stay_within(Map::empty(), sites(annotations@), name@, texts(keys@));
        }
    }
    let wanted = String::from_str(name);
    let mut config = Configuration::new();
    let mut at: usize = 0;
    assert(sites(annotations@).skip(0) =~= sites(annotations@));
    while at < annotations.len()
        invariant
            at <= annotations@.len(),
            wanted@ == name@,
            apply_sites(config@, sites(annotations@).skip(at as int), name@, texts(keys@)) == goal,
            goal == parse_sites(sites(annotations@), name@, texts(keys@)),
            goal is Ok ==> within(goal->Ok_0, texts(keys@)),
        decreases annotations@.len() - at,
    {
        proof {
            assert(sites(annotations@).skip(at as int)[0] == annotations@[at as int]@);
            assert(sites(annotations@).skip(at as int).skip(1) =~= sites(annotations@).skip(
                at + 1,
            ));
        }
        let site = &annotations[at];
        if *site.name() == wanted {
            match read_site(config, site, keys) {
                Ok(next) => {
                    config = next;
                },
                Err(failure) => {
                    return Err(failure);
                },
            }
        }
        at += 1;
    }
    Ok(config)
}

} // verus!
