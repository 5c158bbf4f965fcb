//! Policy logic for deriving accessor and mutator functions from a record
//! definition and its annotations.
//!
//! A [`record::Record`] describes one annotated data type: its name, its
//! generics, its fields and the annotations on both. [`getters::expand_getters`]
//! and [`setters::expand_setters`] turn such a description into the functions
//! of an implementation block, or into the first failure of the description;
//! [`output::ImplBlock::to_tokens`] gives the block as tokens.
//!
//! Options are read by [`config::config_from`] from annotation sites of the
//! keyed list form, `name(key, key = value)`:
//!
//! | Site | Option | Value | Effect |
//! |---|---|---|---|
//! | `getters` | `ignore` | boolean | no accessor is generated |
//! | `getters` | `return_type` | string | the accessor declares this return type |
//! | `setters` | `into` | boolean | mutators take any value that converts into the field's type |
//!
//! A `getters` site stands on a field, or on the record for all its fields;
//! what a field sets stands over what the record sets. A `setters` site on
//! the record decides for every mutator; one on a field is read in the same
//! way and may hold `into`, which changes nothing there.
//!
//! Generation is all or nothing. A site that is not a keyed list, a key that
//! is not recognized, a value of the wrong kind and a record without named
//! fields each end it with a [`error::GenError`].
//!
//! Every function states its result over the views of its arguments, and
//! [`laws`] proves what follows for every record.

pub mod annotation;
pub mod config;
pub mod error;
pub mod getters;
pub mod laws;
pub mod output;
pub mod record;
pub mod setters;
pub mod tokens;
