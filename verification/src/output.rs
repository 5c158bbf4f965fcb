//! What the generator emits: function descriptors and the implementation
//! block that holds them, each with its source text.

use vstd::prelude::*;
use crate::error::GenError;
use crate::error::GenErrorView;
use crate::record::Generics;
use crate::record::GenericsView;
use crate::tokens::emit;
use crate::tokens::into_text;
use crate::tokens::lemma_spaced_in_runs;
use crate::tokens::no_tokens;
use crate::tokens::spaced_all;
use crate::tokens::token_text;

verus! {

/// What a generated function does with its field.
#[derive(Debug, Clone, Copy, PartialEq, Eq, Structural)]
pub enum FunctionKind {
    /// Reads the field: takes `&self` and returns a reference into it.
    Accessor,
    /// Overwrites the field with a value of exactly the field's type.
    Mutator,
    /// Overwrites the field with any value that converts into the field's
    /// type, converting it first.
    ConvertingMutator,
}

/// One generated function.
#[derive(Debug, PartialEq, Eq)]
pub struct GeneratedFunction {
    /// What the function does.
    pub kind: FunctionKind,
    /// The function's name.
    pub name: String,
    /// The field that the function reads or writes.
    pub field: String,
    /// For an accessor the declared return type; for a mutator the field's
    /// declared type, which the value has or converts into.
    pub ty: String,
}

/// The mathematical value of a [`GeneratedFunction`].
pub struct GeneratedFunctionView {
    pub kind: FunctionKind,
    pub name: Seq<char>,
    pub field: Seq<char>,
    pub ty: Seq<char>,
}

impl GeneratedFunctionView {
    /// The function's declaration as a run of tokens: the words of the
    /// language in runs of their own, the name, the type and the field each
    /// as one token.
    pub open spec fn pieces(self) -> Seq<Seq<char>> {
        match self.kind {
            FunctionKind::Accessor => seq![
                "pub fn"@,
                self.name,
                "( & self ) ->"@,
                self.ty,
                "{ & self ."@,
                self.field,
                "}"@,
            ],
            FunctionKind::Mutator => seq![
                "pub fn"@,
                self.name,
                "( & mut self , value :"@,
                self.ty,
                ") { self ."@,
                self.field,
                "= value ; }"@,
            ],
            FunctionKind::ConvertingMutator => seq![
                "pub fn"@,
                self.name,
                "< T > ( & mut self , value : T ) where T : Into <"@,
                self.ty,
                "> { self ."@,
                self.field,
                "= value . into ( ) ; }"@,
            ],
        }
    }

    /// The function's declaration as source text.
    pub open spec fn text(self) -> Seq<char> {
        spaced_all(Seq::empty(), self.pieces())
    }
}

impl View for GeneratedFunction {
    type V = GeneratedFunctionView;

    open spec fn view(&self) -> GeneratedFunctionView {
        GeneratedFunctionView {
            kind: self.kind,
            name: self.name@,
            field: self.field@,
            ty: self.ty@,
        }
    }
}

impl Clone for GeneratedFunction {
    fn clone(&self) -> (copy: GeneratedFunction)
        ensures
            copy@ == self@,
    {
        GeneratedFunction {
            kind: self.kind,
            name: self.name.clone(),
            field: self.field.clone(),
            ty: self.ty.clone(),
        }
    }
}

impl GeneratedFunction {
    /// Adds the function's declaration to `tokens`.
    pub fn append_to(&self, tokens: &mut quote::Tokens)
        ensures
            token_text(*final(tokens)) == spaced_all(token_text(*old(tokens)), self@.pieces()),
    {
        let ghost start = token_text(*tokens);
        let mut run: Ghost<Seq<Seq<char>>> = Ghost(Seq::empty());
        emit(tokens, "pub fn", Ghost(start), &mut run);
        emit(tokens, self.name.as_str(), Ghost(start), &mut run);
        match self.kind {
            FunctionKind::Accessor => {
                emit(tokens, "( & self ) ->", Ghost(start), &mut run);
                emit(tokens, self.ty.as_str(), Ghost(start), &mut run);
                emit(tokens, "{ & self .", Ghost(start), &mut run);
                emit(tokens, self.field.as_str(), Ghost(start), &mut run);
                emit(tokens, "}", Ghost(start), &mut run);
            },
            FunctionKind::Mutator => {
                emit(tokens, "( & mut self , value :", Ghost(start), &mut run);
                emit(tokens, self.ty.as_str(), Ghost(start), &mut run);
                emit(tokens, ") { self .", Ghost(start), &mut run);
                emit(tokens, self.field.as_str(), Ghost(start), &mut run);
                emit(tokens, "= value ; }", Ghost(start), &mut run);
            },
            FunctionKind::ConvertingMutator => {
                emit(
                    tokens,
                    "< T > ( & mut self , value : T ) where T : Into <",
                    Ghost(start),
                    &mut run,
                );
                emit(tokens, self.ty.as_str(), Ghost(start), &mut run);
                emit(tokens, "> { self .", Ghost(start), &mut run);
                emit(tokens, self.field.as_str(), Ghost(start), &mut run);
                emit(tokens, "= value . into ( ) ; }", Ghost(start), &mut run);
            },
        }
        assert(run@ =~= self@.pieces());
    }

    /// The function's declaration as source text.
    pub fn text(&self) -> (text: String)
        ensures
            text@ == self@.text(),
    {
        let mut tokens = no_tokens();
        self.append_to(&mut tokens);
        into_text(tokens)
    }
}

/// The values of a sequence of generated functions.
pub open spec fn declarations(functions: Seq<GeneratedFunction>) -> Seq<GeneratedFunctionView> {
    functions.map_values(|function: GeneratedFunction| function@)
}

/// The tokens of the functions, one function after the other.
pub open spec fn function_pieces(functions: Seq<GeneratedFunctionView>) -> Seq<Seq<char>>
    decreases functions.len(),
{
    if functions.len() == 0 {
        Seq::empty()
    } else {
        function_pieces(functions.drop_last()) + functions.last().pieces()
    }
}

/// The implementation block that holds the generated functions of one
/// record.
#[derive(Debug, PartialEq, Eq)]
pub struct ImplBlock {
    /// The name of the record.
    pub name: String,
    /// The generic parameters of the record.
    pub generics: Generics,
    /// The generated functions, in the order of their fields.
    pub functions: Vec<GeneratedFunction>,
}

/// The mathematical value of an [`ImplBlock`].
pub struct ImplBlockView {
    pub name: Seq<char>,
    pub generics: GenericsView,
    pub functions: Seq<GeneratedFunctionView>,
}

impl ImplBlockView {
    /// The tokens of the block's opening, up to its brace.
    pub open spec fn header(self) -> Seq<Seq<char>> {
        seq![
            "impl"@,
            self.generics.declared,
            self.name,
            self.generics.applied,
            self.generics.where_clause,
            "{"@,
        ]
    }

    /// The block as a run of tokens: its opening, its functions, its closing
    /// brace.
    pub open spec fn pieces(self) -> Seq<Seq<char>> {
        self.header() + function_pieces(self.functions) + seq!["}"@]
    }

    /// The block as source text.
    pub open spec fn text(self) -> Seq<char> {
        spaced_all(Seq::empty(), self.pieces())
    }
}

impl View for ImplBlock {
    type V = ImplBlockView;

    open spec fn view(&self) -> ImplBlockView {
        ImplBlockView {
            name: self.name@,
            generics: self.generics@,
            functions: declarations(self.functions@),
        }
    }
}

impl ImplBlock {
    /// The block as tokens.
    pub fn to_tokens(&self) -> (tokens: quote::Tokens)
        ensures
            token_text(tokens) == self@.text(),
    {
        let ghost start = Seq::<char>::empty();
        let mut tokens = no_tokens();
        let mut run: Ghost<Seq<Seq<char>>> = Ghost(Seq::empty());
        emit(&mut tokens, "impl", Ghost(start), &mut run);
        emit(&mut tokens, self.generics.declared.as_str(), Ghost(start), &mut run);
        emit(&mut tokens, self.name.as_str(), Ghost(start), &mut run);
        emit(&mut tokens, self.generics.applied.as_str(), Ghost(start), &mut run);
        emit(&mut tokens, self.generics.where_clause.as_str(), Ghost(start), &mut run);
        emit(&mut tokens, "{", Ghost(start), &mut run);
        let ghost all = declarations(self.functions@);
        let mut at: usize = 0;
        proof {
            assert(run@ =~= self@.header());
            assert(all.take(0) =~= Seq::<GeneratedFunctionView>::empty());
            assert(self@.header() + function_pieces(all.take(0)) =~= self@.header());
        }
        while at < self.functions.len()
            invariant
                at <= self.functions@.len(),
                all == declarations(self.functions@),
                run@ == self@.header() + function_pieces(all.take(at as int)),
                token_text(tokens) == spaced_all(Seq::empty(), run@),
            decreases self.functions@.len() - at,
        {
            self.functions[at].append_to(&mut tokens);
            proof {
                let next = self.functions@[at as int]@.pieces();
                lemma_spaced_in_runs(Seq::empty(), run@, next);
                assert(all.take(at + 1).drop_last() =~= all.take(at as int));
                assert(all.take(at + 1).last() == self.functions@[at as int]@);
                assert(self@.header() + function_pieces(all.take(at + 1)) =~= run@ + next);
            }
            run = Ghost(run@ + self.functions@[at as int]@.pieces());
            at += 1;
        }
        proof {
            assert(all.take(at as int) =~= all);
        }
        emit(&mut tokens, "}", Ghost(start), &mut run);
        assert(run@ =~= self@.pieces());
        tokens
    }

    /// The block as source text.
    pub fn text(&self) -> (text: String)
        ensures
            text@ == self@.text(),
    {
        into_text(self.to_tokens())
    }
}

/// Whether an exec result is the given outcome of generation.
pub open spec fn generates(
    outcome: Result<ImplBlock, GenError>,
    expected: Result<ImplBlockView, GenErrorView>,
) -> bool {
    match outcome {
        Ok(block) => expected == Ok::<ImplBlockView, GenErrorView>(block@),
        Err(failure) => expected == Err::<ImplBlockView, GenErrorView>(failure@),
    }
}

} // verus!
