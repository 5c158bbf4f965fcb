//! Annotations as the generator reads them: sites, their arguments and the
//! literals they hold.

use vstd::prelude::*;
use vstd::string::*;

verus! {

/// A literal value written in an annotation.
#[derive(Debug, PartialEq, Eq)]
pub enum Literal {
    /// `true` or `false`.
    Bool(bool),
    /// The contents of a string literal, without its quotes.
    Str(String),
    /// Any other literal (a number, a character, a byte string), as written.
    Other(String),
}

/// The mathematical value of a [`Literal`].
pub enum LiteralView {
    Bool(bool),
    Str(Seq<char>),
    Other(Seq<char>),
}

impl LiteralView {
    /// The literal as it is shown in a report.
    pub open spec fn syntax(self) -> Seq<char> {
        match self {
            LiteralView::Bool(b) => if b {
                "true"@
            } else {
                "false"@
            },
            LiteralView::Str(s) => "\""@ + s + "\""@,
            LiteralView::Other(s) => s,
        }
    }
}

impl View for Literal {
    type V = LiteralView;

    open spec fn view(&self) -> LiteralView {
        match self {
            Literal::Bool(b) => LiteralView::Bool(*b),
            Literal::Str(s) => LiteralView::Str(s@),
            Literal::Other(s) => LiteralView::Other(s@),
        }
    }
}

impl Clone for Literal {
    fn clone(&self) -> (copy: Literal)
        ensures
            copy@ == self@,
    {
        match self {
            Literal::Bool(b) => Literal::Bool(*b),
            Literal::Str(s) => Literal::Str(s.clone()),
            Literal::Other(s) => Literal::Other(s.clone()),
        }
    }
}

impl Literal {
    /// The literal as it is shown in a report.
    pub fn syntax(&self) -> (text: String)
        ensures
            text@ == self@.syntax(),
    {
        match self {
            Literal::Bool(b) => if *b {
                String::from_str("true")
            } else {
                String::from_str("false")
            },
            Literal::Str(s) => String::from_str("\"").concat(s.as_str()).concat("\""),
            Literal::Other(s) => s.clone(),
        }
    }
}

/// One argument inside the parentheses of an annotation site.
#[derive(Debug, PartialEq, Eq)]
pub enum Argument {
    /// A bare key, `key`.
    Word(String),
    /// A key with a literal, `key = value`.
    NameValue(String, Literal),
    /// A key with a list of its own: the key, then what stands between the
    /// list's parentheses, as written.
    List(String, String),
    /// A literal without a key.
    Literal(Literal),
}

/// The mathematical value of an [`Argument`].
pub enum ArgumentView {
    Word(Seq<char>),
    NameValue(Seq<char>, LiteralView),
    List(Seq<char>, Seq<char>),
    Literal(LiteralView),
}

impl ArgumentView {
    /// The argument as it is shown in a report.
    pub open spec fn syntax(self) -> Seq<char> {
        match self {
            ArgumentView::Word(name) => name,
            ArgumentView::NameValue(name, value) => name + " = "@ + value.syntax(),
            ArgumentView::List(name, contents) => name + "("@ + contents + ")"@,
            ArgumentView::Literal(value) => value.syntax(),
        }
    }
}

impl View for Argument {
    type V = ArgumentView;

    open spec fn view(&self) -> ArgumentView {
        match self {
            Argument::Word(name) => ArgumentView::Word(name@),
            Argument::NameValue(name, value) => ArgumentView::NameValue(name@, value@),
            Argument::List(name, contents) => ArgumentView::List(name@, contents@),
            Argument::Literal(value) => ArgumentView::Literal(value@),
        }
    }
}

impl Clone for Argument {
    fn clone(&self) -> (copy: Argument)
        ensures
            copy@ == self@,
    {
        match self {
            Argument::Word(name) => Argument::Word(name.clone()),
            Argument::NameValue(name, value) => Argument::NameValue(name.clone(), value.clone()),
            Argument::List(name, contents) => Argument::List(name.clone(), contents.clone()),
            Argument::Literal(value) => Argument::Literal(value.clone()),
        }
    }
}

impl Argument {
    /// The argument as it is shown in a report.
    pub fn syntax(&self) -> (text: String)
        ensures
            text@ == self@.syntax(),
    {
        match self {
            Argument::Word(name) => name.clone(),
            Argument::NameValue(name, value) => {
                let shown = value.syntax();
                name.clone().concat(" = ").concat(shown.as_str())
            },
            Argument::List(name, contents) => name.clone().concat("(").concat(
                contents.as_str(),
            ).concat(")"),
            Argument::Literal(value) => value.syntax(),
        }
    }
}

/// The arguments of a site as they are shown in a report: each as it is
/// shown itself, with a comma and a space between two of them.
pub open spec fn arguments_syntax(arguments: Seq<ArgumentView>) -> Seq<char>
    decreases arguments.len(),
{
    if arguments.len() == 0 {
        Seq::empty()
    } else if arguments.len() == 1 {
        arguments[0].syntax()
    } else {
        arguments_syntax(arguments.drop_last()) + ", "@ + arguments.last().syntax()
    }
}

/// One annotation site attached to a record or to a field.
#[derive(Debug, PartialEq, Eq)]
pub enum Annotation {
    /// A bare word, `#[name]`.
    Word(String),
    /// The keyed list form, `#[name(..)]`, with its arguments in order.
    List(String, Vec<Argument>),
    /// A name with a literal, `#[name = value]`.
    NameValue(String, Literal),
}

/// The mathematical value of an [`Annotation`].
pub enum AnnotationView {
    Word(Seq<char>),
    List(Seq<char>, Seq<ArgumentView>),
    NameValue(Seq<char>, LiteralView),
}

impl AnnotationView {
    /// The name of the site: the word before any list or value.
    pub open spec fn name(self) -> Seq<char> {
        match self {
            AnnotationView::Word(name) => name,
            AnnotationView::List(name, _) => name,
            AnnotationView::NameValue(name, _) => name,
        }
    }

    /// The site as it is shown in a report.
    pub open spec fn syntax(self) -> Seq<char> {
        match self {
            AnnotationView::Word(name) => name,
            AnnotationView::List(name, arguments) => name + "("@ + arguments_syntax(arguments)
                + ")"@,
            AnnotationView::NameValue(name, value) => name + " = "@ + value.syntax(),
        }
    }
}

impl View for Annotation {
    type V = AnnotationView;

    open spec fn view(&self) -> AnnotationView {
        match self {
            Annotation::Word(name) => AnnotationView::Word(name@),
            Annotation::List(name, args) => AnnotationView::List(
                name@,
                Seq::new(args@.len(), |i: int| args@[i]@),
            ),
            Annotation::NameValue(name, value) => AnnotationView::NameValue(name@, value@),
        }
    }
}

impl Clone for Annotation {
    fn clone(&self) -> (copy: Annotation)
        ensures
            copy@ == self@,
    {
        match self {
            Annotation::Word(name) => Annotation::Word(name.clone()),
            Annotation::List(name, arguments) => {
                let mut copied: Vec<Argument> = Vec::new();
                let mut at: usize = 0;
                while at < arguments.len()
                    invariant
                        at <= arguments@.len(),
                        copied@.len() == at,
                        forall|i: int| 0 <= i < at ==> (#[trigger] copied@[i])@ == arguments@[i]@,
                    decreases arguments@.len() - at,
                {
                    copied.push(arguments[at].clone());
                    at += 1;
                }
                let copy = Annotation::List(name.clone(), copied);
                assert(copy@->List_1 =~= self@->List_1);
                copy
            },
            Annotation::NameValue(name, value) => Annotation::NameValue(
                name.clone(),
                value.clone(),
            ),
        }
    }
}

impl Annotation {
    /// The name of the site.
    pub fn name(&self) -> (name: &String)
        ensures
            name@ == self@.name(),
    {
        match self {
            Annotation::Word(name) => name,
            Annotation::List(name, _) => name,
            Annotation::NameValue(name, _) => name,
        }
    }

    /// The site as it is shown in a report.
    pub fn syntax(&self) -> (text: String)
        ensures
            text@ == self@.syntax(),
    {
        match self {
            Annotation::Word(name) => name.clone(),
            Annotation::List(name, arguments) => {
                let ghost all = self@->List_1;
                let mut text = name.clone().concat("(");
                let mut at: usize = 0;
                assert(all.take(0) =~= Seq::<ArgumentView>::empty());
                while at < arguments.len()
                    invariant
                        at <= arguments@.len(),
                        all.len() == arguments@.len(),
                        forall|i: int| 0 <= i < all.len() ==> all[i] == (#[trigger] arguments@[i])@,
                        text@ == name@ + "("@ + arguments_syntax(all.take(at as int)),
                    decreases arguments@.len() - at,
                {
                    let shown = arguments[at].syntax();
                    proof {
                        assert(all.take(at + 1).drop_last() =~= all.take(at as int));
                        assert(all.take(at + 1).last() == arguments@[at as int]@);
                        assert(all.take(at + 1)[0] == all[0]);
                    }
                    if at > 0 {
                        text.append(", ");
                    }
                    text.append(shown.as_str());
                    assert(text@ =~= name@ + "("@ + arguments_syntax(all.take(at + 1)));
                    at += 1;
                }
                assert(all.take(at as int) =~= all);
                text.concat(")")
            },
            Annotation::NameValue(name, value) => {
                let shown = value.syntax();
                name.clone().concat(" = ").concat(shown.as_str())
            },
        }
    }
}

} // verus!
