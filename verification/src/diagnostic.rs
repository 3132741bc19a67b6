//! Compile errors reported when `Try` cannot be derived: a message, and help
//! notes that each point at a part of the item.
use vstd::prelude::*;

verus! {

/// What went wrong.
#[derive(Debug, PartialEq, Eq, Structural, Clone, Copy)]
pub enum ErrorKind {
    NotAnEnum,
    MissingOutputGeneric,
    NoVariants,
    OutputGenericMismatch,
    SingleOutputRequired,
    UnnamedOutputRequired,
    OutputNotFirstGeneric,
}

/// The part of the item a help note points at.
#[derive(Debug, PartialEq, Eq, Structural, Clone, Copy)]
pub enum Span {
    /// The item's name.
    Name,
    /// The `struct` keyword.
    StructToken,
    /// The `union` keyword.
    UnionToken,
    /// The braces around the enum's variants.
    Brace,
    /// The first type parameter.
    FirstGeneric,
    /// The output (first) variant.
    OutputVariant,
    /// The fields of the output variant.
    OutputFields,
    /// The type being checked as the `Output` type.
    OutputType,
    /// The identifier behind the reference in the output variant's field.
    ReferencedType,
}

/// The text of a help note; identifiers and lifetimes are those of the item.
#[derive(Debug, PartialEq, Eq, Clone, Copy)]
pub enum HelpText<'a> {
    /// "not an enum"
    NotAnEnum,
    /// "Add <T> after this..."
    AddGeneric,
    /// "add at least two variants here..."
    AddVariants,
    /// "Output type defined here"
    OutputDefinedHere,
    /// "change this to {ident}"
    ChangeTo(&'a String),
    /// "change this to ({ident})"
    ChangeToTuple(&'a String),
    /// "change this to &{lifetime} {ident}"
    ChangeToRef(&'a String, &'a String),
    /// "change this to (&{lifetime} {ident})"
    ChangeToRefTuple(&'a String, &'a String),
    /// "add ({ident}) after this..."
    AddTupleAfter(&'a String),
}

/// A help note.
#[derive(Debug, PartialEq, Eq, Clone, Copy)]
pub struct Help<'a> {
    pub span: Span,
    pub text: HelpText<'a>,
}

/// A compile error with its help notes, in the order they are added.
#[derive(Debug, PartialEq, Eq)]
pub struct Diagnostic<'a> {
    pub kind: ErrorKind,
    pub helps: Vec<Help<'a>>,
}

/// The message of each kind of error.
pub open spec fn message_spec(kind: ErrorKind) -> Seq<char> {
    match kind {
        ErrorKind::NotAnEnum => "Try can only be derived for an enum"@,
        ErrorKind::MissingOutputGeneric => "Try requires a generic type for `Output`"@,
        ErrorKind::NoVariants => "Try cannot be derived for a zero-field enum"@,
        ErrorKind::OutputGenericMismatch => "Try requires the first generic type to match the `Output` type"@,
        ErrorKind::SingleOutputRequired => "Try requires a single generic type for `Output`"@,
        ErrorKind::UnnamedOutputRequired => "Try requires an unnamed field for the `Output` variant"@,
        ErrorKind::OutputNotFirstGeneric => "Try requires the first generic type to be used as the `Output` type"@,
    }
}

/// The text of each help note.
pub open spec fn help_text_spec(text: HelpText) -> Seq<char> {
    match text {
        HelpText::NotAnEnum => "not an enum"@,
        HelpText::AddGeneric => "Add <T> after this..."@,
        HelpText::AddVariants => "add at least two variants here..."@,
        HelpText::OutputDefinedHere => "Output type defined here"@,
        HelpText::ChangeTo(ident) => "change this to "@ + ident@,
        HelpText::ChangeToTuple(ident) => "change this to ("@ + ident@ + ")"@,
        HelpText::ChangeToRef(lifetime, ident) => "change this to &"@ + lifetime@ + " "@ + ident@,
        HelpText::ChangeToRefTuple(lifetime, ident) => "change this to (&"@ + lifetime@ + " "@
            + ident@ + ")"@,
        HelpText::AddTupleAfter(ident) => "add ("@ + ident@ + ") after this..."@,
    }
}

impl ErrorKind {
    /// The message of this error.
    pub fn message(&self) -> (r: &'static str)
        ensures
            r@ == message_spec(*self),
    {
        match self {
            ErrorKind::NotAnEnum => "Try can only be derived for an enum",
            ErrorKind::MissingOutputGeneric => "Try requires a generic type for `Output`",
            ErrorKind::NoVariants => "Try cannot be derived for a zero-field enum",
            ErrorKind::OutputGenericMismatch => "Try requires the first generic type to match the `Output` type",
            ErrorKind::SingleOutputRequired => "Try requires a single generic type for `Output`",
            ErrorKind::UnnamedOutputRequired => "Try requires an unnamed field for the `Output` variant",
            ErrorKind::OutputNotFirstGeneric => "Try requires the first generic type to be used as the `Output` type",
        }
    }
}

fn text_from(piece: &str) -> (r: String)
    ensures
        r@ == piece@,
{
    let mut s = String::new();
    s.append(piece);
    proof {
        assert(s@ =~= piece@);
    }
    s
}

impl<'a> HelpText<'a> {
    /// The text of this help note.
    pub fn text(&self) -> (r: String)
        ensures
            r@ == help_text_spec(*self),
    {
        match self {
            HelpText::NotAnEnum => text_from("not an enum"),
            HelpText::AddGeneric => text_from("Add <T> after this..."),
            HelpText::AddVariants => text_from("add at least two variants here..."),
            HelpText::OutputDefinedHere => text_from("Output type defined here"),
            HelpText::ChangeTo(ident) => {
                let mut s = text_from("change this to ");
                s.append(ident.as_str());
                s
            },
            HelpText::ChangeToTuple(ident) => {
                let mut s = text_from("change this to (");
                s.append(ident.as_str());
                s.append(")");
                s
            },
            HelpText::ChangeToRef(lifetime, ident) => {
                let mut s = text_from("change this to &");
                s.append(lifetime.as_str());
                s.append(" ");
                s.append(ident.as_str());
                s
            },
            HelpText::ChangeToRefTuple(lifetime, ident) => {
                let mut s = text_from("change this to (&");
                s.append(lifetime.as_str());
                s.append(" ");
                s.append(ident.as_str());
                s.append(")");
                s
            },
            HelpText::AddTupleAfter(ident) => {
                let mut s = text_from("add (");
                s.append(ident.as_str());
                s.append(") after this...");
                s
            },
        }
    }
}

impl<'a> Diagnostic<'a> {
    /// A new error with no help notes.
    pub fn error(kind: ErrorKind) -> (r: Self)
        ensures
            r.kind == kind,
            r.helps@ == Seq::<Help<'a>>::empty(),
    {
        Diagnostic { kind, helps: Vec::new() }
    }

    /// Adds a help note pointing at `span`.
    pub fn add_help(self, span: Span, text: HelpText<'a>) -> (r: Self)
        ensures
            r.kind == self.kind,
            r.helps@ == self.helps@.push(Help { span, text }),
    {
        let mut helps = self.helps;
        helps.push(Help { span, text });
        Diagnostic { kind: self.kind, helps }
    }

    /// An error of `kind` with one help note, or two.
    pub(crate) fn with_helps(kind: ErrorKind, first: Help<'a>, second: Option<Help<'a>>) -> (r:
        Self)
        ensures
            r.kind == kind,
            r.helps@ == match second {
                Some(h) => seq![first, h],
                None => seq![first],
            },
    {
        let d = Diagnostic::error(kind).add_help(first.span, first.text);
        match second {
            Some(h) => {
                let d2 = d.add_help(h.span, h.text);
                proof {
                    assert(d2.helps@ =~= seq![first, h]);
                }
                d2
            },
            None => {
                proof {
                    assert(d.helps@ =~= seq![first]);
                }
                d
            },
        }
    }
}

} // verus!
