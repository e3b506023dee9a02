//! Reading the command line word by word, with the `lexopt` crate.

use vstd::prelude::*;

verus! {

/// A command line in the course of being read (`lexopt::Parser`).
#[verifier::external_type_specification]
#[verifier::external_body]
pub struct ExParser(lexopt::Parser);

/// The bytes that a parser has not handed out yet: what is left of the word it
/// is in, where something is, and the words after it.
pub uninterp spec fn parser_unread(p: lexopt::Parser) -> Seq<Seq<u8>>;

/// Everything else that a parser goes by: whether it is inside a word and of
/// which kind, whether options are over, the last option, and its settings.
pub uninterp spec fn parser_mode(p: lexopt::Parser) -> Seq<u8>;

/// What `lexopt::Parser::next` finds in a parser with these unread bytes and
/// this mode, and what is unread and the mode after.
pub uninterp spec fn lexed_next(unread: Seq<Seq<u8>>, mode: Seq<u8>) -> (
    NextView,
    Seq<Seq<u8>>,
    Seq<u8>,
);

/// What `lexopt::Parser::value` finds in a parser with these unread bytes and
/// this mode, and what is unread and the mode after.
pub uninterp spec fn lexed_value(unread: Seq<Seq<u8>>, mode: Seq<u8>) -> (
    ValueView,
    Seq<Seq<u8>>,
    Seq<u8>,
);

/// A measure of the unread bytes: a word counts one more than its length.
pub open spec fn unread_size(unread: Seq<Seq<u8>>) -> nat
    decreases unread.len(),
{
    if unread.len() == 0 {
        0
    } else {
        unread_size(unread.drop_last()) + unread.last().len() + 1
    }
}

/// The kind of an argument.
pub enum ArgShape {
    /// A short option.
    Short(char),
    /// A long option.
    Long(String),
    /// A free-standing word.
    Value,
}

/// The kind of an argument as mathematical value.
pub enum ShapeView {
    /// A short option.
    Short(char),
    /// A long option.
    Long(Seq<char>),
    /// A free-standing word.
    Value,
}

impl View for ArgShape {
    type V = ShapeView;

    open spec fn view(&self) -> ShapeView {
        match self {
            ArgShape::Short(c) => ShapeView::Short(*c),
            ArgShape::Long(s) => ShapeView::Long(s@),
            ArgShape::Value => ShapeView::Value,
        }
    }
}

/// An argument, and the text that refuses it where it is not known.
pub struct LexedArg {
    /// The argument.
    pub shape: ArgShape,
    /// The refusal.
    pub refusal: String,
}

/// What a look for the next argument finds.
pub enum NextView {
    /// No more arguments.
    End,
    /// An error, with its text.
    Bad(Seq<char>),
    /// An argument and its refusal.
    Item(ShapeView, Seq<char>),
}

/// A finding as mathematical value.
pub open spec fn next_view(r: Result<Option<LexedArg>, String>) -> NextView {
    match r {
        Ok(None) => NextView::End,
        Ok(Some(a)) => NextView::Item(a.shape@, a.refusal@),
        Err(e) => NextView::Bad(e@),
    }
}

/// The value of an option.
pub enum OptionValue {
    /// A text.
    Text(String),
    /// Bytes that are no text.
    NotUnicode,
    /// None, with the text of the error.
    Missing(String),
}

/// The value of an option as mathematical value.
pub enum ValueView {
    /// A text.
    Text(Seq<char>),
    /// Bytes that are no text.
    NotUnicode,
    /// None, with the text of the error.
    Missing(Seq<char>),
}

impl View for OptionValue {
    type V = ValueView;

    open spec fn view(&self) -> ValueView {
        match self {
            OptionValue::Text(s) => ValueView::Text(s@),
            OptionValue::NotUnicode => ValueView::NotUnicode,
            OptionValue::Missing(e) => ValueView::Missing(e@),
        }
    }
}

/// Takes the next argument (`lexopt::Parser::next`), together with the text of
/// `lexopt::Arg::unexpected` for it.
///
/// Claimed of `next`: what it finds and what it leaves depends on the parser's
/// unread bytes and mode alone, and an argument that it finds uses up some of
/// the unread bytes.
#[verifier::external_body]
pub(crate) fn next_arg(p: &mut lexopt::Parser) -> (r: Result<Option<LexedArg>, String>)
    ensures
        (next_view(r), parser_unread(*final(p)), parser_mode(*final(p))) == lexed_next(
            parser_unread(*old(p)),
            parser_mode(*old(p)),
        ),
        next_view(r) is Item ==> unread_size(parser_unread(*final(p))) < unread_size(
            parser_unread(*old(p)),
        ),
{
    let arg = match p.next() {
        Ok(Some(arg)) => arg,
        Ok(None) => return Ok(None),
        Err(e) => return Err(e.to_string()),
    };
    let refusal = arg.clone().unexpected().to_string();
    let shape = match arg {
        lexopt::Arg::Short(c) => ArgShape::Short(c),
        lexopt::Arg::Long(s) => ArgShape::Long(s.to_owned()),
        lexopt::Arg::Value(_) => ArgShape::Value,
    };
    Ok(Some(LexedArg { shape, refusal }))
}

/// Takes the value of the option just found (`lexopt::Parser::value`) and
/// decodes it (`OsString::into_string`).
///
/// Claimed of `value`: what it finds and what it leaves depends on the parser's
/// unread bytes and mode alone, and a value that it finds uses up some of the
/// unread bytes.
#[verifier::external_body]
pub(crate) fn option_value(p: &mut lexopt::Parser) -> (r: OptionValue)
    ensures
        (r@, parser_unread(*final(p)), parser_mode(*final(p))) == lexed_value(
            parser_unread(*old(p)),
            parser_mode(*old(p)),
        ),
        !(r@ is Missing) ==> unread_size(parser_unread(*final(p))) < unread_size(
            parser_unread(*old(p)),
        ),
{
    match p.value() {
        Ok(value) => match value.into_string() {
            Ok(text) => OptionValue::Text(text),
            Err(_) => OptionValue::NotUnicode,
        },
        Err(e) => OptionValue::Missing(e.to_string()),
    }
}

} // verus!
