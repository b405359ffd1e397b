//! The descriptor emitter: what a tag on a declaration gives rise to.
//!
//! A tag stands on a function or on a static and takes no arguments. For a
//! declaration that it accepts, the emitter keeps the declaration as it is
//! and states one descriptor record beside it: the name of the entity, how
//! its address is taken, the symbol under which the record is laid down and
//! the section in which it is placed. Every section starts with one shared
//! prefix, so that the linker puts the records of a build side by side.
//!
//! The emitter does not read the item itself. Its caller has the item read
//! by a parser and hands over what came of it: the kind of the item and the
//! identifier that it declares, or the parser's error.

use vstd::prelude::*;
use vstd::string::*;

verus! {

/// The error with which `syn` answers a text that it cannot read.
#[verifier::external_type_specification]
#[verifier::external_body]
pub struct ExSynError(syn::Error);

/// The kind of entity that a record describes, which is also how the address
/// in the record is taken.
#[derive(Debug, Clone, Copy, PartialEq, Eq, Structural)]
pub enum Entity {
    /// A function: its own name, used as a value, is its address.
    Function,
    /// A static: the address is that of a reference to it.
    Static,
}

/// What the emitter reads off a declaration: its kind and, where the kind
/// can be tagged, the identifier that it declares.
#[derive(Debug)]
pub enum Declaration {
    /// A free-standing function with a body.
    Function(String),
    /// A static item.
    Static(String),
    /// Any other item: a type, a module, a trait, an impl and so on.
    Other,
}

/// A declaration with its identifier as a sequence of characters.
pub enum DeclarationView {
    Function(Seq<char>),
    Static(Seq<char>),
    Other,
}

impl View for Declaration {
    type V = DeclarationView;

    open spec fn view(&self) -> DeclarationView {
        match self {
            Declaration::Function(ident) => DeclarationView::Function(ident@),
            Declaration::Static(ident) => DeclarationView::Static(ident@),
            Declaration::Other => DeclarationView::Other,
        }
    }
}

/// What the emitter puts out for one tagged declaration.
#[derive(Debug)]
pub struct Emission {
    /// The declaration, as it was given.
    pub item: String,
    /// The kind of the entity.
    pub entity: Entity,
    /// The name field of the record: the identifier that the item declares.
    pub name: String,
    /// The symbol under which the record itself is laid down.
    pub record_symbol: String,
    /// The section in which the record is placed.
    pub section: String,
}

/// An emission with its texts as sequences of characters.
pub struct EmissionView {
    pub item: Seq<char>,
    pub entity: Entity,
    pub name: Seq<char>,
    pub record_symbol: Seq<char>,
    pub section: Seq<char>,
}

impl View for Emission {
    type V = EmissionView;

    open spec fn view(&self) -> EmissionView {
        EmissionView {
            item: self.item@,
            entity: self.entity,
            name: self.name@,
            record_symbol: self.record_symbol@,
            section: self.section@,
        }
    }
}

/// Why a tag is refused.
#[derive(Debug)]
pub enum ExportError {
    /// The tag was given arguments; it takes none.
    UnexpectedArguments,
    /// The text under the tag is no item of the language.
    Syntax(syn::Error),
    /// The item under the tag is neither a function nor a static.
    UnsupportedItem,
    /// The item declares a raw identifier, of which no symbol can be made.
    RawIdentifier,
}

/// The prefix of the symbol of every record.
pub open spec fn record_symbol_prefix() -> Seq<char> {
    "__RSYMTAB_ITEM_"@
}

/// The prefix of the section of every record: the name that all of them
/// share, and the separator.
pub open spec fn section_prefix() -> Seq<char> {
    "rsymtab."@
}

/// The symbol under which the record of the entity `ident` is laid down.
pub open spec fn record_symbol_of(ident: Seq<char>) -> Seq<char> {
    record_symbol_prefix() + ident
}

/// The section in which the record of the entity `ident` is placed.
pub open spec fn section_of(ident: Seq<char>) -> Seq<char> {
    section_prefix() + ident
}

/// The emission for the entity `ident` of kind `entity`, declared by `item`.
pub open spec fn emission_of(item: Seq<char>, entity: Entity, ident: Seq<char>) -> EmissionView {
    EmissionView {
        item,
        entity,
        name: ident,
        record_symbol: record_symbol_of(ident),
        section: section_of(ident),
    }
}

/// The diagnostic for a tag with arguments.
pub open spec fn unexpected_arguments_text() -> Seq<char> {
    "this attribute macro does not accept any arguments"@
}

/// The diagnostic for a tag on an item that cannot be exported.
pub open spec fn unsupported_item_text() -> Seq<char> {
    "this type of item can not be exported"@
}

/// The diagnostic for a tag on an item that declares a raw identifier.
pub open spec fn raw_identifier_text() -> Seq<char> {
    "an item with a raw identifier can not be exported"@
}

/// The mark that a raw identifier begins with.
pub open spec fn raw_prefix() -> Seq<char> {
    "r#"@
}

/// `ident` is a raw identifier: it is written with the mark in front.
pub open spec fn is_raw(ident: Seq<char>) -> bool {
    raw_prefix().is_prefix_of(ident)
}

/// What is owed for the entity `ident` of kind `entity`, declared by `item`:
/// its emission, unless the identifier is a raw one.
pub open spec fn described(
    item: Seq<char>,
    entity: Entity,
    ident: Seq<char>,
    result: Result<Emission, ExportError>,
) -> bool {
    if is_raw(ident) {
        result matches Err(ExportError::RawIdentifier)
    } else {
        &&& result matches Ok(emission)
        &&& emission@ == emission_of(item, entity, ident)
    }
}

/// What is owed for the declaration `item`, of which the parser made
/// `parsed`: the emission for a function or a static, and the fitting error
/// for anything else.
pub open spec fn emitted(
    item: Seq<char>,
    parsed: Result<Declaration, syn::Error>,
    result: Result<Emission, ExportError>,
) -> bool {
    match parsed {
        Err(error) => result matches Err(ExportError::Syntax(handed_on)) && handed_on == error,
        Ok(declaration) => match declaration@ {
            DeclarationView::Other => result matches Err(ExportError::UnsupportedItem),
            DeclarationView::Function(ident) => described(item, Entity::Function, ident, result),
            DeclarationView::Static(ident) => described(item, Entity::Static, ident, result),
        },
    }
}

/// Whether `ident` is a raw identifier.
fn raw(ident: &str) -> (raw: bool)
    ensures
        raw == is_raw(ident@),
{
    proof {
        reveal_strlit("r#");
    }
    if ident.unicode_len() < 2 {
        return false;
    }
    let raw = ident.get_char(0) == 'r' && ident.get_char(1) == '#';
    proof {
        if raw {
            assert(ident@.subrange(0, 2) =~= raw_prefix());
        } else {
            assert(ident@.subrange(0, 2)[0] == ident@[0]);
            assert(ident@.subrange(0, 2)[1] == ident@[1]);
        }
    }
    raw
}

/// The text `prefix` followed by `ident`.
fn prefixed(prefix: &str, ident: &str) -> (text: String)
    ensures
        text@ == prefix@ + ident@,
{
    let mut text = String::from_str(prefix);
    text.append(ident);
    text
}

/// The emission for the entity `ident` of kind `entity`, declared by `item`,
/// unless the identifier is a raw one.
fn describe(item: &str, entity: Entity, ident: &str) -> (result: Result<Emission, ExportError>)
    ensures
        described(item@, entity, ident@, result),
{
    if raw(ident) {
        return Err(ExportError::RawIdentifier);
    }
    Ok(
        Emission {
            item: String::from_str(item),
            entity,
            name: String::from_str(ident),
            record_symbol: prefixed("__RSYMTAB_ITEM_", ident),
            section: prefixed("rsymtab.", ident),
        },
    )
}

/// Decides whether a tag may stand as it is written: `attribute` is the text
/// of its arguments, and it takes none.
pub fn accept_arguments(attribute: &str) -> (result: Result<(), ExportError>)
    ensures
        attribute@.len() == 0 <==> result is Ok,
        attribute@.len() > 0 <==> result matches Err(ExportError::UnexpectedArguments),
{
    if attribute.is_empty() {
        Ok(())
    } else {
        Err(ExportError::UnexpectedArguments)
    }
}

/// Decides what a tag on `item` gives, from what the parser made of the
/// item.
///
/// A function or a static is kept as it is and gets one record, named after
/// it; a text that is no item hands the parser's error on; any other item,
/// and any raw identifier, is refused.
pub fn emit(item: &str, parsed: Result<Declaration, syn::Error>) -> (result: Result<
    Emission,
    ExportError,
>)
    ensures
        emitted(item@, parsed, result),
        !(result matches Err(ExportError::UnexpectedArguments)),
{
    match parsed {
        Ok(Declaration::Function(ident)) => describe(item, Entity::Function, ident.as_str()),
        Ok(Declaration::Static(ident)) => describe(item, Entity::Static, ident.as_str()),
        Ok(Declaration::Other) => Err(ExportError::UnsupportedItem),
        Err(error) => Err(ExportError::Syntax(error)),
    }
}

/// Expands a tag: `attribute` is the text of its arguments, `item` the text
/// of the declaration under it, and `parsed` what the parser made of that
/// declaration.
///
/// A tag with arguments is refused whatever the item is. Else the result is
/// what [`emit`] gives.
pub fn export(attribute: &str, item: &str, parsed: Result<Declaration, syn::Error>) -> (result:
    Result<Emission, ExportError>)
    ensures
        attribute@.len() > 0 <==> result matches Err(ExportError::UnexpectedArguments),
        attribute@.len() == 0 ==> emitted(item@, parsed, result),
{
    match accept_arguments(attribute) {
        Ok(()) => emit(item, parsed),
        Err(error) => Err(error),
    }
}

impl ExportError {
    /// The diagnostic of this library for the error. A syntax error has none
    /// here: the parser's error carries its own.
    pub fn diagnostic(&self) -> (text: Option<&'static str>)
        ensures
            match self {
                ExportError::UnexpectedArguments => text matches Some(t) && t@
                    == unexpected_arguments_text(),
                ExportError::Syntax(_) => text is None,
                ExportError::UnsupportedItem => text matches Some(t) && t@
                    == unsupported_item_text(),
                ExportError::RawIdentifier => text matches Some(t) && t@ == raw_identifier_text(),
            },
    {
        match self {
            ExportError::UnexpectedArguments => Some(
                "this attribute macro does not accept any arguments",
            ),
            ExportError::Syntax(_) => None,
            ExportError::UnsupportedItem => Some("this type of item can not be exported"),
            ExportError::RawIdentifier => Some("an item with a raw identifier can not be exported"),
        }
    }
}

/// Two entities with different names get different record symbols and
/// different sections, and each of the two tells the name.
pub proof fn lemma_names_tell_apart(first: Seq<char>, second: Seq<char>)
    ensures
        record_symbol_of(first) == record_symbol_of(second) <==> first == second,
        section_of(first) == section_of(second) <==> first == second,
{
    lemma_same_prefix(record_symbol_prefix(), first, second);
    lemma_same_prefix(section_prefix(), first, second);
}

/// Every section of a record begins with the shared prefix, and what follows
/// it is the name of the entity.
pub proof fn lemma_section_shares_prefix(ident: Seq<char>)
    ensures
        section_prefix().is_prefix_of(section_of(ident)),
        section_of(ident).skip(section_prefix().len() as int) == ident,
{
    let prefix = section_prefix();
    assert(section_of(ident).subrange(0, prefix.len() as int) =~= prefix);
    assert(section_of(ident).skip(prefix.len() as int) =~= ident);
}

/// No two refusals share a diagnostic: the one for a tag with arguments, the
/// one for an item that cannot be exported and the one for a raw identifier
/// differ from each other.
pub proof fn lemma_diagnostics_differ()
    ensures
        unexpected_arguments_text() != unsupported_item_text(),
        unexpected_arguments_text() != raw_identifier_text(),
        unsupported_item_text() != raw_identifier_text(),
{
    reveal_strlit("this attribute macro does not accept any arguments");
    reveal_strlit("this type of item can not be exported");
    reveal_strlit("an item with a raw identifier can not be exported");
    assert(unexpected_arguments_text().len() == 50);
    assert(unsupported_item_text().len() == 37);
    assert(raw_identifier_text().len() == 49);
}

/// An entity gets its emission exactly where its identifier is not a raw
/// one, and the name in the emission is then no raw identifier either.
pub proof fn lemma_emission_is_not_raw(
    item: Seq<char>,
    entity: Entity,
    ident: Seq<char>,
    result: Result<Emission, ExportError>,
)
    requires
        described(item, entity, ident, result),
    ensures
        result is Ok <==> !is_raw(ident),
        result matches Ok(emission) ==> !is_raw(emission@.name),
{
}

/// Texts that are equal behind one prefix are equal.
proof fn lemma_same_prefix(prefix: Seq<char>, first: Seq<char>, second: Seq<char>)
    ensures
        prefix + first == prefix + second <==> first == second,
{
    if prefix + first == prefix + second {
        assert((prefix + first).skip(prefix.len() as int) =~= first);
        assert((prefix + second).skip(prefix.len() as int) =~= second);
    }
}

} // verus!
