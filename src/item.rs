use vstd::prelude::*;
use quote::ToTokens;
use darling::ast::NestedMeta;
use darling::FromMeta;
use crate::config::MetaArg;

verus! {

/// What follows the name of a declaration.
pub enum Body {
    /// A struct, with the source text of each of its fields in order.
    Struct(Vec<String>),
    Enum,
    Union,
}

/// An outer attribute of a declaration.
pub struct Attr {
    /// The attribute's path, as text.
    pub path: String,
    /// The text inside its parentheses (empty for a bare path), or `None`
    /// when it is written `path = value`.
    pub args: Option<String>,
}

/// A declaration that a generator receives, as plain values.
pub struct Declaration {
    pub ident: String,
    pub body: Body,
    pub attrs: Vec<Attr>,
}

pub struct AttrModel {
    pub path: Seq<char>,
    pub args: Option<Seq<char>>,
}

pub struct DeclarationModel {
    pub ident: Seq<char>,
    /// The field texts when the declaration is a struct.
    pub fields: Option<Seq<Seq<char>>>,
    pub attrs: Seq<AttrModel>,
}

impl View for Attr {
    type V = AttrModel;

    open spec fn view(&self) -> AttrModel {
        AttrModel {
            path: self.path@,
            args: match self.args {
                Some(a) => Some(a@),
                None => None,
            },
        }
    }
}

pub open spec fn texts_view(v: Seq<String>) -> Seq<Seq<char>> {
    v.map_values(|s: String| s@)
}

pub open spec fn attrs_view(v: Seq<Attr>) -> Seq<AttrModel> {
    v.map_values(|a: Attr| a@)
}

impl View for Declaration {
    type V = DeclarationModel;

    open spec fn view(&self) -> DeclarationModel {
        DeclarationModel {
            ident: self.ident@,
            fields: match self.body {
                Body::Struct(f) => Some(texts_view(f@)),
                _ => None,
            },
            attrs: attrs_view(self.attrs@),
        }
    }
}

/// A declaration read from a source text, or the reader's message.
pub open spec fn decl_view(d: Result<Declaration, String>) -> Result<DeclarationModel, Seq<char>> {
    match d {
        Ok(d) => Ok(d@),
        Err(m) => Err(m@),
    }
}

/// Relies on `syn::parse_str::<syn::DeriveInput>`, which reads a struct, enum
/// or union declaration; the name, the fields and the attributes are then
/// written out as text by syn's `ToTokens` and darling's
/// `parse_attribute_to_meta_list`. What is read, and how it is printed,
/// depends on the token backend of the running process.
#[verifier::external_body]
pub(crate) fn parse_declaration(text: &str) -> (r: Result<Declaration, String>) {
    let d = syn::parse_str::<syn::DeriveInput>(text).map_err(|e| e.to_string())?;
    let body = match &d.data {
        syn::Data::Struct(s) => Body::Struct(s.fields.iter().map(|f| f.to_token_stream().to_string()).collect()),
        syn::Data::Enum(_) => Body::Enum,
        syn::Data::Union(_) => Body::Union,
    };
    let attrs = d.attrs.iter().map(|a| Attr {
        path: a.path().to_token_stream().to_string(),
        args: darling::util::parse_attribute_to_meta_list(a).ok().map(|l| l.tokens.to_string()),
    }).collect();
    Ok(Declaration { ident: d.ident.to_string(), body, attrs })
}

/// Relies on darling's `NestedMeta::parse_meta_list` over the tokens that
/// proc-macro2 lexes from the text; a named item keeps darling's
/// `path_to_string` of its path and the string that
/// `<String as FromMeta>::from_meta` takes from it, where it takes one.
/// What is read depends on the token backend of the running process.
#[verifier::external_body]
pub(crate) fn parse_meta_args(text: &str) -> (r: Result<Vec<MetaArg>, String>) {
    let tokens: proc_macro2::TokenStream = text.parse().map_err(|e: proc_macro2::LexError| e.to_string())?;
    let items = NestedMeta::parse_meta_list(tokens).map_err(|e| e.to_string())?;
    Ok(items.iter().map(|item| match item {
        NestedMeta::Meta(m) => MetaArg::Named {
            key: darling::util::path_to_string(m.path()),
            value: String::from_meta(m).ok(),
        },
        NestedMeta::Lit(_) => MetaArg::Literal,
    }).collect())
}

/// Relies on `proc_macro2::Literal::string`: the string literal token for
/// `s`, as the token backend of the running process writes it.
#[verifier::external_body]
pub(crate) fn string_literal(s: &str) -> (r: String) {
    proc_macro2::Literal::string(s).to_string()
}

} // verus!
