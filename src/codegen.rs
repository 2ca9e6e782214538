use vstd::prelude::*;
use crate::config::{
    accepted_exactly_when_single_content, content_key, missing_content_is_reported, names_content,
    ConfigError, ConfigErrorModel, MetaArg, MetaArgModel, args_view, config_errors, config_outcome,
    content_from_args, errors_view,
};
use crate::item::{
    Attr, AttrModel, Body, Declaration, DeclarationModel, attrs_view, decl_view,
    parse_declaration, parse_meta_args, string_literal,
};
use crate::template::{default_template_text, same_text};

verus! {

/// Why a generator produced no code.
#[derive(Debug)]
pub enum GenError {
    /// The input is not a struct, enum or union declaration; the reader's message.
    Parse(String),
    /// The input declares an enum or a union where a struct is needed.
    OnlyStructs,
    /// The configuration is not a list of options; the reader's message.
    InvalidArguments(String),
    /// The configuration is a list of options, but not a valid one.
    Config(Vec<ConfigError>),
}

pub enum GenErrorModel {
    Parse(Seq<char>),
    OnlyStructs,
    InvalidArguments(Seq<char>),
    Config(Seq<ConfigErrorModel>),
}

impl View for GenError {
    type V = GenErrorModel;

    open spec fn view(&self) -> GenErrorModel {
        match self {
            GenError::Parse(m) => GenErrorModel::Parse(m@),
            GenError::OnlyStructs => GenErrorModel::OnlyStructs,
            GenError::InvalidArguments(m) => GenErrorModel::InvalidArguments(m@),
            GenError::Config(e) => GenErrorModel::Config(errors_view(e@)),
        }
    }
}

pub open spec fn result_view(r: Result<String, GenError>) -> Result<Seq<char>, GenErrorModel> {
    match r {
        Ok(s) => Ok(s@),
        Err(e) => Err(e@),
    }
}

/// The arguments read from a configuration text, or the reader's message.
pub open spec fn read_view(r: Result<Vec<MetaArg>, String>) -> Result<Seq<MetaArgModel>, Seq<char>> {
    match r {
        Ok(v) => Ok(args_view(v@)),
        Err(m) => Err(m@),
    }
}

pub open spec fn reads_view(v: Seq<Result<Vec<MetaArg>, String>>) -> Seq<Result<Seq<MetaArgModel>, Seq<char>>> {
    v.map_values(|r: Result<Vec<MetaArg>, String>| read_view(r))
}

/// The impl that gives the record named `ident` its `greet` method, which
/// prints the template written as the string literal `lit`.
pub open spec fn impl_text(ident: Seq<char>, lit: Seq<char>) -> Seq<char> {
    "impl "@ + ident + " {\n    fn greet(&self) {\n        println!("@ + lit
        + ", name = self.name, age = self.age);\n    }\n}\n"@
}

pub open spec fn greet2_path() -> Seq<char> {
    "greet2"@
}

/// The arguments that one attribute contributes, given what was read from
/// its argument text: none unless it is a `greet2` attribute; one malformed
/// argument when it is not a list or its text could not be read.
pub open spec fn attr_args(a: AttrModel, read: Result<Seq<MetaArgModel>, Seq<char>>) -> Seq<MetaArgModel> {
    if a.path != greet2_path() {
        seq![]
    } else if a.args is None {
        seq![MetaArgModel::Malformed]
    } else {
        match read {
            Err(_) => seq![MetaArgModel::Malformed],
            Ok(v) => v,
        }
    }
}

/// The arguments of every `greet2` attribute, in order; `reads[i]` is what
/// was read from the argument text of `attrs[i]`.
pub open spec fn greet2_args(attrs: Seq<AttrModel>, reads: Seq<Result<Seq<MetaArgModel>, Seq<char>>>) -> Seq<MetaArgModel>
    decreases attrs.len(),
{
    if attrs.len() == 0 || reads.len() != attrs.len() {
        seq![]
    } else {
        greet2_args(attrs.drop_last(), reads.drop_last()) + attr_args(attrs.last(), reads.last())
    }
}

/// The template that the attribute generator's configuration sets.
pub open spec fn greet_template_outcome(read: Result<Seq<MetaArgModel>, Seq<char>>) -> Result<Seq<char>, GenErrorModel> {
    match read {
        Err(m) => Err(GenErrorModel::InvalidArguments(m)),
        Ok(a) => match config_outcome(a) {
            Err(e) => Err(GenErrorModel::Config(e)),
            Ok(t) => Ok(t),
        },
    }
}

/// The template that the `greet2` attributes set.
pub open spec fn greet2_template_outcome(attrs: Seq<AttrModel>, reads: Seq<Result<Seq<MetaArgModel>, Seq<char>>>) -> Result<Seq<char>, GenErrorModel> {
    match config_outcome(greet2_args(attrs, reads)) {
        Err(e) => Err(GenErrorModel::Config(e)),
        Ok(t) => Ok(t),
    }
}

/// The function-style generator's output, given the declaration read from
/// `item` and the literal of the default template.
pub open spec fn add_greet_output(item: Seq<char>, d: Result<DeclarationModel, Seq<char>>, lit: Seq<char>) -> Result<Seq<char>, GenErrorModel> {
    match d {
        Err(m) => Err(GenErrorModel::Parse(m)),
        Ok(d) => match d.fields {
            None => Err(GenErrorModel::OnlyStructs),
            Some(_) => Ok(item + "\n"@ + impl_text(d.ident, lit)),
        },
    }
}

/// The plain derive generator's output, given the declaration read and the
/// literal of the default template.
pub open spec fn greet_derive_output(d: Result<DeclarationModel, Seq<char>>, lit: Seq<char>) -> Result<Seq<char>, GenErrorModel> {
    match d {
        Err(m) => Err(GenErrorModel::Parse(m)),
        Ok(d) => Ok(impl_text(d.ident, lit)),
    }
}

/// The attribute generator's output, given the configured template, the
/// declaration read from `item`, and the literal of the template.
pub open spec fn greet_output(t: Result<Seq<char>, GenErrorModel>, item: Seq<char>, d: Result<DeclarationModel, Seq<char>>, lit: Seq<char>) -> Result<Seq<char>, GenErrorModel> {
    match t {
        Err(e) => Err(e),
        Ok(_) => match d {
            Err(m) => Err(GenErrorModel::Parse(m)),
            Ok(d) => Ok(item + "\n"@ + impl_text(d.ident, lit)),
        },
    }
}

/// The `greet2` generator's output, given the declaration read, the template
/// its attributes set, and the literal of that template.
pub open spec fn greet2_output(d: Result<DeclarationModel, Seq<char>>, t: Result<Seq<char>, GenErrorModel>, lit: Seq<char>) -> Result<Seq<char>, GenErrorModel> {
    match d {
        Err(m) => Err(GenErrorModel::Parse(m)),
        Ok(d) => match t {
            Err(e) => Err(e),
            Ok(_) => Ok(impl_text(d.ident, lit)),
        },
    }
}

/// The impl block of the `greet` method for `ident`, printing the template
/// written as the literal `lit`.
pub fn impl_block(ident: &str, lit: &str) -> (r: String)
    ensures
        r@ == impl_text(ident@, lit@),
{
    let mut r = String::from_str("impl ");
    r.append(ident);
    r.append(" {\n    fn greet(&self) {\n        println!(");
    r.append(lit);
    r.append(", name = self.name, age = self.age);\n    }\n}\n");
    r
}

/// `item` kept as written, a line break, then the impl block.
fn item_then_impl(item: &str, ident: &str, lit: &str) -> (r: String)
    ensures
        r@ == item@ + "\n"@ + impl_text(ident@, lit@),
{
    let mut out = String::from_str(item);
    out.append("\n");
    let block = impl_block(ident, lit);
    out.append(block.as_str());
    out
}

/// The function-style generator on a declaration already read from `item`:
/// the item as written, followed by its `greet` method printing `lit`. Only
/// a struct is accepted.
pub fn add_greet_from(item: &str, d: &Result<Declaration, String>, lit: &str) -> (r: Result<String, GenError>)
    ensures
        result_view(r) == add_greet_output(item@, decl_view(*d), lit@),
{
    match d {
        Err(m) => Err(GenError::Parse(m.clone())),
        Ok(d) => match &d.body {
            Body::Struct(_) => Ok(item_then_impl(item, d.ident.as_str(), lit)),
            _ => Err(GenError::OnlyStructs),
        },
    }
}

/// The plain derive generator on a declaration already read: the `greet`
/// method printing `lit`.
pub fn greet_derive_from(d: &Result<Declaration, String>, lit: &str) -> (r: Result<String, GenError>)
    ensures
        result_view(r) == greet_derive_output(decl_view(*d), lit@),
{
    match d {
        Err(m) => Err(GenError::Parse(m.clone())),
        Ok(d) => Ok(impl_block(d.ident.as_str(), lit)),
    }
}

/// The template that the attribute generator's options set, given what was
/// read from the attribute's argument text.
pub fn greet_template(read: &Result<Vec<MetaArg>, String>) -> (r: Result<String, GenError>)
    ensures
        result_view(r) == greet_template_outcome(read_view(*read)),
{
    match read {
        Err(m) => Err(GenError::InvalidArguments(m.clone())),
        Ok(a) => match content_from_args(a) {
            Err(e) => Err(GenError::Config(e)),
            Ok(t) => Ok(t),
        },
    }
}

/// The attribute generator given its configured template, the declaration
/// read from `item`, and the literal of the template: the item as written,
/// followed by its `greet` method.
pub fn greet_from(t: Result<String, GenError>, item: &str, d: &Result<Declaration, String>, lit: &str) -> (r: Result<String, GenError>)
    ensures
        result_view(r) == greet_output(result_view(t), item@, decl_view(*d), lit@),
{
    match t {
        Err(e) => Err(e),
        Ok(_) => match d {
            Err(m) => Err(GenError::Parse(m.clone())),
            Ok(d) => Ok(item_then_impl(item, d.ident.as_str(), lit)),
        },
    }
}

/// The template that the `greet2` attributes of a declaration set;
/// `reads[i]` is what was read from the argument text of `attrs[i]`.
pub fn greet2_template(attrs: &Vec<Attr>, reads: &Vec<Result<Vec<MetaArg>, String>>) -> (r: Result<String, GenError>)
    requires
        reads.len() == attrs.len(),
    ensures
        result_view(r) == greet2_template_outcome(attrs_view(attrs@), reads_view(reads@)),
{
    let ghost av = attrs_view(attrs@);
    let ghost rv = reads_view(reads@);
    let path = String::from_str("greet2");
    let mut out: Vec<MetaArg> = Vec::new();
    let mut i: usize = 0;
    assert(av.take(0) =~= Seq::<AttrModel>::empty());
    assert(args_view(out@) =~= Seq::<MetaArgModel>::empty());
    while i < attrs.len()
        invariant
            i <= attrs.len(),
            reads.len() == attrs.len(),
            av == attrs_view(attrs@),
            rv == reads_view(reads@),
            path@ == greet2_path(),
            args_view(out@) == greet2_args(av.take(i as int), rv.take(i as int)),
        decreases attrs.len() - i,
    {
        let ghost before = out@;
        let a = &attrs[i];
        assert(av.take(i + 1).drop_last() =~= av.take(i as int));
        assert(rv.take(i + 1).drop_last() =~= rv.take(i as int));
        assert(av.take(i + 1).last() == a@);
        assert(rv.take(i + 1).last() == read_view(reads@[i as int]));
        if same_text(a.path.as_str(), path.as_str()) {
            if a.args.is_none() {
                out.push(MetaArg::Malformed);
            } else {
                match &reads[i] {
                    Err(_) => {
                        out.push(MetaArg::Malformed);
                    },
                    Ok(v) => {
                        let mut j: usize = 0;
                        while j < v.len()
                            invariant
                                j <= v.len(),
                                args_view(out@) == args_view(before) + args_view(v@).take(j as int),
                            decreases v.len() - j,
                        {
                            let ghost mid = out@;
                            out.push(v[j].clone_arg());
                            assert(args_view(out@) =~= args_view(mid).push(v@[j as int]@));
                            assert(args_view(v@).take(j + 1) =~= args_view(v@).take(j as int).push(v@[j as int]@));
                            j = j + 1;
                        }
                        assert(args_view(v@).take(j as int) =~= args_view(v@));
                    },
                }
            }
        }
        assert(args_view(out@) =~= greet2_args(av.take(i + 1), rv.take(i + 1)));
        i = i + 1;
    }
    assert(av.take(i as int) =~= av);
    assert(rv.take(i as int) =~= rv);
    match content_from_args(&out) {
        Err(e) => Err(GenError::Config(e)),
        Ok(t) => Ok(t),
    }
}

/// The `greet2` generator given the declaration read, the template its
/// attributes set, and the literal of that template: the `greet` method.
pub fn greet2_from(d: &Result<Declaration, String>, t: Result<String, GenError>, lit: &str) -> (r: Result<String, GenError>)
    ensures
        result_view(r) == greet2_output(decl_view(*d), result_view(t), lit@),
{
    match d {
        Err(m) => Err(GenError::Parse(m.clone())),
        Ok(d) => match t {
            Err(e) => Err(e),
            Ok(_) => Ok(impl_block(d.ident.as_str(), lit)),
        },
    }
}

/// The literal of a template that was set, or an empty text when none was.
fn literal_of_outcome(t: &Result<String, GenError>) -> (r: String) {
    match t {
        Ok(s) => string_literal(s.as_str()),
        Err(_) => String::new(),
    }
}

/// The function-style generator: reads `item`, then emits it as written,
/// followed by a `greet` method printing the default template. Only a struct
/// is accepted.
pub fn add_greet(item: &str) -> (r: Result<String, GenError>)
    ensures
        match r {
            Ok(s) => (exists|ident: Seq<char>, lit: Seq<char>|
                s@ == item@ + "\n"@ + #[trigger] impl_text(ident, lit)),
            Err(e) => (e is Parse) || (e is OnlyStructs),
        },
{
    let d = parse_declaration(item);
    let t = default_template_text();
    let lit = string_literal(t.as_str());
    add_greet_from(item, &d, lit.as_str())
}

/// The plain derive generator: reads `item`, then emits a `greet` method
/// printing the default template.
pub fn greet_derive(item: &str) -> (r: Result<String, GenError>)
    ensures
        match r {
            Ok(s) => (exists|ident: Seq<char>, lit: Seq<char>| s@ == #[trigger] impl_text(ident, lit)),
            Err(e) => (e is Parse),
        },
{
    let d = parse_declaration(item);
    let t = default_template_text();
    let lit = string_literal(t.as_str());
    greet_derive_from(&d, lit.as_str())
}

/// The attribute generator: `args` is the text inside the attribute's
/// parentheses, which must set `content` to the template. The item is kept as
/// written and followed by its `greet` method.
pub fn greet(args: &str, item: &str) -> (r: Result<String, GenError>)
    ensures
        match r {
            Ok(s) => (exists|ident: Seq<char>, lit: Seq<char>|
                s@ == item@ + "\n"@ + #[trigger] impl_text(ident, lit)),
            Err(GenError::Config(e)) => e@.len() > 0,
            Err(e) => (e is Parse) || (e is InvalidArguments),
        },
{
    let read = parse_meta_args(args);
    let t = greet_template(&read);
    let lit = literal_of_outcome(&t);
    let d = parse_declaration(item);
    greet_from(t, item, &d, lit.as_str())
}

/// The derive generator that reads its template from `#[greet2(content = "...")]`
/// on the declaration. A missing or invalid configuration is reported as a
/// configuration error, never a panic.
pub fn greet2(item: &str) -> (r: Result<String, GenError>)
    ensures
        match r {
            Ok(s) => (exists|ident: Seq<char>, lit: Seq<char>| s@ == #[trigger] impl_text(ident, lit)),
            Err(GenError::Config(e)) => e@.len() > 0,
            Err(e) => (e is Parse),
        },
{
    let d = parse_declaration(item);
    match &d {
        Err(m) => Err(GenError::Parse(m.clone())),
        Ok(decl) => {
            let reads = read_attr_args(&decl.attrs);
            let t = greet2_template(&decl.attrs, &reads);
            let lit = literal_of_outcome(&t);
            greet2_from(&d, t, lit.as_str())
        },
    }
}

/// Reads the argument text of each attribute; an attribute that has none
/// gets an empty message in its place.
fn read_attr_args(attrs: &Vec<Attr>) -> (r: Vec<Result<Vec<MetaArg>, String>>)
    ensures
        r.len() == attrs.len(),
{
    let mut out: Vec<Result<Vec<MetaArg>, String>> = Vec::new();
    let mut i: usize = 0;
    while i < attrs.len()
        invariant
            i <= attrs.len(),
            out.len() == i,
        decreases attrs.len() - i,
    {
        match &attrs[i].args {
            Some(t) => out.push(parse_meta_args(t.as_str())),
            None => out.push(Err(String::new())),
        }
        i = i + 1;
    }
    out
}

/// The output depends on nothing but what was read: two runs that read the
/// same item text, declaration, configuration and literal give the same output.
pub proof fn generation_is_repeatable(
    item1: Seq<char>,
    item2: Seq<char>,
    d1: Result<DeclarationModel, Seq<char>>,
    d2: Result<DeclarationModel, Seq<char>>,
    read1: Result<Seq<MetaArgModel>, Seq<char>>,
    read2: Result<Seq<MetaArgModel>, Seq<char>>,
    reads1: Seq<Result<Seq<MetaArgModel>, Seq<char>>>,
    reads2: Seq<Result<Seq<MetaArgModel>, Seq<char>>>,
    lit1: Seq<char>,
    lit2: Seq<char>,
)
    requires
        item1 == item2,
        d1 == d2,
        read1 == read2,
        reads1 == reads2,
        lit1 == lit2,
    ensures
        add_greet_output(item1, d1, lit1) == add_greet_output(item2, d2, lit2),
        greet_derive_output(d1, lit1) == greet_derive_output(d2, lit2),
        greet_output(greet_template_outcome(read1), item1, d1, lit1) == greet_output(
            greet_template_outcome(read2),
            item2,
            d2,
            lit2,
        ),
        d1 is Ok ==> greet2_output(d1, greet2_template_outcome(d1->Ok_0.attrs, reads1), lit1)
            == greet2_output(d2, greet2_template_outcome(d2->Ok_0.attrs, reads2), lit2),
{
}

/// The function-style generator refuses an enum or a union, saying that only
/// structs are supported.
pub proof fn add_greet_only_structs(item: Seq<char>, d: Result<DeclarationModel, Seq<char>>, lit: Seq<char>)
    requires
        d is Ok,
        d->Ok_0.fields is None,
    ensures
        add_greet_output(item, d, lit) == Err::<Seq<char>, GenErrorModel>(GenErrorModel::OnlyStructs),
{
}

/// When the attribute's options never name `content`, the attribute generator
/// emits no code and its last error says that `content` is missing.
pub proof fn greet_reports_missing_content(
    read: Result<Seq<MetaArgModel>, Seq<char>>,
    item: Seq<char>,
    d: Result<DeclarationModel, Seq<char>>,
    lit: Seq<char>,
)
    requires
        read is Ok,
        forall|i: int|
            0 <= i < read->Ok_0.len() ==> !names_content(#[trigger] read->Ok_0[i]),
    ensures
        (greet_template_outcome(read) matches Err(GenErrorModel::Config(e))
            && e.last() == ConfigErrorModel::MissingField(content_key())),
        greet_output(greet_template_outcome(read), item, d, lit) == greet_template_outcome(read),
{
    missing_content_is_reported(read->Ok_0);
}

proof fn lemma_no_greet2(attrs: Seq<AttrModel>, reads: Seq<Result<Seq<MetaArgModel>, Seq<char>>>)
    requires
        forall|i: int| 0 <= i < attrs.len() ==> (#[trigger] attrs[i]).path != greet2_path(),
    ensures
        greet2_args(attrs, reads) == Seq::<MetaArgModel>::empty(),
    decreases attrs.len(),
{
    if attrs.len() > 0 && reads.len() == attrs.len() {
        lemma_no_greet2(attrs.drop_last(), reads.drop_last());
        assert(attrs.last() == attrs[attrs.len() - 1]);
        assert(greet2_args(attrs, reads) =~= Seq::<MetaArgModel>::empty());
    }
}

/// A declaration with no `greet2` attribute is answered by the one error that
/// `content` is missing, and no code.
pub proof fn greet2_without_attribute(
    d: Result<DeclarationModel, Seq<char>>,
    reads: Seq<Result<Seq<MetaArgModel>, Seq<char>>>,
    lit: Seq<char>,
)
    requires
        d is Ok,
        forall|i: int| 0 <= i < d->Ok_0.attrs.len() ==> (#[trigger] d->Ok_0.attrs[i]).path != greet2_path(),
    ensures
        greet2_output(d, greet2_template_outcome(d->Ok_0.attrs, reads), lit) == Err::<Seq<char>, GenErrorModel>(
            GenErrorModel::Config(seq![ConfigErrorModel::MissingField(content_key())]),
        ),
{
    lemma_no_greet2(d->Ok_0.attrs, reads);
    let e: Seq<MetaArgModel> = seq![];
    assert(config_errors(e) =~= seq![ConfigErrorModel::MissingField(content_key())]);
}

/// When the attribute sets `content` to `t` and nothing else, the template is
/// `t`, and the item is kept and followed by a `greet` method that prints the
/// literal of `t`.
pub proof fn greet_emits_configured_template(
    t: Seq<char>,
    item: Seq<char>,
    d: Result<DeclarationModel, Seq<char>>,
    lit: Seq<char>,
)
    requires
        d is Ok,
    ensures
        greet_template_outcome(
            Ok(seq![(MetaArgModel::Named { key: content_key(), value: Some(t) })]),
        ) == Ok::<Seq<char>, GenErrorModel>(t),
        greet_output(Ok(t), item, d, lit) == Ok::<Seq<char>, GenErrorModel>(
            item + "\n"@ + impl_text(d->Ok_0.ident, lit),
        ),
{
    accepted_exactly_when_single_content(
        seq![(MetaArgModel::Named { key: content_key(), value: Some(t) })],
        t,
    );
}

/// When the `greet2` attributes set `content` to `t` and nothing else, the
/// template is `t`, and the derive generator emits a `greet` method that
/// prints the literal of `t`.
pub proof fn greet2_emits_configured_template(
    d: Result<DeclarationModel, Seq<char>>,
    reads: Seq<Result<Seq<MetaArgModel>, Seq<char>>>,
    t: Seq<char>,
    lit: Seq<char>,
)
    requires
        d is Ok,
        greet2_args(d->Ok_0.attrs, reads) == seq![
            (MetaArgModel::Named { key: content_key(), value: Some(t) }),
        ],
    ensures
        greet2_template_outcome(d->Ok_0.attrs, reads) == Ok::<Seq<char>, GenErrorModel>(t),
        greet2_output(d, Ok(t), lit) == Ok::<Seq<char>, GenErrorModel>(impl_text(d->Ok_0.ident, lit)),
{
    accepted_exactly_when_single_content(greet2_args(d->Ok_0.attrs, reads), t);
}

} // verus!
