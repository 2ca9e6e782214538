use vstd::prelude::*;
use crate::template::same_text;

verus! {

/// One argument of a configuration list, as far as the `content` option cares.
#[derive(Debug)]
pub enum MetaArg {
    /// `key = value` or another item led by a path; `value` is the string when
    /// the item is `key = "string"`, and `None` for any other shape.
    Named { key: String, value: Option<String> },
    /// A bare literal in the list.
    Literal,
    /// An attribute whose arguments could not be read as a list.
    Malformed,
}

pub enum MetaArgModel {
    Named { key: Seq<char>, value: Option<Seq<char>> },
    Literal,
    Malformed,
}

impl MetaArg {
    /// A copy of the argument.
    pub fn clone_arg(&self) -> (r: MetaArg)
        ensures
            r@ == self@,
    {
        match self {
            MetaArg::Named { key, value } => MetaArg::Named {
                key: key.clone(),
                value: match value {
                    Some(v) => Some(v.clone()),
                    None => None,
                },
            },
            MetaArg::Literal => MetaArg::Literal,
            MetaArg::Malformed => MetaArg::Malformed,
        }
    }
}

impl View for MetaArg {
    type V = MetaArgModel;

    open spec fn view(&self) -> MetaArgModel {
        match self {
            MetaArg::Named { key, value } => MetaArgModel::Named {
                key: key@,
                value: match value {
                    Some(v) => Some(v@),
                    None => None,
                },
            },
            MetaArg::Literal => MetaArgModel::Literal,
            MetaArg::Malformed => MetaArgModel::Malformed,
        }
    }
}

/// What is wrong with a configuration; each names the option concerned.
#[derive(Debug)]
pub enum ConfigError {
    /// An option other than `content`.
    UnknownField(String),
    /// `content` given more than once.
    DuplicateField(String),
    /// `content` not given.
    MissingField(String),
    /// `content` given, but not as a string.
    InvalidValue(String),
    /// A bare literal where an option was expected.
    UnsupportedLiteral,
    /// An attribute that is not a list of options.
    MalformedAttribute,
}

pub enum ConfigErrorModel {
    UnknownField(Seq<char>),
    DuplicateField(Seq<char>),
    MissingField(Seq<char>),
    InvalidValue(Seq<char>),
    UnsupportedLiteral,
    MalformedAttribute,
}

impl View for ConfigError {
    type V = ConfigErrorModel;

    open spec fn view(&self) -> ConfigErrorModel {
        match self {
            ConfigError::UnknownField(k) => ConfigErrorModel::UnknownField(k@),
            ConfigError::DuplicateField(k) => ConfigErrorModel::DuplicateField(k@),
            ConfigError::MissingField(k) => ConfigErrorModel::MissingField(k@),
            ConfigError::InvalidValue(k) => ConfigErrorModel::InvalidValue(k@),
            ConfigError::UnsupportedLiteral => ConfigErrorModel::UnsupportedLiteral,
            ConfigError::MalformedAttribute => ConfigErrorModel::MalformedAttribute,
        }
    }
}

pub open spec fn errors_view(v: Seq<ConfigError>) -> Seq<ConfigErrorModel> {
    v.map_values(|e: ConfigError| e@)
}

pub open spec fn args_view(v: Seq<MetaArg>) -> Seq<MetaArgModel> {
    v.map_values(|a: MetaArg| a@)
}

/// The one option that the greet configuration has.
pub open spec fn content_key() -> Seq<char> {
    seq!['c', 'o', 'n', 't', 'e', 'n', 't']
}

/// Where reading the arguments stands: whether `content` was met, its value
/// if it was a string, and the errors so far.
pub struct ScanModel {
    pub seen: bool,
    pub value: Option<Seq<char>>,
    pub errors: Seq<ConfigErrorModel>,
}

pub open spec fn scan_step(st: ScanModel, a: MetaArgModel) -> ScanModel {
    match a {
        MetaArgModel::Named { key, value } => if key != content_key() {
            ScanModel { errors: st.errors.push(ConfigErrorModel::UnknownField(key)), ..st }
        } else if st.seen {
            ScanModel { errors: st.errors.push(ConfigErrorModel::DuplicateField(key)), ..st }
        } else {
            match value {
                Some(v) => ScanModel { seen: true, value: Some(v), errors: st.errors },
                None => ScanModel {
                    seen: true,
                    value: None,
                    errors: st.errors.push(ConfigErrorModel::InvalidValue(key)),
                },
            }
        },
        MetaArgModel::Literal => ScanModel {
            errors: st.errors.push(ConfigErrorModel::UnsupportedLiteral),
            ..st
        },
        MetaArgModel::Malformed => ScanModel {
            errors: st.errors.push(ConfigErrorModel::MalformedAttribute),
            ..st
        },
    }
}

/// The arguments read from first to last.
pub open spec fn scan(args: Seq<MetaArgModel>) -> ScanModel
    decreases args.len(),
{
    if args.len() == 0 {
        ScanModel { seen: false, value: None, errors: seq![] }
    } else {
        scan_step(scan(args.drop_last()), args.last())
    }
}

/// All errors of the arguments, in order, then a missing `content` if it was
/// never met.
pub open spec fn config_errors(args: Seq<MetaArgModel>) -> Seq<ConfigErrorModel> {
    let st = scan(args);
    if st.seen {
        st.errors
    } else {
        st.errors.push(ConfigErrorModel::MissingField(content_key()))
    }
}

/// The configured template, or every error found.
pub open spec fn config_outcome(args: Seq<MetaArgModel>) -> Result<Seq<char>, Seq<ConfigErrorModel>> {
    if config_errors(args).len() == 0 {
        Ok(scan(args).value.unwrap())
    } else {
        Err(config_errors(args))
    }
}

fn content_text() -> (r: String)
    ensures
        r@ == content_key(),
{
    proof {
        reveal_strlit("content");
    }
    let r = String::from_str("content");
    assert(r@ =~= content_key());
    r
}

/// Reads the `content` option out of a configuration list. Every argument is
/// looked at, and every error is reported, as a derived option reader does.
pub fn content_from_args(args: &Vec<MetaArg>) -> (r: Result<String, Vec<ConfigError>>)
    ensures
        match r {
            Ok(t) => config_outcome(args_view(args@)) == Ok::<Seq<char>, Seq<ConfigErrorModel>>(t@),
            Err(e) => config_outcome(args_view(args@)) == Err::<Seq<char>, Seq<ConfigErrorModel>>(errors_view(e@)),
        },
{
    let ghost all = args_view(args@);
    let mut seen = false;
    let mut value: Option<String> = None;
    let mut errors: Vec<ConfigError> = Vec::new();
    let mut i: usize = 0;
    assert(all.take(0) =~= Seq::<MetaArgModel>::empty());
    assert(errors_view(errors@) =~= Seq::<ConfigErrorModel>::empty());
    while i < args.len()
        invariant
            i <= args.len(),
            all == args_view(args@),
            scan(all.take(i as int)) == (ScanModel {
                seen,
                value: match value { Some(v) => Some(v@), None => None },
                errors: errors_view(errors@),
            }),
            seen && value is None ==> errors.len() > 0,
        decreases args.len() - i,
    {
        let ghost st = scan(all.take(i as int));
        assert(all.take(i + 1).drop_last() =~= all.take(i as int));
        assert(all.take(i + 1).last() == args@[i as int]@);
        match &args[i] {
            MetaArg::Named { key, value: v } => {
                let ck = content_text();
                if !same_text(key.as_str(), ck.as_str()) {
                    errors.push(ConfigError::UnknownField(key.clone()));
                } else if seen {
                    errors.push(ConfigError::DuplicateField(ck));
                } else {
                    seen = true;
                    match v {
                        Some(t) => {
                            value = Some(t.clone());
                        },
                        None => {
                            value = None;
                            errors.push(ConfigError::InvalidValue(ck));
                        },
                    }
                }
            },
            MetaArg::Literal => {
                errors.push(ConfigError::UnsupportedLiteral);
            },
            MetaArg::Malformed => {
                errors.push(ConfigError::MalformedAttribute);
            },
        }
        assert(errors_view(errors@) =~= scan_step(st, args@[i as int]@).errors);
        i = i + 1;
    }
    assert(all.take(i as int) =~= all);
    if !seen {
        errors.push(ConfigError::MissingField(content_text()));
    }
    assert(config_errors(all) =~= errors_view(errors@));
    if errors.len() == 0 {
        match value {
            Some(t) => Ok(t),
            None => Err(errors),
        }
    } else {
        Err(errors)
    }
}

pub open spec fn names_content(a: MetaArgModel) -> bool {
    a matches MetaArgModel::Named { key, .. } && key == content_key()
}

proof fn lemma_unseen(args: Seq<MetaArgModel>)
    requires
        forall|i: int| 0 <= i < args.len() ==> !names_content(#[trigger] args[i]),
    ensures
        !scan(args).seen,
    decreases args.len(),
{
    if args.len() > 0 {
        lemma_unseen(args.drop_last());
        assert(!names_content(args[args.len() - 1]));
    }
}

/// A configuration that never names `content` is refused, and the last error
/// reported says that `content` is missing.
pub proof fn missing_content_is_reported(args: Seq<MetaArgModel>)
    requires
        forall|i: int| 0 <= i < args.len() ==> !names_content(#[trigger] args[i]),
    ensures
        (config_outcome(args) is Err),
        config_outcome(args)->Err_0.last() == ConfigErrorModel::MissingField(content_key()),
{
    lemma_unseen(args);
}

proof fn lemma_errors_grow(st: ScanModel, a: MetaArgModel)
    ensures
        scan_step(st, a).errors.len() >= st.errors.len(),
        scan_step(st, a).seen ==> st.seen || names_content(a),
        st.seen ==> scan_step(st, a).seen,
{
}

proof fn lemma_clean_scan(args: Seq<MetaArgModel>)
    ensures
        scan(args).errors.len() == 0 && !scan(args).seen ==> args.len() == 0,
        scan(args).errors.len() == 0 && scan(args).seen ==> args.len() == 1 && args[0]
            == (MetaArgModel::Named { key: content_key(), value: scan(args).value })
            && (scan(args).value is Some),
    decreases args.len(),
{
    if args.len() > 0 {
        let p = args.drop_last();
        lemma_clean_scan(p);
        lemma_errors_grow(scan(p), args.last());
    }
}

/// The configuration is accepted exactly when it is the single option
/// `content = "<template>"`, and the template is then that string.
pub proof fn accepted_exactly_when_single_content(args: Seq<MetaArgModel>, t: Seq<char>)
    ensures
        config_outcome(args) == Ok::<Seq<char>, Seq<ConfigErrorModel>>(t) <==> args == seq![
            (MetaArgModel::Named { key: content_key(), value: Some(t) }),
        ],
{
    lemma_clean_scan(args);
    let one = seq![MetaArgModel::Named { key: content_key(), value: Some(t) }];
    if args == one {
        assert(one.drop_last() =~= Seq::<MetaArgModel>::empty());
        assert(scan(one.drop_last()).errors.len() == 0 && !scan(one.drop_last()).seen);
        assert(one.last() == (MetaArgModel::Named { key: content_key(), value: Some(t) }));
        assert(scan(one).seen && scan(one).errors.len() == 0 && scan(one).value == Some(t));
        assert(config_errors(one).len() == 0);
    }
    if config_outcome(args) == Ok::<Seq<char>, Seq<ConfigErrorModel>>(t) {
        assert(config_errors(args).len() == 0);
        assert(scan(args).seen);
        assert(args =~= one);
    }
}

} // verus!
