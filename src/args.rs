//! Configuration arguments: the token model they arrive in, and the two
//! grammars, one for an interface (`erase`, `pub(<scope>)`, `partial`) and
//! one for a method (`callable`, `uncallable`).
use vstd::prelude::*;
use crate::error::SealError;

verus! {

/// One token of an attribute's argument list, as the host parser produced it.
#[derive(Debug, PartialEq, Eq)]
pub enum ArgToken {
    Ident { name: String, span: usize },
    Punct { ch: char, span: usize },
    Literal { text: String, span: usize },
    Group { parenthesized: bool, inner: Vec<ArgToken>, span: usize },
}

pub open spec fn token_span(t: ArgToken) -> usize {
    match t {
        ArgToken::Ident { span, .. } => span,
        ArgToken::Punct { span, .. } => span,
        ArgToken::Literal { span, .. } => span,
        ArgToken::Group { span, .. } => span,
    }
}

/// `t` is the identifier `w`.
pub open spec fn is_word(t: ArgToken, w: Seq<char>) -> bool {
    t matches ArgToken::Ident { name, .. } && name@ == w
}

/// `t` is the punctuation character `c`.
pub open spec fn is_punct(t: ArgToken, c: char) -> bool {
    t matches ArgToken::Punct { ch, .. } && ch == c
}

/// The visibility of a marker module. Unrestricted visibility has no variant:
/// it would let anyone name the marker and so break the seal.
#[derive(Clone, Debug, PartialEq, Eq)]
pub enum Visibility {
    /// Private to the enclosing module.
    Inherited,
    /// `pub(crate)`, `pub(self)`, `pub(super)` or `pub(in <path>)`.
    Restricted { in_token: bool, leading_colon: bool, path: Vec<String> },
}

pub enum VisibilityModel {
    Inherited,
    Restricted { in_token: bool, leading_colon: bool, path: Seq<Seq<char>> },
}

impl DeepView for Visibility {
    type V = VisibilityModel;

    open spec fn deep_view(&self) -> VisibilityModel {
        match self {
            Visibility::Inherited => VisibilityModel::Inherited,
            Visibility::Restricted { in_token, leading_colon, path } => VisibilityModel::Restricted {
                in_token: *in_token,
                leading_colon: *leading_colon,
                path: path.deep_view(),
            },
        }
    }
}

/// How the parenthesised group after `pub` reads.
#[derive(Clone, Debug, PartialEq, Eq)]
pub enum Restriction {
    /// A restricted scope.
    Scoped(Visibility),
    /// Not a restriction at all: the `pub` stands alone.
    Unrestricted,
    /// `in` followed by something other than a module path.
    Malformed,
}

pub enum RestrictionModel {
    Scoped(VisibilityModel),
    Unrestricted,
    Malformed,
}

impl DeepView for Restriction {
    type V = RestrictionModel;

    open spec fn deep_view(&self) -> RestrictionModel {
        match self {
            Restriction::Scoped(v) => RestrictionModel::Scoped(v.deep_view()),
            Restriction::Unrestricted => RestrictionModel::Unrestricted,
            Restriction::Malformed => RestrictionModel::Malformed,
        }
    }
}

/// The segments of a module path `a::b::c` that starts at `i` and runs to the
/// end of `s`.
pub open spec fn segments_of(s: Seq<ArgToken>, i: int) -> Option<Seq<Seq<char>>>
    decreases s.len() - i,
{
    if i < s.len() {
        match s[i] {
            ArgToken::Ident { name, .. } => {
                if i + 1 == s.len() {
                    Some(seq![name@])
                } else if i + 2 < s.len() && is_punct(s[i + 1], ':') && is_punct(s[i + 2], ':') {
                    match segments_of(s, i + 3) {
                        Some(rest) => Some(seq![name@] + rest),
                        None => None,
                    }
                } else {
                    None
                }
            },
            _ => None,
        }
    } else {
        None
    }
}

/// What the inside of the group after `pub` makes of the visibility.
pub open spec fn restriction_of(s: Seq<ArgToken>) -> RestrictionModel {
    if s.len() == 1 && (is_word(s[0], "crate"@) || is_word(s[0], "self"@) || is_word(s[0], "super"@)) {
        RestrictionModel::Scoped(VisibilityModel::Restricted {
            in_token: false,
            leading_colon: false,
            path: seq![s[0]->name@],
        })
    } else if s.len() >= 1 && is_word(s[0], "in"@) {
        let leading = s.len() >= 3 && is_punct(s[1], ':') && is_punct(s[2], ':');
        match segments_of(s, if leading { 3 } else { 1 }) {
            Some(path) => RestrictionModel::Scoped(
                VisibilityModel::Restricted { in_token: true, leading_colon: leading, path },
            ),
            None => RestrictionModel::Malformed,
        }
    } else {
        RestrictionModel::Unrestricted
    }
}

/// The arguments of an interface's seal.
#[derive(Clone, Debug, PartialEq, Eq)]
pub struct TraitArguments {
    /// Strip the bounds from the marker's parameters.
    pub erased: bool,
    /// The visibility of the marker module.
    pub visibility: Visibility,
    /// Seal single methods rather than the whole interface.
    pub partial: bool,
}

pub struct ArgsModel {
    pub erased: bool,
    pub visibility: VisibilityModel,
    pub partial: bool,
}

impl DeepView for TraitArguments {
    type V = ArgsModel;

    open spec fn deep_view(&self) -> ArgsModel {
        ArgsModel {
            erased: self.erased,
            visibility: self.visibility.deep_view(),
            partial: self.partial,
        }
    }
}

/// Bounds kept, module private, the whole interface sealed.
pub open spec fn default_args() -> ArgsModel {
    ArgsModel { erased: false, visibility: VisibilityModel::Inherited, partial: false }
}

/// The token after position `i` is a parenthesised group that restricts a
/// visibility, or is malformed trying to.
pub open spec fn restricts_next(toks: Seq<ArgToken>, i: int) -> bool {
    &&& i + 1 < toks.len()
    &&& toks[i + 1] matches ArgToken::Group { parenthesized, inner, .. }
    &&& parenthesized
    &&& !(restriction_of(inner@) is Unrestricted)
}

/// How many tokens the argument at `i` takes: two for `pub` with its group.
pub open spec fn arg_width(toks: Seq<ArgToken>, i: int) -> int {
    if is_word(toks[i], "pub"@) && restricts_next(toks, i) {
        2
    } else {
        1
    }
}

/// The effect of the argument at `i` on the arguments read so far.
pub open spec fn apply_arg(toks: Seq<ArgToken>, i: int, acc: ArgsModel) -> Result<ArgsModel, SealError> {
    match toks[i] {
        ArgToken::Ident { name, span } => {
            if name@ == "erase"@ {
                Ok(ArgsModel { erased: true, ..acc })
            } else if name@ == "partial"@ {
                Ok(ArgsModel { partial: true, ..acc })
            } else if name@ == "pub"@ {
                if restricts_next(toks, i) {
                    match restriction_of(toks[i + 1]->inner@) {
                        RestrictionModel::Scoped(v) => Ok(ArgsModel { visibility: v, ..acc }),
                        _ => Err(SealError::MalformedArgumentList { span: token_span(toks[i + 1]) }),
                    }
                } else {
                    Err(SealError::UnsafeVisibility { span })
                }
            } else {
                Err(SealError::UnknownArgument { name, span })
            }
        },
        t => Err(SealError::MalformedArgumentList { span: token_span(t) }),
    }
}

/// The interface arguments from position `i` on, given those read before it:
/// arguments apply left to right, each followed by a comma or the end.
pub open spec fn trait_args_from(toks: Seq<ArgToken>, i: int, acc: ArgsModel) -> Result<ArgsModel, SealError>
    decreases toks.len() - i,
{
    if i >= toks.len() {
        Ok(acc)
    } else {
        match apply_arg(toks, i, acc) {
            Err(e) => Err(e),
            Ok(next) => {
                let j = i + arg_width(toks, i);
                if j >= toks.len() {
                    Ok(next)
                } else if is_punct(toks[j], ',') {
                    trait_args_from(toks, j + 1, next)
                } else {
                    Err(SealError::MalformedArgumentList { span: token_span(toks[i]) })
                }
            },
        }
    }
}

/// The arguments of an interface's seal, read from its argument list.
pub open spec fn trait_args_of(toks: Seq<ArgToken>) -> Result<ArgsModel, SealError> {
    trait_args_from(toks, 0, default_args())
}

pub open spec fn args_result(r: Result<TraitArguments, SealError>) -> Result<ArgsModel, SealError> {
    match r {
        Ok(a) => Ok(a.deep_view()),
        Err(e) => Err(e),
    }
}

/// The seal attribute found on a method: its argument list, if it has one,
/// and its span.
#[derive(Debug, PartialEq, Eq)]
pub struct SealAttr {
    pub args: Option<Vec<ArgToken>>,
    pub span: usize,
}

/// The arguments of a method's seal.
#[derive(Clone, Copy, Debug, PartialEq, Eq)]
pub struct FunctionArguments {
    /// Add a public wrapper that can still be called from outside.
    pub callable: bool,
}

/// The arguments of a method's seal: none, `callable` or `uncallable`.
pub open spec fn function_args_of(a: SealAttr) -> Result<FunctionArguments, SealError> {
    match a.args {
        None => Ok(FunctionArguments { callable: false }),
        Some(v) => {
            let s = v@;
            if s.len() == 0 {
                Err(SealError::MalformedArgumentList { span: a.span })
            } else {
                match s[0] {
                    ArgToken::Ident { name, span } => {
                        if name@ == "callable"@ || name@ == "uncallable"@ {
                            if s.len() > 1 {
                                Err(SealError::MalformedArgumentList { span: token_span(s[1]) })
                            } else {
                                Ok(FunctionArguments { callable: name@ == "callable"@ })
                            }
                        } else {
                            Err(SealError::UnknownArgument { name, span })
                        }
                    },
                    t => Err(SealError::MalformedArgumentList { span: token_span(t) }),
                }
            }
        },
    }
}

/// Whether `t` is the identifier `w`.
fn word_is(t: &ArgToken, w: &str) -> (r: bool)
    ensures
        r == is_word(*t, w@),
{
    match t {
        ArgToken::Ident { name, .. } => *name == String::from_str(w),
        _ => false,
    }
}

/// Whether `t` is the punctuation character `c`.
fn punct_is(t: &ArgToken, c: char) -> (r: bool)
    ensures
        r == is_punct(*t, c),
{
    match t {
        ArgToken::Punct { ch, .. } => *ch == c,
        _ => false,
    }
}

fn span(t: &ArgToken) -> (r: usize)
    ensures
        r == token_span(*t),
{
    match t {
        ArgToken::Ident { span, .. } => *span,
        ArgToken::Punct { span, .. } => *span,
        ArgToken::Literal { span, .. } => *span,
        ArgToken::Group { span, .. } => *span,
    }
}

/// `o` with `p` put in front of the segments it holds.
pub open spec fn prefixed(p: Seq<Seq<char>>, o: Option<Seq<Seq<char>>>) -> Option<Seq<Seq<char>>> {
    match o {
        Some(rest) => Some(p + rest),
        None => None,
    }
}

/// Reads the module path that starts at `start` and runs to the end of `s`.
fn parse_segments(s: &Vec<ArgToken>, start: usize) -> (r: Option<Vec<String>>)
    ensures
        match r {
            Some(p) => segments_of(s@, start as int) == Some(p.deep_view()),
            None => segments_of(s@, start as int) is None,
        },
{
    let mut path: Vec<String> = Vec::new();
    let mut i = start;
    assert(path.deep_view() =~= Seq::<Seq<char>>::empty());
    assert(segments_of(s@, start as int) =~= prefixed(path.deep_view(), segments_of(s@, i as int)))
        by {
        if let Some(rest) = segments_of(s@, start as int) {
            assert(Seq::<Seq<char>>::empty() + rest =~= rest);
        }
    }
    loop
        invariant
            start <= i,
            segments_of(s@, start as int) == prefixed(path.deep_view(), segments_of(s@, i as int)),
        decreases s@.len() - i,
    {
        if i >= s.len() {
            return None;
        }
        let name = match &s[i] {
            ArgToken::Ident { name, .. } => name.clone(),
            _ => {
                return None;
            },
        };
        let ghost before = path.deep_view();
        if i + 1 == s.len() {
            path.push(name);
            assert(path.deep_view() =~= before + seq![name@]);
            return Some(path);
        }
        if !(i + 2 < s.len() && punct_is(&s[i + 1], ':') && punct_is(&s[i + 2], ':')) {
            return None;
        }
        path.push(name);
        assert(path.deep_view() =~= before + seq![name@]);
        proof {
            if let Some(rest) = segments_of(s@, i + 3) {
                assert(before + (seq![name@] + rest) =~= path.deep_view() + rest);
            }
        }
        i = i + 3;
    }
}

/// Reads the inside of the parenthesised group that follows `pub`.
pub fn parse_restriction(s: &Vec<ArgToken>) -> (r: Restriction)
    ensures
        r.deep_view() == restriction_of(s@),
{
    if s.len() == 1 && (word_is(&s[0], "crate") || word_is(&s[0], "self") || word_is(&s[0], "super")) {
        let name = match &s[0] {
            ArgToken::Ident { name, .. } => name.clone(),
            _ => String::new(),
        };
        let mut path = Vec::new();
        path.push(name);
        assert(path.deep_view() =~= seq![s@[0]->name@]);
        Restriction::Scoped(Visibility::Restricted { in_token: false, leading_colon: false, path })
    } else if s.len() >= 1 && word_is(&s[0], "in") {
        let leading = s.len() >= 3 && punct_is(&s[1], ':') && punct_is(&s[2], ':');
        let start: usize = if leading { 3 } else { 1 };
        match parse_segments(s, start) {
            Some(path) => Restriction::Scoped(
                Visibility::Restricted { in_token: true, leading_colon: leading, path },
            ),
            None => Restriction::Malformed,
        }
    } else {
        Restriction::Unrestricted
    }
}

impl Default for TraitArguments {
    fn default() -> (r: Self)
        ensures
            r.deep_view() == default_args(),
    {
        TraitArguments { erased: false, visibility: Visibility::Inherited, partial: false }
    }
}

impl Default for FunctionArguments {
    fn default() -> (r: Self)
        ensures
            r == (FunctionArguments { callable: false }),
    {
        FunctionArguments { callable: false }
    }
}

/// Applies the argument at `i`, and says how many tokens it took.
fn apply_argument(toks: &Vec<ArgToken>, i: usize, acc: TraitArguments) -> (r: Result<
    (TraitArguments, usize),
    SealError,
>)
    requires
        i < toks@.len(),
    ensures
        match r {
            Ok((a, w)) => apply_arg(toks@, i as int, acc.deep_view()) == Ok::<ArgsModel, SealError>(
                a.deep_view(),
            ) && w == arg_width(toks@, i as int),
            Err(e) => apply_arg(toks@, i as int, acc.deep_view()) == Err::<ArgsModel, SealError>(e),
        },
{
    proof {
        reveal_strlit("erase");
        reveal_strlit("partial");
        reveal_strlit("pub");
        assert("erase"@.len() == 5 && "partial"@.len() == 7 && "pub"@.len() == 3);
    }
    match &toks[i] {
        ArgToken::Ident { name, span } => {
            if word_is(&toks[i], "erase") {
                Ok((TraitArguments { erased: true, visibility: acc.visibility, partial: acc.partial }, 1))
            } else if word_is(&toks[i], "partial") {
                Ok((TraitArguments { erased: acc.erased, visibility: acc.visibility, partial: true }, 1))
            } else if word_is(&toks[i], "pub") {
                if i < toks.len() - 1 {
                    match &toks[i + 1] {
                        ArgToken::Group { parenthesized, inner, span: group_span } => {
                            if *parenthesized {
                                match parse_restriction(inner) {
                                    Restriction::Scoped(v) => {
                                        return Ok(
                                            (
                                                TraitArguments {
                                                    erased: acc.erased,
                                                    visibility: v,
                                                    partial: acc.partial,
                                                },
                                                2,
                                            ),
                                        );
                                    },
                                    Restriction::Malformed => {
                                        return Err(
                                            SealError::MalformedArgumentList { span: *group_span },
                                        );
                                    },
                                    Restriction::Unrestricted => {},
                                }
                            }
                        },
                        _ => {},
                    }
                }
                Err(SealError::UnsafeVisibility { span: *span })
            } else {
                Err(SealError::UnknownArgument { name: name.clone(), span: *span })
            }
        },
        t => Err(SealError::MalformedArgumentList { span: span(t) }),
    }
}

/// Reads the arguments of an interface's seal: `erase`, `partial` and
/// `pub(<scope>)`, separated by commas. A bare `pub` is refused, as is any
/// other word.
pub fn parse_trait_arguments(toks: &Vec<ArgToken>) -> (r: Result<TraitArguments, SealError>)
    ensures
        args_result(r) == trait_args_of(toks@),
{
    let mut acc = TraitArguments::default();
    let mut i: usize = 0;
    while i < toks.len()
        invariant
            i <= toks@.len(),
            trait_args_of(toks@) == trait_args_from(toks@, i as int, acc.deep_view()),
        decreases toks@.len() - i,
    {
        let ghost before = acc.deep_view();
        let first = span(&toks[i]);
        match apply_argument(toks, i, acc) {
            Err(e) => {
                return Err(e);
            },
            Ok((next, width)) => {
                let j = i + width;
                if j >= toks.len() {
                    return Ok(next);
                }
                if !punct_is(&toks[j], ',') {
                    return Err(SealError::MalformedArgumentList { span: first });
                }
                acc = next;
                i = j + 1;
            },
        }
    }
    Ok(acc)
}

/// Reads the arguments of a method's seal: nothing, `callable` or
/// `uncallable`.
pub fn parse_function_arguments(attr: &SealAttr) -> (r: Result<FunctionArguments, SealError>)
    ensures
        r == function_args_of(*attr),
{
    match &attr.args {
        None => Ok(FunctionArguments::default()),
        Some(v) => {
            if v.len() == 0 {
                return Err(SealError::MalformedArgumentList { span: attr.span });
            }
            match &v[0] {
                ArgToken::Ident { name, span: at } => {
                    let callable = word_is(&v[0], "callable");
                    if callable || word_is(&v[0], "uncallable") {
                        if v.len() > 1 {
                            Err(SealError::MalformedArgumentList { span: span(&v[1]) })
                        } else {
                            Ok(FunctionArguments { callable })
                        }
                    } else {
                        Err(SealError::UnknownArgument { name: name.clone(), span: *at })
                    }
                },
                t => Err(SealError::MalformedArgumentList { span: span(t) }),
            }
        },
    }
}

} // verus!
