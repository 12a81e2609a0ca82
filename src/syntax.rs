//! Host-defined grammar rules ("custom syntax") and the sub-expressions that
//! such rules capture.

use crate::dynamic::{AccessMode, Dynamic, Union};
use crate::parse_error::{LexError, ParseError, Position};
use crate::result::EvalAltResult;
use crate::scope::Scope;
use crate::scope::last_index;
use crate::text::{decimal, decimal_text};
use crate::token::{
    is_valid_identifier, lookup_from_syntax, symbol_kind, trim, trimmed, valid_identifier,
    SymbolKind,
};
use vstd::prelude::*;
use vstd::string::*;

verus! {

/// A sub-expression of a parsed script, as captured by a custom syntax rule.
#[derive(Debug)]
pub enum Expr {
    /// The unit value.
    Unit(Position),
    BoolConstant(bool, Position),
    IntegerConstant(i64, Position),
    CharConstant(char, Position),
    StringConstant(String, Position),
    /// A variable, by name.
    Variable(String, Position),
}

impl Expr {
    pub open spec fn spec_position(&self) -> Position {
        match self {
            Expr::Unit(p) => *p,
            Expr::BoolConstant(_, p) => *p,
            Expr::IntegerConstant(_, p) => *p,
            Expr::CharConstant(_, p) => *p,
            Expr::StringConstant(_, p) => *p,
            Expr::Variable(_, p) => *p,
        }
    }

    /// Where the expression starts in the script.
    pub fn position(&self) -> (r: Position)
        ensures
            r == self.spec_position(),
    {
        match self {
            Expr::Unit(p) => *p,
            Expr::BoolConstant(_, p) => *p,
            Expr::IntegerConstant(_, p) => *p,
            Expr::CharConstant(_, p) => *p,
            Expr::StringConstant(_, p) => *p,
            Expr::Variable(_, p) => *p,
        }
    }

    /// The name of the variable, if this expression is one.
    pub fn get_variable_access(&self) -> (r: Option<&str>)
        ensures
            match self {
                Expr::Variable(name, _) => r matches Some(n) && n@ == name@,
                _ => r is None,
            },
    {
        match self {
            Expr::Variable(name, _) => Some(name.as_str()),
            _ => None,
        }
    }
}

/// A captured sub-expression, handed to a custom syntax rule's evaluation
/// callback.
#[derive(Debug)]
pub struct Expression<'a>(&'a Expr);

impl<'a> Expression<'a> {
    pub fn new(expr: &'a Expr) -> (r: Expression<'a>)
        ensures
            *r.spec_expr() == *expr,
    {
        Expression(expr)
    }

    pub closed spec fn spec_expr(&self) -> &'a Expr {
        self.0
    }

    /// If this expression is a variable, its name.
    pub fn get_variable_name(&self) -> (r: Option<&str>)
        ensures
            match *self.spec_expr() {
                Expr::Variable(name, _) => r matches Some(n) && n@ == name@,
                _ => r is None,
            },
    {
        self.0.get_variable_access()
    }

    /// The expression itself.
    pub fn expr(&self) -> (r: &Expr)
        ensures
            *r == *self.spec_expr(),
    {
        self.0
    }

    /// Where the expression starts in the script.
    pub fn position(&self) -> (r: Position)
        ensures
            r == self.spec_expr().spec_position(),
    {
        self.0.position()
    }
}

/// What a custom syntax rule's evaluation callback works with: the live
/// scope and the current call depth.
pub struct EvalContext<'s> {
    pub scope: &'s mut Scope,
    pub level: usize,
}

impl<'s> EvalContext<'s> {
    /// Evaluate a captured sub-expression: a constant gives its value, a
    /// variable the value of its most recent binding.
    pub fn eval_expression_tree(&mut self, expr: &Expression) -> (r: Result<Dynamic, EvalAltResult>)
        requires
            old(self).scope.wf(),
        ensures
            *final(self).scope == *old(self).scope,
            final(self).level == old(self).level,
            match *expr.spec_expr() {
                Expr::Unit(_) => r == Ok::<Dynamic, EvalAltResult>(Dynamic::spec_unit()),
                Expr::BoolConstant(b, _) => r == Ok::<Dynamic, EvalAltResult>(
                    Dynamic { value: Union::Bool(b), access: AccessMode::ReadWrite },
                ),
                Expr::IntegerConstant(i, _) => r == Ok::<Dynamic, EvalAltResult>(
                    Dynamic { value: Union::Int(i), access: AccessMode::ReadWrite },
                ),
                Expr::CharConstant(c, _) => r == Ok::<Dynamic, EvalAltResult>(
                    Dynamic { value: Union::Char(c), access: AccessMode::ReadWrite },
                ),
                Expr::StringConstant(s, _) => r matches Ok(v) && v.value matches Union::Str(t)
                    && t@ == s@ && v.access == AccessMode::ReadWrite,
                Expr::Variable(name, pos) => match old(self).scope.lookup(name@) {
                    Some(v) => r == Ok::<Dynamic, EvalAltResult>(v),
                    None => r matches Err(EvalAltResult::ErrorVariableNotFound(n, p)) && n@
                        == name@ && p == pos,
                },
            },
    {
        match expr.expr() {
            Expr::Unit(_) => Ok(Dynamic::unit()),
            Expr::BoolConstant(b, _) => Ok(Dynamic::from(*b)),
            Expr::IntegerConstant(i, _) => Ok(Dynamic::from(*i)),
            Expr::CharConstant(c, _) => Ok(Dynamic::from(*c)),
            Expr::StringConstant(s, _) => Ok(Dynamic::from(s.clone())),
            Expr::Variable(name, pos) => {
                proof {
                    crate::scope::lemma_last_index(self.scope.names_view(), name@);
                }
                match self.scope.get_index(name.as_str()) {
                    Some((index, _)) => Ok(self.scope.value_at(index).flatten_clone()),
                    None => Err(EvalAltResult::ErrorVariableNotFound(name.clone(), *pos)),
                }
            },
        }
    }
}

/// The marker of a captured expression.
pub const MARKER_EXPR: &'static str = "$expr$";

/// The marker of a captured statement block.
pub const MARKER_BLOCK: &'static str = "$block$";

/// The marker of a captured identifier.
pub const MARKER_IDENT: &'static str = "$ident$";

pub open spec fn is_marker(s: Seq<char>) -> bool {
    s == "$expr$"@ || s == "$block$"@ || s == "$ident$"@
}

/// How a rule decides, token by token, what comes next: either the fixed
/// list of its segments, or a parse callback of the host.
#[derive(Debug)]
pub enum SyntaxParse<P> {
    Segments(Vec<String>),
    Custom(P),
}

/// A custom syntax rule.
#[derive(Debug)]
pub struct CustomSyntax<P, F> {
    /// What the rule expects next, given what it matched so far.
    pub parse: SyntaxParse<P>,
    /// The evaluation callback.
    pub func: F,
    /// The net number of bindings the rule's evaluation adds to the scope
    /// (removes, when negative).
    pub scope_delta: isize,
}

/// The next segment a rule made of `segments` expects once `matched` of them
/// have been matched; `None` once all are.
pub open spec fn segment_step(segments: Seq<Seq<char>>, matched: nat) -> Option<Seq<char>> {
    if matched >= segments.len() {
        None
    } else {
        Some(segments[matched as int])
    }
}

/// The parse step of a rule made of `segments`: given the segments matched
/// so far, the next one to expect, or `None` when the rule is complete.
pub fn parse_segments(segments: &Vec<String>, stream: &[String], look_ahead: &str) -> (r: Result<
    Option<String>,
    ParseError,
>)
    ensures
        match segment_step(segments@.map_values(|s: String| s@), stream@.len()) {
            Some(next) => r matches Ok(Some(t)) && t@ == next,
            None => r matches Ok(None),
        },
{
    if stream.len() >= segments.len() {
        Ok(None)
    } else {
        Ok(Some(segments[stream.len()].clone()))
    }
}

/// Whether segment `s` may stand after `n` accepted segments: a marker, a
/// token or an identifier may follow; the first segment, the rule's key,
/// must be an identifier that is neither a keyword nor reserved.
pub open spec fn segment_allowed(s: Seq<char>, n: nat) -> bool {
    if n > 0 {
        is_marker(s) || symbol_kind(s) is Some || valid_identifier(s)
    } else {
        valid_identifier(s) && symbol_kind(s) != Some(SymbolKind::Keyword) && symbol_kind(s)
            != Some(SymbolKind::Reserved)
    }
}

/// Whether accepting segment `s` after `n` others makes it a custom keyword,
/// so that the lexer returns it as a token: it is not a marker, and it is a
/// disabled symbol or a reserved one.
pub open spec fn becomes_keyword(s: Seq<char>, n: nat, disabled: Seq<Seq<char>>) -> bool {
    !(n > 0 && is_marker(s)) && (disabled.contains(s) || symbol_kind(s) == Some(
        SymbolKind::Reserved,
    ))
}

/// The state of a registration after some of its segments.
pub struct ScanState {
    /// The segments accepted.
    pub segments: Seq<Seq<char>>,
    /// The custom keywords.
    pub keywords: Seq<Seq<char>>,
    /// The first segment refused, and its position counted from one.
    pub error: Option<(Seq<char>, nat)>,
}

/// Registration over the first `k` of `words`: each is trimmed, empty ones
/// are skipped, and the first one refused stops the scan.
pub open spec fn scan(
    words: Seq<Seq<char>>,
    k: nat,
    disabled: Seq<Seq<char>>,
    keywords: Seq<Seq<char>>,
) -> ScanState
    decreases k,
{
    if k == 0 || k > words.len() {
        ScanState { segments: Seq::empty(), keywords, error: None }
    } else {
        let st = scan(words, (k - 1) as nat, disabled, keywords);
        let s = trimmed(words[k - 1]);
        if st.error is Some || s.len() == 0 {
            st
        } else if segment_allowed(s, st.segments.len()) {
            ScanState {
                segments: st.segments.push(s),
                keywords: if becomes_keyword(s, st.segments.len(), disabled)
                    && !st.keywords.contains(s) {
                    st.keywords.push(s)
                } else {
                    st.keywords
                },
                error: None,
            }
        } else {
            ScanState {
                segments: st.segments,
                keywords: st.keywords,
                error: Some((s, st.segments.len() + 1)),
            }
        }
    }
}

/// The message for a segment `s` refused at position `pos`.
pub open spec fn improper_message(s: Seq<char>, pos: nat) -> Seq<char> {
    "Improper symbol for custom syntax at position #"@ + decimal(pos) + ": '"@ + s + "'"@
}

/// The error of a segment `s` refused at position `pos`.
pub open spec fn is_improper_symbol(e: ParseError, s: Seq<char>, pos: nat) -> bool {
    &&& *e.0 matches crate::parse_error::ParseErrorType::BadInput(
        LexError::ImproperSymbol(sym, desc),
    )
    &&& sym@ == s
    &&& desc@ == improper_message(s, pos)
    &&& e.1.line == 0
}

fn improper_symbol(s: &str, pos: usize) -> (r: ParseError)
    ensures
        is_improper_symbol(r, s@, pos as nat),
{
    let mut desc = String::from_str("Improper symbol for custom syntax at position #");
    let p = decimal_text(pos);
    desc.append(p.as_str());
    desc.append(": '");
    desc.append(s);
    desc.append("'");
    LexError::ImproperSymbol(String::from_str(s), desc).into_err(Position::none())
}

/// Whether `s` is one of the three markers.
fn is_marker_text(s: &str) -> (r: bool)
    ensures
        r == is_marker(s@),
{
    let text = String::from_str(s);
    text == String::from_str(MARKER_EXPR) || text == String::from_str(MARKER_BLOCK) || text
        == String::from_str(MARKER_IDENT)
}

/// Once a segment is refused, the rest of the scan changes nothing.
proof fn lemma_scan_stops(
    words: Seq<Seq<char>>,
    k: nat,
    m: nat,
    disabled: Seq<Seq<char>>,
    keywords: Seq<Seq<char>>,
)
    requires
        k <= m <= words.len(),
        scan(words, k, disabled, keywords).error is Some,
    ensures
        scan(words, m, disabled, keywords) == scan(words, k, disabled, keywords),
    decreases m - k,
{
    if m > k {
        lemma_scan_stops(words, k, (m - 1) as nat, disabled, keywords);
    }
}

/// Before its first non-empty segment a registration has accepted nothing
/// and refused nothing.
proof fn lemma_scan_blank_prefix(
    words: Seq<Seq<char>>,
    k: nat,
    disabled: Seq<Seq<char>>,
    keywords: Seq<Seq<char>>,
)
    requires
        k <= words.len(),
        forall|j: int| 0 <= j < k ==> #[trigger] trimmed(words[j]).len() == 0,
    ensures
        scan(words, k, disabled, keywords) == (ScanState {
            segments: Seq::empty(),
            keywords,
            error: None,
        }),
    decreases k,
{
    if k > 0 {
        lemma_scan_blank_prefix(words, (k - 1) as nat, disabled, keywords);
        assert(trimmed(words[k - 1]).len() == 0);
    }
}

/// A rule whose key, its first non-empty segment, is a keyword or a reserved
/// word is refused at position one, and the custom keywords stay as they
/// were; a refused registration installs no rule.
pub proof fn lemma_reserved_key_refused(
    words: Seq<Seq<char>>,
    k: nat,
    disabled: Seq<Seq<char>>,
    keywords: Seq<Seq<char>>,
)
    requires
        k < words.len(),
        forall|j: int| 0 <= j < k ==> #[trigger] trimmed(words[j]).len() == 0,
        trimmed(words[k as int]).len() > 0,
        symbol_kind(trimmed(words[k as int])) == Some(SymbolKind::Keyword) || symbol_kind(
            trimmed(words[k as int]),
        ) == Some(SymbolKind::Reserved),
    ensures
        scan(words, words.len(), disabled, keywords).error == Some(
            (trimmed(words[k as int]), 1nat),
        ),
        scan(words, words.len(), disabled, keywords).keywords == keywords,
{
    lemma_scan_blank_prefix(words, k, disabled, keywords);
    assert(scan(words, k + 1, disabled, keywords).error == Some((trimmed(words[k as int]), 1nat)));
    lemma_scan_stops(words, k + 1, words.len(), disabled, keywords);
}

/// Whether `s` is one of the strings of `v`.
fn contains_text(v: &Vec<String>, s: &str) -> (r: bool)
    ensures
        r == v@.map_values(|t: String| t@).contains(s@),
{
    let ghost texts = v@.map_values(|t: String| t@);
    let key = String::from_str(s);
    let mut i: usize = 0;
    while i < v.len()
        invariant
            i <= v@.len(),
            key@ == s@,
            texts == v@.map_values(|t: String| t@),
            forall|k: int| 0 <= k < i ==> texts[k] != s@,
        decreases v@.len() - i,
    {
        if v[i] == key {
            assert(texts[i as int] == s@);
            return true;
        }
        i += 1;
    }
    false
}

/// The parts of the engine that custom syntax works with: the symbols the
/// host disabled, the custom keywords the lexer accepts, and the rules, each
/// under its key.
#[derive(Debug)]
pub struct Engine<P, F> {
    disabled_symbols: Vec<String>,
    custom_keywords: Vec<String>,
    custom_syntax: Vec<(String, CustomSyntax<P, F>)>,
}

impl<P, F> Engine<P, F> {
    pub closed spec fn disabled_view(&self) -> Seq<Seq<char>> {
        self.disabled_symbols@.map_values(|s: String| s@)
    }

    pub closed spec fn keywords_view(&self) -> Seq<Seq<char>> {
        self.custom_keywords@.map_values(|s: String| s@)
    }

    /// The keys of the rules, in order of first registration.
    pub closed spec fn syntax_keys(&self) -> Seq<Seq<char>> {
        self.custom_syntax@.map_values(|e: (String, CustomSyntax<P, F>)| e.0@)
    }

    pub closed spec fn syntax_rules(&self) -> Seq<CustomSyntax<P, F>> {
        self.custom_syntax@.map_values(|e: (String, CustomSyntax<P, F>)| e.1)
    }

    /// The rule registered under `key`.
    pub open spec fn rule(&self, key: Seq<char>) -> Option<CustomSyntax<P, F>> {
        match last_index(self.syntax_keys(), key) {
            Some(i) => Some(self.syntax_rules()[i]),
            None => None,
        }
    }

    pub fn new() -> (r: Self)
        ensures
            r.disabled_view() == Seq::<Seq<char>>::empty(),
            r.keywords_view() == Seq::<Seq<char>>::empty(),
            forall|k: Seq<char>| #[trigger] r.rule(k) is None,
    {
        let r = Engine {
            disabled_symbols: Vec::new(),
            custom_keywords: Vec::new(),
            custom_syntax: Vec::new(),
        };
        assert(r.disabled_view() =~= Seq::<Seq<char>>::empty());
        assert(r.keywords_view() =~= Seq::<Seq<char>>::empty());
        assert(r.syntax_keys() =~= Seq::<Seq<char>>::empty());
        r
    }

    /// Disable a keyword or operator symbol, unless it is disabled already.
    pub fn disable_symbol(&mut self, symbol: &str)
        ensures
            final(self).disabled_view() == if old(self).disabled_view().contains(symbol@) {
                old(self).disabled_view()
            } else {
                old(self).disabled_view().push(symbol@)
            },
            final(self).keywords_view() == old(self).keywords_view(),
            final(self).syntax_keys() == old(self).syntax_keys(),
            final(self).syntax_rules() == old(self).syntax_rules(),
    {
        if !contains_text(&self.disabled_symbols, symbol) {
            self.disabled_symbols.push(String::from_str(symbol));
            assert(self.disabled_view() =~= old(self).disabled_view().push(symbol@));
        }
    }

    pub fn is_symbol_disabled(&self, symbol: &str) -> (r: bool)
        ensures
            r == self.disabled_view().contains(symbol@),
    {
        contains_text(&self.disabled_symbols, symbol)
    }

    pub fn is_custom_keyword(&self, keyword: &str) -> (r: bool)
        ensures
            r == self.keywords_view().contains(keyword@),
    {
        contains_text(&self.custom_keywords, keyword)
    }

    /// Make `s` a custom keyword, unless it is one already.
    fn add_custom_keyword(&mut self, s: &str)
        ensures
            final(self).keywords_view() == if old(self).keywords_view().contains(s@) {
                old(self).keywords_view()
            } else {
                old(self).keywords_view().push(s@)
            },
            final(self).disabled_view() == old(self).disabled_view(),
            final(self).syntax_keys() == old(self).syntax_keys(),
            final(self).syntax_rules() == old(self).syntax_rules(),
    {
        if !contains_text(&self.custom_keywords, s) {
            self.custom_keywords.push(String::from_str(s));
            assert(self.keywords_view() =~= old(self).keywords_view().push(s@));
        }
    }

    /// Where the rule under `key` stands, if there is one.
    fn find_syntax(&self, key: &String) -> (r: Option<usize>)
        ensures
            match last_index(self.syntax_keys(), key@) {
                Some(i) => r matches Some(k) && k as int == i,
                None => r is None,
            },
    {
        let ghost keys = self.syntax_keys();
        let mut i: usize = self.custom_syntax.len();
        proof {
            assert(keys.subrange(0, i as int) =~= keys);
        }
        while i > 0
            invariant
                keys == self.syntax_keys(),
                i <= self.custom_syntax@.len(),
                last_index(keys, key@) == last_index(keys.subrange(0, i as int), key@),
            decreases i,
        {
            if self.custom_syntax[i - 1].0 == *key {
                return Some(i - 1);
            }
            proof {
                assert(keys.subrange(0, i as int).drop_last() =~= keys.subrange(0, i - 1));
            }
            i -= 1;
        }
        proof {
            assert(keys.subrange(0, 0) =~= Seq::<Seq<char>>::empty());
        }
        None
    }

    /// Install `syntax` under `key`, replacing the rule there if any.
    fn insert_syntax(&mut self, key: String, syntax: CustomSyntax<P, F>)
        ensures
            forall|k: Seq<char>|
                #[trigger] final(self).rule(k) == if k == key@ {
                    Some(syntax)
                } else {
                    old(self).rule(k)
                },
            final(self).disabled_view() == old(self).disabled_view(),
            final(self).keywords_view() == old(self).keywords_view(),
    {
        let ghost keys = self.syntax_keys();
        let ghost rules = self.syntax_rules();
        proof {
            crate::scope::lemma_last_index(keys, key@);
        }
        match self.find_syntax(&key) {
            Some(i) => {
                let ghost key_view = key@;
                self.custom_syntax.set(i, (key, syntax));
                proof {
                    assert(self.syntax_keys() =~= keys);
                    assert(self.syntax_rules() =~= rules.update(i as int, syntax));
                    assert forall|k: Seq<char>|
                        #[trigger] self.rule(k) == if k == key_view {
                            Some(syntax)
                        } else {
                            old(self).rule(k)
                        } by {
                        crate::scope::lemma_last_index(keys, k);
                    };
                }
            },
            None => {
                let ghost key_view = key@;
                self.custom_syntax.push((key, syntax));
                proof {
                    assert(self.syntax_keys() =~= keys.push(key_view));
                    assert(self.syntax_rules() =~= rules.push(syntax));
                    assert(self.syntax_keys().drop_last() =~= keys);
                    assert forall|k: Seq<char>|
                        #[trigger] self.rule(k) == if k == key_view {
                            Some(syntax)
                        } else {
                            old(self).rule(k)
                        } by {
                        crate::scope::lemma_last_index(keys, k);
                    };
                }
            },
        }
    }

    /// The rule registered under `key`, if any.
    pub fn custom_syntax(&self, key: &str) -> (r: Option<&CustomSyntax<P, F>>)
        ensures
            match self.rule(key@) {
                Some(rule) => r matches Some(x) && *x == rule,
                None => r is None,
            },
    {
        let k = String::from_str(key);
        proof {
            crate::scope::lemma_last_index(self.syntax_keys(), key@);
        }
        match self.find_syntax(&k) {
            Some(i) => Some(&self.custom_syntax[i].1),
            None => None,
        }
    }

    /// Register a rule under `key` with a parse callback of the host.
    pub fn register_custom_syntax_raw(&mut self, key: &str, parse: P, new_vars: isize, func: F) -> (r: &mut Self)
        ensures
            *final(self) == *final(r),
            forall|k: Seq<char>|
                #[trigger] r.rule(k) == if k == key@ {
                    Some(
                        CustomSyntax {
                            parse: SyntaxParse::Custom(parse),
                            func,
                            scope_delta: new_vars,
                        },
                    )
                } else {
                    old(self).rule(k)
                },
            r.disabled_view() == old(self).disabled_view(),
            r.keywords_view() == old(self).keywords_view(),
    {
        let syntax = CustomSyntax { parse: SyntaxParse::Custom(parse), func, scope_delta: new_vars };
        self.insert_syntax(String::from_str(key), syntax);
        self
    }
    /// Register a rule given as a list of segments: literal tokens,
    /// identifiers and markers, the first of which is the rule's key.
    /// Segments are trimmed and empty ones skipped; with none left nothing is
    /// registered. A disabled or reserved symbol among them becomes a custom
    /// keyword. A segment that may not stand where it is (a keyword, reserved
    /// word, marker or symbol as the key; anything that is neither a token nor
    /// an identifier elsewhere) is an error, and no rule is installed.
    pub fn register_custom_syntax(&mut self, keywords: &[&str], new_vars: isize, func: F) -> (r:
        Result<&mut Self, ParseError>)
        ensures
            ({
                let st = scan(
                    keywords@.map_values(|w: &str| w@),
                    keywords@.len(),
                    old(self).disabled_view(),
                    old(self).keywords_view(),
                );
                &&& r is Err <==> st.error is Some
                &&& r matches Err(e) ==> {
                    &&& st.error matches Some((s, pos)) && is_improper_symbol(e, s, pos)
                    &&& final(self).disabled_view() == old(self).disabled_view()
                    &&& final(self).keywords_view() == st.keywords
                    &&& forall|k: Seq<char>| #[trigger] final(self).rule(k) == old(self).rule(k)
                }
                &&& r matches Ok(engine) ==> {
                    &&& *final(self) == *final(engine)
                    &&& engine.disabled_view() == old(self).disabled_view()
                    &&& engine.keywords_view() == st.keywords
                    &&& st.segments.len() == 0 ==> forall|k: Seq<char>|
                        #[trigger] engine.rule(k) == old(self).rule(k)
                    &&& st.segments.len() > 0 ==> {
                        &&& engine.rule(st.segments[0]) matches Some(rule)
                        &&& rule.parse matches SyntaxParse::Segments(v)
                        &&& v@.map_values(|s: String| s@) == st.segments
                        &&& rule.func == func
                        &&& rule.scope_delta == new_vars
                    }
                    &&& st.segments.len() > 0 ==> forall|k: Seq<char>|
                        k != st.segments[0] ==> #[trigger] engine.rule(k) == old(self).rule(k)
                }
            }),
    {
        let ghost words = keywords@.map_values(|w: &str| w@);
        let ghost disabled = old(self).disabled_view();
        let ghost keywords0 = old(self).keywords_view();
        let mut segments: Vec<String> = Vec::new();
        let mut error: Option<ParseError> = None;
        let mut i: usize = 0;
        while i < keywords.len() && error.is_none()
            invariant
                i <= keywords@.len(),
                words == keywords@.map_values(|w: &str| w@),
                segments@.len() <= i,
                error is None ==> scan(words, i as nat, disabled, keywords0).error is None,
                error is None ==> segments@.map_values(|s: String| s@) == scan(
                    words,
                    i as nat,
                    disabled,
                    keywords0,
                ).segments,
                error matches Some(e) ==> scan(words, keywords@.len(), disabled, keywords0).error matches Some((s, pos)) && is_improper_symbol(e, s, pos),
                error is Some ==> scan(words, keywords@.len(), disabled, keywords0).keywords
                    == scan(words, i as nat, disabled, keywords0).keywords,
                self.keywords_view() == scan(words, i as nat, disabled, keywords0).keywords,
                self.disabled_view() == disabled,
                self.syntax_keys() == old(self).syntax_keys(),
                self.syntax_rules() == old(self).syntax_rules(),
            decreases keywords@.len() - i + if error is None {
                1int
            } else {
                0int
            },
        {
            let ghost st = scan(words, i as nat, disabled, keywords0);
            let s = trim(keywords[i]);
            assert(words[i as int] == keywords@[i as int]@);
            let n = segments.len();
            if !s.is_empty() {
                let token = lookup_from_syntax(s);
                let ident = is_valid_identifier(s);
                let marker = is_marker_text(s);
                let accepted = if n > 0 {
                    marker || token.is_some() || ident
                } else {
                    ident && !matches!(token, Some(SymbolKind::Keyword) | Some(SymbolKind::Reserved))
                };
                if accepted {
                    if !(n > 0 && marker) && (self.is_symbol_disabled(s) || matches!(
                        token,
                        Some(SymbolKind::Reserved)
                    )) {
                        self.add_custom_keyword(s);
                    }
                    let ghost before = segments@;
                    segments.push(String::from_str(s));
                    proof {
                        assert(segments@.map_values(|t: String| t@) =~= before.map_values(
                            |t: String| t@,
                        ).push(s@));
                    }
                    i += 1;
                } else {
                    let e = improper_symbol(s, n + 1);
                    proof {
                        assert(!segment_allowed(s@, st.segments.len()));
                        assert(scan(words, (i + 1) as nat, disabled, keywords0).error == Some(
                            (s@, (n + 1) as nat),
                        ));
                        lemma_scan_stops(words, (i + 1) as nat, keywords@.len(), disabled, keywords0);
                    }
                    error = Some(e);
                }
            } else {
                i += 1;
            }
        }
        if let Some(e) = error {
            proof {
                assert forall|k: Seq<char>| #[trigger] self.rule(k) == old(self).rule(k) by {}
            }
            return Err(e);
        }
        proof {
            assert(keywords@.len() == i);
        }
        if segments.len() == 0 {
            return Ok(self);
        }
        let key = segments[0].clone();
        let ghost segs = segments@;
        let syntax = CustomSyntax { parse: SyntaxParse::Segments(segments), func, scope_delta: new_vars };
        self.insert_syntax(key, syntax);
        proof {
            assert(segs.map_values(|t: String| t@)[0] == key@);
        }
        Ok(self)
    }
}

} // verus!
