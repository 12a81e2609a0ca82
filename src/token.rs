//! The part of the lexer that the custom syntax registry relies on: which
//! texts are keywords, reserved words or operator symbols, and which are
//! valid identifiers.

use vstd::prelude::*;
use vstd::string::*;

verus! {

/// How the lexer reads a piece of text that is one of its tokens.
#[derive(Debug, Clone, Copy, PartialEq, Eq, Structural)]
pub enum SymbolKind {
    /// A keyword of the language's own grammar.
    Keyword,
    /// A word or symbol kept back for future use, or a built-in function
    /// name that may not be redefined.
    Reserved,
    /// An operator or punctuation symbol.
    Operator,
}

pub open spec fn keyword_table() -> Seq<Seq<char>> {
    seq!["true"@, "false"@, "let"@, "const"@, "if"@, "else"@, "switch"@, "do"@, "while"@,
        "until"@, "loop"@, "for"@, "in"@, "continue"@, "break"@, "return"@, "throw"@, "try"@,
        "catch"@, "import"@, "export"@, "as"@, "fn"@, "private"@, "global"@]
}

pub open spec fn reserved_table() -> Seq<Seq<char>> {
    seq!["print"@, "debug"@, "type_of"@, "eval"@, "Fn"@, "call"@, "curry"@, "is_def_var"@,
        "is_def_fn"@, "is_shared"@, "this"@, "var"@, "static"@, "begin"@, "end"@, "shared"@,
        "with"@, "each"@, "then"@, "goto"@, "unless"@, "exit"@, "match"@, "case"@, "public"@,
        "protected"@, "super"@, "new"@, "use"@, "module"@, "package"@, "default"@, "void"@,
        "null"@, "nil"@, "spawn"@, "thread"@, "go"@, "sync"@, "async"@, "await"@, "yield"@,
        "==="@, "!=="@, "->"@, "<-"@, ":="@, "::<"@, "(*"@, "*)"@, "#"@, "#!"@, "@"@, "$"@,
        "++"@, "--"@, "..."@, "<|"@, "|>"@]
}

pub open spec fn operator_table() -> Seq<Seq<char>> {
    seq!["{"@, "}"@, "("@, ")"@, "["@, "]"@, "."@, "#{"@, "+"@, "-"@, "*"@, "/"@, ";"@, ":"@,
        "::"@, "=>"@, ","@, "=="@, "!="@, ">"@, "<"@, ">="@, "<="@, "="@, "!"@, "|"@, "||"@,
        "&"@, "&&"@, "^"@, "%"@, "**"@, "<<"@, ">>"@, "+="@, "-="@, "*="@, "/="@, "%="@,
        "**="@, "<<="@, ">>="@, "&="@, "|="@, "^="@, "?"@, ".."@]
}

/// The token that the text `s` stands for, if any.
pub open spec fn symbol_kind(s: Seq<char>) -> Option<SymbolKind> {
    if keyword_table().contains(s) {
        Some(SymbolKind::Keyword)
    } else if reserved_table().contains(s) {
        Some(SymbolKind::Reserved)
    } else if operator_table().contains(s) {
        Some(SymbolKind::Operator)
    } else {
        None
    }
}

fn keywords() -> (r: Vec<&'static str>)
    ensures
        r@.map_values(|w: &str| w@) == keyword_table(),
{
    let r = vec!["true", "false", "let", "const", "if", "else", "switch", "do", "while", "until", "loop",
    "for", "in", "continue", "break", "return", "throw", "try", "catch", "import", "export",
    "as", "fn", "private", "global"];
    assert(r@.map_values(|w: &str| w@) =~= keyword_table());
    r
}

fn reserved_words() -> (r: Vec<&'static str>)
    ensures
        r@.map_values(|w: &str| w@) == reserved_table(),
{
    let r = vec!["print", "debug", "type_of", "eval", "Fn", "call", "curry", "is_def_var", "is_def_fn",
    "is_shared", "this", "var", "static", "begin", "end", "shared", "with", "each", "then",
    "goto", "unless", "exit", "match", "case", "public", "protected", "super", "new", "use",
    "module", "package", "default", "void", "null", "nil", "spawn", "thread", "go", "sync",
    "async", "await", "yield", "===", "!==", "->", "<-", ":=", "::<", "(*", "*)", "#", "#!",
    "@", "$", "++", "--", "...", "<|", "|>"];
    assert(r@.map_values(|w: &str| w@) =~= reserved_table());
    r
}

fn operators() -> (r: Vec<&'static str>)
    ensures
        r@.map_values(|w: &str| w@) == operator_table(),
{
    let r = vec!["{", "}", "(", ")", "[", "]", ".", "#{", "+", "-", "*", "/", ";", ":", "::", "=>", ",",
    "==", "!=", ">", "<", ">=", "<=", "=", "!", "|", "||", "&", "&&", "^", "%", "**", "<<",
    ">>", "+=", "-=", "*=", "/=", "%=", "**=", "<<=", ">>=", "&=", "|=", "^=", "?", ".."];
    assert(r@.map_values(|w: &str| w@) =~= operator_table());
    r
}

/// Whether `s` is one of the words of `table`.
fn in_table(table: &Vec<&'static str>, s: &String) -> (r: bool)
    ensures
        r == table@.map_values(|w: &str| w@).contains(s@),
{
    let ghost words = table@.map_values(|w: &str| w@);
    let mut i: usize = 0;
    while i < table.len()
        invariant
            i <= table@.len(),
            words == table@.map_values(|w: &str| w@),
            forall|k: int| 0 <= k < i ==> words[k] != s@,
        decreases table@.len() - i,
    {
        let word = String::from_str(table[i]);
        if word == *s {
            assert(words[i as int] == s@);
            return true;
        }
        i += 1;
    }
    false
}

/// The token that `s` stands for, if any.
pub fn lookup_from_syntax(s: &str) -> (r: Option<SymbolKind>)
    ensures
        r == symbol_kind(s@),
{
    let text = String::from_str(s);
    if in_table(&keywords(), &text) {
        Some(SymbolKind::Keyword)
    } else if in_table(&reserved_words(), &text) {
        Some(SymbolKind::Reserved)
    } else if in_table(&operators(), &text) {
        Some(SymbolKind::Operator)
    } else {
        None
    }
}

pub open spec fn is_ascii_letter(c: char) -> bool {
    ('a' <= c && c <= 'z') || ('A' <= c && c <= 'Z')
}

pub open spec fn is_ascii_digit(c: char) -> bool {
    '0' <= c && c <= '9'
}

/// Some character before position `i` of `s` is an ASCII letter.
pub open spec fn letter_before(s: Seq<char>, i: int) -> bool {
    exists|j: int| 0 <= j < i && is_ascii_letter(#[trigger] s[j])
}

/// A valid identifier: ASCII letters, digits and underscores, with at least
/// one letter, and no digit before the first letter.
pub open spec fn valid_identifier(s: Seq<char>) -> bool {
    &&& letter_before(s, s.len() as int)
    &&& forall|i: int|
        0 <= i < s.len() ==> {
            ||| #[trigger] s[i] == '_'
            ||| is_ascii_letter(s[i])
            ||| (is_ascii_digit(s[i]) && letter_before(s, i))
        }
}

pub fn is_valid_identifier(s: &str) -> (r: bool)
    ensures
        r == valid_identifier(s@),
{
    let n = s.unicode_len();
    let mut first_alphabetic = false;
    let mut i: usize = 0;
    while i < n
        invariant
            n == s@.len(),
            i <= n,
            first_alphabetic == letter_before(s@, i as int),
            forall|k: int|
                0 <= k < i ==> {
                    ||| #[trigger] s@[k] == '_'
                    ||| is_ascii_letter(s@[k])
                    ||| (is_ascii_digit(s@[k]) && letter_before(s@, k))
                },
        decreases n - i,
    {
        let ch = s.get_char(i);
        let letter = ('a' <= ch && ch <= 'z') || ('A' <= ch && ch <= 'Z');
        let digit = '0' <= ch && ch <= '9';
        if ch == '_' {
        } else if letter {
            first_alphabetic = true;
        } else if !first_alphabetic {
            return false;
        } else if !digit {
            return false;
        }
        proof {
            if letter {
                assert(letter_before(s@, i + 1)) by {
                    assert(is_ascii_letter(s@[i as int]));
                }
            } else {
                if letter_before(s@, i + 1) {
                    let j = choose|j: int| 0 <= j < i + 1 && is_ascii_letter(#[trigger] s@[j]);
                    assert(j != i);
                    assert(letter_before(s@, i as int));
                }
            }
            if letter_before(s@, i as int) {
                let j = choose|j: int| 0 <= j < i && is_ascii_letter(#[trigger] s@[j]);
                assert(0 <= j < i + 1 && is_ascii_letter(s@[j]));
            }
        }
        i += 1;
    }
    first_alphabetic
}

/// Relies on `str::trim`: the text without its leading and trailing white
/// space.
pub uninterp spec fn trimmed(s: Seq<char>) -> Seq<char>;

/// Relies on `str::trim`, whose result depends on the text alone.
#[verifier::external_body]
pub(crate) fn trim(s: &str) -> (r: &str)
    ensures
        r@ == trimmed(s@),
{
    s.trim()
}

} // verus!
