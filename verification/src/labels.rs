//! Labels for completions and symbols: a line of code that the editor
//! highlights, and the byte range of it that it shows.

use vstd::prelude::*;
use vstd::string::*;
use vstd::utf8::{encode_scalar, encode_utf8, is_ascii_chars, is_ascii_chars_encode_utf8};

verus! {

/// The kinds of completion that get a label of their own; every other kind
/// is `Other`.
#[derive(Clone, Copy, Debug, PartialEq, Eq, Structural)]
pub enum CompletionKind {
    Function,
    Method,
    Struct,
    Enum,
    Interface,
    Module,
    Constant,
    Variable,
    Field,
    Keyword,
    Other,
}

/// The kinds of symbol that get a label of their own; every other kind is
/// `Other`.
#[derive(Clone, Copy, Debug, PartialEq, Eq, Structural)]
pub enum SymbolKind {
    Function,
    Method,
    Constructor,
    Struct,
    Enum,
    Interface,
    Module,
    Namespace,
    Constant,
    Variable,
    Field,
    Property,
    TypeParameter,
    Other,
}

/// A label: code to highlight, the byte range of the code that is shown, and
/// the byte range of what is shown that is matched against what the user
/// types.
#[derive(Clone, Debug, PartialEq, Eq)]
pub struct CodeLabel {
    pub code: String,
    pub shown_start: usize,
    pub shown_end: usize,
    pub filter_start: usize,
    pub filter_end: usize,
}

/// The mathematical model of a `CodeLabel`.
pub struct CodeLabelView {
    pub code: Seq<char>,
    pub shown_start: nat,
    pub shown_end: nat,
    pub filter_start: nat,
    pub filter_end: nat,
}

impl View for CodeLabel {
    type V = CodeLabelView;

    open spec fn view(&self) -> CodeLabelView {
        CodeLabelView {
            code: self.code@,
            shown_start: self.shown_start as nat,
            shown_end: self.shown_end as nat,
            filter_start: self.filter_start as nat,
            filter_end: self.filter_end as nat,
        }
    }
}

/// The number of bytes that `text` takes in UTF-8.
pub open spec fn utf8_len(text: Seq<char>) -> nat {
    encode_utf8(text).len()
}

/// The label that shows `name` within the code `keyword + name + suffix`.
pub open spec fn label_of(keyword: Seq<char>, name: Seq<char>, suffix: Seq<char>) -> CodeLabelView {
    CodeLabelView {
        code: keyword + name + suffix,
        shown_start: utf8_len(keyword),
        shown_end: utf8_len(keyword) + utf8_len(name),
        filter_start: 0,
        filter_end: utf8_len(name),
    }
}

/// The keyword, with the space after it, that introduces a completion of
/// kind `kind`.
pub open spec fn completion_keyword(kind: CompletionKind) -> Seq<char> {
    match kind {
        CompletionKind::Function | CompletionKind::Method => "fn "@,
        CompletionKind::Struct => "struct "@,
        CompletionKind::Enum => "enum "@,
        CompletionKind::Interface => "trait "@,
        CompletionKind::Module => "mod "@,
        CompletionKind::Constant | CompletionKind::Variable => "let "@,
        CompletionKind::Field | CompletionKind::Keyword | CompletionKind::Other => ""@,
    }
}

/// What follows the name in the label of a completion of kind `kind` with
/// the detail `detail`: a function's signature as it stands; a type after a
/// colon for a constant, variable or field; nothing where there is no
/// detail, and nothing for the other kinds.
pub open spec fn completion_suffix(kind: CompletionKind, detail: Seq<char>) -> Seq<char> {
    match kind {
        CompletionKind::Function | CompletionKind::Method => detail,
        CompletionKind::Constant | CompletionKind::Variable | CompletionKind::Field => {
            if detail.len() == 0 {
                ""@
            } else {
                ": "@ + detail
            }
        },
        _ => ""@,
    }
}

/// The label of a completion.
pub open spec fn completion_label(
    kind: CompletionKind,
    label: Seq<char>,
    detail: Option<Seq<char>>,
) -> CodeLabelView {
    let detail = match detail {
        Some(d) => d,
        None => ""@,
    };
    label_of(completion_keyword(kind), label, completion_suffix(kind, detail))
}

/// The keyword, with the space after it, that introduces a symbol of kind
/// `kind`.
pub open spec fn symbol_keyword(kind: SymbolKind) -> Seq<char> {
    match kind {
        SymbolKind::Function | SymbolKind::Method | SymbolKind::Constructor => "fn "@,
        SymbolKind::Struct => "struct "@,
        SymbolKind::Enum => "enum "@,
        SymbolKind::Interface => "trait "@,
        SymbolKind::Module | SymbolKind::Namespace => "mod "@,
        SymbolKind::Constant => "global "@,
        SymbolKind::Variable => "let "@,
        SymbolKind::Field
        | SymbolKind::Property
        | SymbolKind::TypeParameter
        | SymbolKind::Other => ""@,
    }
}

/// The label of a symbol.
pub open spec fn symbol_label(kind: SymbolKind, name: Seq<char>) -> CodeLabelView {
    label_of(symbol_keyword(kind), name, ""@)
}

/// The longest keyword, with its space, takes seven bytes.
pub open spec fn max_keyword_width() -> nat {
    7
}

/// The encoding of a concatenation is the concatenation of the encodings.
pub proof fn lemma_encode_concat(a: Seq<char>, b: Seq<char>)
    ensures
        encode_utf8(a + b) == encode_utf8(a) + encode_utf8(b),
    decreases a.len(),
{
    if a.len() == 0 {
        assert(a + b =~= b);
        assert(encode_utf8(a) + encode_utf8(b) =~= encode_utf8(b));
    } else {
        lemma_encode_concat(a.drop_first(), b);
        assert((a + b).drop_first() =~= a.drop_first() + b);
        assert((a + b)[0] == a[0]);
        assert(encode_scalar(a[0] as u32) + (encode_utf8(a.drop_first()) + encode_utf8(b))
            =~= (encode_scalar(a[0] as u32) + encode_utf8(a.drop_first())) + encode_utf8(b));
    }
}

/// The byte range that a label shows holds the name and nothing else, and
/// all of what is shown is matched against what the user types.
pub proof fn lemma_label_shows_name(keyword: Seq<char>, name: Seq<char>, suffix: Seq<char>)
    ensures
        ({
            let label = label_of(keyword, name, suffix);
            &&& label.shown_start <= label.shown_end <= utf8_len(label.code)
            &&& encode_utf8(label.code).subrange(label.shown_start as int, label.shown_end as int)
                == encode_utf8(name)
            &&& label.filter_start == 0
            &&& label.filter_end == label.shown_end - label.shown_start
        }),
{
    lemma_encode_concat(keyword, name);
    lemma_encode_concat(keyword + name, suffix);
    let bytes = encode_utf8(keyword + name + suffix);
    assert(bytes =~= encode_utf8(keyword) + encode_utf8(name) + encode_utf8(suffix));
    let start = utf8_len(keyword) as int;
    assert(bytes.subrange(start, start + utf8_len(name)) =~= encode_utf8(name));
}

/// The width in bytes of each keyword of a completion.
pub proof fn lemma_completion_keyword_width(kind: CompletionKind)
    ensures
        utf8_len(completion_keyword(kind)) == match kind {
            CompletionKind::Function | CompletionKind::Method => 3nat,
            CompletionKind::Struct => 7,
            CompletionKind::Enum => 5,
            CompletionKind::Interface => 6,
            CompletionKind::Module => 4,
            CompletionKind::Constant | CompletionKind::Variable => 4,
            CompletionKind::Field | CompletionKind::Keyword | CompletionKind::Other => 0,
        },
        utf8_len(completion_keyword(kind)) <= max_keyword_width(),
{
    reveal_strlit("fn ");
    reveal_strlit("struct ");
    reveal_strlit("enum ");
    reveal_strlit("trait ");
    reveal_strlit("mod ");
    reveal_strlit("let ");
    reveal_strlit("");
    let keyword = completion_keyword(kind);
    assert(is_ascii_chars(keyword));
    is_ascii_chars_encode_utf8(keyword);
}

/// The width in bytes of each keyword of a symbol.
pub proof fn lemma_symbol_keyword_width(kind: SymbolKind)
    ensures
        utf8_len(symbol_keyword(kind)) == match kind {
            SymbolKind::Function | SymbolKind::Method | SymbolKind::Constructor => 3nat,
            SymbolKind::Struct => 7,
            SymbolKind::Enum => 5,
            SymbolKind::Interface => 6,
            SymbolKind::Module | SymbolKind::Namespace => 4,
            SymbolKind::Constant => 7,
            SymbolKind::Variable => 4,
            SymbolKind::Field | SymbolKind::Property | SymbolKind::TypeParameter
            | SymbolKind::Other => 0,
        },
        utf8_len(symbol_keyword(kind)) <= max_keyword_width(),
{
    reveal_strlit("fn ");
    reveal_strlit("struct ");
    reveal_strlit("enum ");
    reveal_strlit("trait ");
    reveal_strlit("mod ");
    reveal_strlit("global ");
    reveal_strlit("let ");
    reveal_strlit("");
    let keyword = symbol_keyword(kind);
    assert(is_ascii_chars(keyword));
    is_ascii_chars_encode_utf8(keyword);
}

/// The number of bytes of `text`.
fn byte_len(text: &str) -> (n: usize)
    ensures
        n == utf8_len(text@),
{
    text.as_bytes().len()
}

/// Whether `name` is short enough for a label: whether its bytes, after the
/// longest keyword, can still be counted in a `usize`. The two label
/// functions ask this of the name that they are given.
pub fn fits_in_label(name: &str) -> (fits: bool)
    ensures
        fits == (utf8_len(name@) + max_keyword_width() <= usize::MAX),
{
    byte_len(name) <= usize::MAX - 7
}

/// Builds the label that shows `name` within `keyword`, `name` and `suffix`
/// put together.
fn build_label(keyword: &str, name: &str, suffix: &str) -> (label: CodeLabel)
    requires
        utf8_len(keyword@) + utf8_len(name@) <= usize::MAX,
    ensures
        label@ == label_of(keyword@, name@, suffix@),
{
    let mut code = keyword.to_owned();
    code.append(name);
    code.append(suffix);
    let start = byte_len(keyword);
    let width = byte_len(name);
    CodeLabel {
        code,
        shown_start: start,
        shown_end: start + width,
        filter_start: 0,
        filter_end: width,
    }
}

/// The label of a completion of kind `kind`, if it has a kind, with the
/// text `label` and the detail `detail`, if it has one. A completion without
/// a kind gets no label.
pub fn label_for_completion(
    kind: Option<CompletionKind>,
    label: &str,
    detail: Option<&str>,
) -> (out: Option<CodeLabel>)
    requires
        utf8_len(label@) + max_keyword_width() <= usize::MAX,
    ensures
        match kind {
            Some(kind) => out is Some && out->0@ == completion_label(
                kind,
                label@,
                detail.deep_view(),
            ),
            None => out is None,
        },
{
    let kind = match kind {
        Some(kind) => kind,
        None => {
            return None;
        },
    };
    let detail = match detail {
        Some(d) => d,
        None => "",
    };
    proof {
        lemma_completion_keyword_width(kind);
    }
    let keyword = match kind {
        CompletionKind::Function | CompletionKind::Method => "fn ",
        CompletionKind::Struct => "struct ",
        CompletionKind::Enum => "enum ",
        CompletionKind::Interface => "trait ",
        CompletionKind::Module => "mod ",
        CompletionKind::Constant | CompletionKind::Variable => "let ",
        CompletionKind::Field | CompletionKind::Keyword | CompletionKind::Other => "",
    };
    let built = match kind {
        CompletionKind::Function | CompletionKind::Method => build_label(keyword, label, detail),
        CompletionKind::Constant | CompletionKind::Variable | CompletionKind::Field => {
            if detail.is_empty() {
                build_label(keyword, label, "")
            } else {
                let mut suffix = ": ".to_owned();
                suffix.append(detail);
                build_label(keyword, label, suffix.as_str())
            }
        },
        _ => build_label(keyword, label, ""),
    };
    Some(built)
}

/// The label of a symbol of kind `kind` with the name `name`.
pub fn label_for_symbol(kind: SymbolKind, name: &str) -> (out: Option<CodeLabel>)
    requires
        utf8_len(name@) + max_keyword_width() <= usize::MAX,
    ensures
        out is Some,
        out->0@ == symbol_label(kind, name@),
{
    proof {
        lemma_symbol_keyword_width(kind);
    }
    let keyword = match kind {
        SymbolKind::Function | SymbolKind::Method | SymbolKind::Constructor => "fn ",
        SymbolKind::Struct => "struct ",
        SymbolKind::Enum => "enum ",
        SymbolKind::Interface => "trait ",
        SymbolKind::Module | SymbolKind::Namespace => "mod ",
        SymbolKind::Constant => "global ",
        SymbolKind::Variable => "let ",
        SymbolKind::Field | SymbolKind::Property | SymbolKind::TypeParameter
        | SymbolKind::Other => "",
    };
    Some(build_label(keyword, name, ""))
}

} // verus!
