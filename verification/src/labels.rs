//! How completions and symbols of FlatBuffers schemas are shown in the
//! editor.
//!
//! A label is a piece of schema code in which the name stands where a name
//! of its kind would stand, so that the editor can colour it as it colours
//! the schema. Two ranges of bytes of that code say which part is shown
//! and which part is matched against what the user types.

use crate::model::option_view;
use vstd::prelude::*;
use vstd::string::*;
use vstd::utf8::{encode_utf8, is_ascii_chars, is_ascii_chars_encode_utf8};

verus! {

/// The kinds of completion that get a label of their own. Every other kind
/// is `Other`.
#[derive(Clone, Copy, Debug, PartialEq, Eq, Structural)]
pub enum CompletionKind {
    Class,
    Struct,
    Enum,
    Interface,
    Keyword,
    Module,
    Property,
    Other,
}

/// The kinds of symbol that get a label of their own. Every other kind is
/// `Other`.
#[derive(Clone, Copy, Debug, PartialEq, Eq, Structural)]
pub enum SymbolKind {
    Class,
    Struct,
    Enum,
    Interface,
    Object,
    Other,
}

/// What a language server reports of a completion, as far as its label
/// depends on it.
#[derive(Debug, PartialEq, Eq)]
pub struct Completion {
    pub label: String,
    pub kind: Option<CompletionKind>,
    pub description: Option<String>,
}

/// A [`Completion`] as plain values.
pub struct CompletionView {
    pub label: Seq<char>,
    pub kind: Option<CompletionKind>,
    pub description: Option<Seq<char>>,
}

impl View for Completion {
    type V = CompletionView;

    open spec fn view(&self) -> CompletionView {
        CompletionView {
            label: self.label@,
            kind: self.kind,
            description: option_view(self.description),
        }
    }
}

/// What a language server reports of a symbol.
#[derive(Debug, PartialEq, Eq)]
pub struct Symbol {
    pub name: String,
    pub kind: SymbolKind,
}

/// A [`Symbol`] as plain values.
pub struct SymbolView {
    pub name: Seq<char>,
    pub kind: SymbolKind,
}

impl View for Symbol {
    type V = SymbolView;

    open spec fn view(&self) -> SymbolView {
        SymbolView { name: self.name@, kind: self.kind }
    }
}

/// A range of bytes: from `start`, up to `end` and without it.
#[derive(Clone, Copy, Debug, PartialEq, Eq, Structural)]
pub struct TextRange {
    pub start: usize,
    pub end: usize,
}

/// A [`TextRange`] as plain values.
pub struct TextRangeView {
    pub start: int,
    pub end: int,
}

impl View for TextRange {
    type V = TextRangeView;

    open spec fn view(&self) -> TextRangeView {
        TextRangeView { start: self.start as int, end: self.end as int }
    }
}

/// One part of what a label shows.
#[derive(Debug, PartialEq, Eq)]
pub enum LabelSpan {
    /// A range of the label's code, coloured as the schema is.
    CodeRange { range: TextRange },
    /// A text of its own, coloured as `highlight_name` says.
    Literal { text: String, highlight_name: Option<String> },
}

/// A [`LabelSpan`] as plain values.
pub enum LabelSpanView {
    CodeRange { range: TextRangeView },
    Literal { text: Seq<char>, highlight_name: Option<Seq<char>> },
}

impl View for LabelSpan {
    type V = LabelSpanView;

    open spec fn view(&self) -> LabelSpanView {
        match self {
            LabelSpan::CodeRange { range } => LabelSpanView::CodeRange { range: range@ },
            LabelSpan::Literal { text, highlight_name } => LabelSpanView::Literal {
                text: text@,
                highlight_name: option_view(*highlight_name),
            },
        }
    }
}

/// A label: its code, the parts that are shown, and the range of the code
/// that is matched against what the user types.
#[derive(Debug, PartialEq, Eq)]
pub struct CodeLabel {
    pub code: String,
    pub spans: Vec<LabelSpan>,
    pub filter_range: TextRange,
}

/// A [`CodeLabel`] as plain values.
pub struct CodeLabelView {
    pub code: Seq<char>,
    pub spans: Seq<LabelSpanView>,
    pub filter_range: TextRangeView,
}

impl View for CodeLabel {
    type V = CodeLabelView;

    open spec fn view(&self) -> CodeLabelView {
        CodeLabelView {
            code: self.code@,
            spans: crate::model::views(self.spans@),
            filter_range: self.filter_range@,
        }
    }
}

/// The number of bytes that `text` takes.
pub open spec fn byte_len(text: Seq<char>) -> int {
    encode_utf8(text).len() as int
}

/// The schema code around a name: what stands before it and what after,
/// and whether the label shows the code from its start or the name alone.
pub struct Frame {
    pub lead: Seq<char>,
    pub tail: Seq<char>,
    pub from_start: bool,
}

/// The code in which a completion of `kind` stands, for the kinds that are
/// shown as schema code.
pub open spec fn completion_frame(kind: CompletionKind) -> Option<Frame> {
    match kind {
        CompletionKind::Class => Some(Frame { lead: "table "@, tail: " {}"@, from_start: true }),
        CompletionKind::Struct => Some(
            Frame { lead: "struct "@, tail: " {}"@, from_start: true },
        ),
        CompletionKind::Enum => Some(
            Frame { lead: "enum "@, tail: " : byte {}"@, from_start: true },
        ),
        CompletionKind::Interface => Some(
            Frame { lead: "union "@, tail: " {}"@, from_start: true },
        ),
        CompletionKind::Keyword => Some(
            Frame { lead: "table F { f: "@, tail: "; }"@, from_start: false },
        ),
        CompletionKind::Module => Some(
            Frame { lead: "namespace "@, tail: ";"@, from_start: true },
        ),
        CompletionKind::Property | CompletionKind::Other => None,
    }
}

/// The code in which a symbol of `kind` stands, for the kinds that have a
/// label.
pub open spec fn symbol_frame(kind: SymbolKind) -> Option<Frame> {
    match kind {
        SymbolKind::Class => Some(Frame { lead: "table "@, tail: " {}"@, from_start: true }),
        SymbolKind::Struct => Some(Frame { lead: "struct "@, tail: " {}"@, from_start: true }),
        SymbolKind::Enum => Some(Frame { lead: "enum "@, tail: " : byte {}"@, from_start: true }),
        SymbolKind::Interface => Some(Frame { lead: "union "@, tail: " {}"@, from_start: true }),
        SymbolKind::Object => Some(
            Frame { lead: "rpc_service "@, tail: " { Read(Req): Resp; }"@, from_start: true },
        ),
        SymbolKind::Other => None,
    }
}

/// The code of a label: the name in its frame.
pub open spec fn framed_code(frame: Frame, name: Seq<char>) -> Seq<char> {
    frame.lead + name + frame.tail
}

/// The range of the code that is matched against what the user types: the
/// bytes of the name.
pub open spec fn filter_range_of(frame: Frame, name: Seq<char>) -> TextRangeView {
    TextRangeView { start: frame.lead.len() as int, end: frame.lead.len() + byte_len(name) }
}

/// The range of the code that is shown: the name with what stands before
/// it, or the name alone.
pub open spec fn display_range_of(frame: Frame, name: Seq<char>) -> TextRangeView {
    if frame.from_start {
        TextRangeView { start: 0, end: filter_range_of(frame, name).end }
    } else {
        filter_range_of(frame, name)
    }
}

/// What is shown of a completion's description: the description in round
/// brackets, or nothing where there is none.
pub open spec fn description_text(description: Option<Seq<char>>) -> Seq<char> {
    match description {
        Some(text) => "("@ + text + ")"@,
        None => Seq::empty(),
    }
}

/// The label of a completion. A completion without a kind, or of a kind
/// that is not shown in a way of its own, has none. A property is shown as
/// its name alone, coloured as an attribute. Every other is shown as schema
/// code, followed by a space and the description.
pub open spec fn completion_label_of(completion: CompletionView) -> Option<CodeLabelView> {
    match completion.kind {
        None => None,
        Some(CompletionKind::Property) => Some(
            CodeLabelView {
                code: completion.label,
                spans: seq![
                    LabelSpanView::Literal {
                        text: completion.label,
                        highlight_name: Some("attribute"@),
                    },
                ],
                filter_range: TextRangeView { start: 0, end: byte_len(completion.label) },
            },
        ),
        Some(kind) => match completion_frame(kind) {
            None => None,
            Some(frame) => Some(
                CodeLabelView {
                    code: framed_code(frame, completion.label),
                    spans: seq![
                        LabelSpanView::CodeRange {
                            range: display_range_of(frame, completion.label),
                        },
                        LabelSpanView::Literal { text: " "@, highlight_name: None },
                        LabelSpanView::Literal {
                            text: description_text(completion.description),
                            highlight_name: Some("comment"@),
                        },
                    ],
                    filter_range: filter_range_of(frame, completion.label),
                },
            ),
        },
    }
}

/// The label of a symbol: its name as schema code, for the kinds that have
/// one.
pub open spec fn symbol_label_of(symbol: SymbolView) -> Option<CodeLabelView> {
    match symbol_frame(symbol.kind) {
        None => None,
        Some(frame) => Some(
            CodeLabelView {
                code: framed_code(frame, symbol.name),
                spans: seq![
                    LabelSpanView::CodeRange { range: display_range_of(frame, symbol.name) },
                ],
                filter_range: filter_range_of(frame, symbol.name),
            },
        ),
    }
}

/// The label whose code is `name` between `lead` and `tail`, with the
/// name at the byte `offset`, and the spans for a code range alone.
fn framed(lead: &str, name: &str, tail: &str, offset: usize, from_start: bool) -> (parts: (
    String,
    TextRange,
    TextRange,
))
    requires
        offset == lead@.len(),
        offset + byte_len(name@) <= usize::MAX,
    ensures
        ({
            let frame = Frame { lead: lead@, tail: tail@, from_start };
            &&& parts.0@ == framed_code(frame, name@)
            &&& parts.1@ == filter_range_of(frame, name@)
            &&& parts.2@ == display_range_of(frame, name@)
        }),
{
    let mut code = String::from_str(lead);
    code.append(name);
    code.append(tail);
    let filter_range = TextRange { start: offset, end: offset + name.len() };
    let display_range = if from_start {
        TextRange { start: 0, end: filter_range.end }
    } else {
        filter_range
    };
    (code, filter_range, display_range)
}

/// The label of a completion, if it has one.
pub fn label_for_completion(completion: Completion) -> (label: Option<CodeLabel>)
    requires
        byte_len(completion.label@) + 13 <= usize::MAX,
    ensures
        option_view(label) == completion_label_of(completion@),
{
    let Completion { label: name, kind, description } = completion;
    let kind = match kind {
        Some(kind) => kind,
        None => { return None; },
    };
    proof {
        reveal_strlit("table ");
        reveal_strlit("struct ");
        reveal_strlit("enum ");
        reveal_strlit("union ");
        reveal_strlit("table F { f: ");
        reveal_strlit("namespace ");
    }
    let (code, filter_range, display_range) = match kind {
        CompletionKind::Class => framed("table ", name.as_str(), " {}", 6, true),
        CompletionKind::Struct => framed("struct ", name.as_str(), " {}", 7, true),
        CompletionKind::Enum => framed("enum ", name.as_str(), " : byte {}", 5, true),
        CompletionKind::Interface => framed("union ", name.as_str(), " {}", 6, true),
        CompletionKind::Keyword => framed("table F { f: ", name.as_str(), "; }", 13, false),
        CompletionKind::Module => framed("namespace ", name.as_str(), ";", 10, true),
        CompletionKind::Property => {
            let filter_range = TextRange { start: 0, end: name.as_str().len() };
            let mut spans: Vec<LabelSpan> = Vec::new();
            spans.push(
                LabelSpan::Literal {
                    text: name.clone(),
                    highlight_name: Some(String::from_str("attribute")),
                },
            );
            let label = CodeLabel { code: name, spans, filter_range };
            assert(label@.spans =~= completion_label_of(completion@)->0.spans);
            return Some(label);
        },
        CompletionKind::Other => { return None; },
    };
    let shown = match description {
        Some(text) => {
            let mut shown = String::from_str("(");
            shown.append(text.as_str());
            shown.append(")");
            shown
        },
        None => String::new(),
    };
    let mut spans: Vec<LabelSpan> = Vec::new();
    spans.push(LabelSpan::CodeRange { range: display_range });
    spans.push(LabelSpan::Literal { text: String::from_str(" "), highlight_name: None });
    spans.push(
        LabelSpan::Literal { text: shown, highlight_name: Some(String::from_str("comment")) },
    );
    let label = CodeLabel { code, spans, filter_range };
    assert(label@.spans =~= completion_label_of(completion@)->0.spans);
    Some(label)
}

/// The label of a symbol, if it has one.
pub fn label_for_symbol(symbol: Symbol) -> (label: Option<CodeLabel>)
    requires
        byte_len(symbol.name@) + 12 <= usize::MAX,
    ensures
        option_view(label) == symbol_label_of(symbol@),
{
    let Symbol { name, kind } = symbol;
    proof {
        reveal_strlit("table ");
        reveal_strlit("struct ");
        reveal_strlit("enum ");
        reveal_strlit("union ");
        reveal_strlit("rpc_service ");
    }
    let (code, filter_range, display_range) = match kind {
        SymbolKind::Class => framed("table ", name.as_str(), " {}", 6, true),
        SymbolKind::Struct => framed("struct ", name.as_str(), " {}", 7, true),
        SymbolKind::Enum => framed("enum ", name.as_str(), " : byte {}", 5, true),
        SymbolKind::Interface => framed("union ", name.as_str(), " {}", 6, true),
        SymbolKind::Object => framed(
            "rpc_service ",
            name.as_str(),
            " { Read(Req): Resp; }",
            12,
            true,
        ),
        SymbolKind::Other => { return None; },
    };
    let mut spans: Vec<LabelSpan> = Vec::new();
    spans.push(LabelSpan::CodeRange { range: display_range });
    let label = CodeLabel { code, spans, filter_range };
    assert(label@.spans =~= symbol_label_of(symbol@)->0.spans);
    Some(label)
}

/// The bytes of two texts joined are the bytes of the first and then those
/// of the second.
pub proof fn lemma_bytes_of_joined(first: Seq<char>, second: Seq<char>)
    ensures
        encode_utf8(first + second) == encode_utf8(first) + encode_utf8(second),
    decreases first.len(),
{
    if first.len() == 0 {
        assert(first + second =~= second);
        assert(encode_utf8(first) + encode_utf8(second) =~= encode_utf8(second));
    } else {
        lemma_bytes_of_joined(first.drop_first(), second);
        assert((first + second).drop_first() =~= first.drop_first() + second);
        assert(encode_utf8(first + second) =~= encode_utf8(first) + encode_utf8(second));
    }
}

/// In a frame whose lead is plain ASCII, the filter range holds exactly the
/// bytes of the name, and the display range ends where the name ends.
pub proof fn lemma_ranges_in_frame(frame: Frame, name: Seq<char>)
    requires
        is_ascii_chars(frame.lead),
    ensures
        encode_utf8(framed_code(frame, name)).subrange(
            filter_range_of(frame, name).start,
            filter_range_of(frame, name).end,
        ) == encode_utf8(name),
        0 <= display_range_of(frame, name).start <= filter_range_of(frame, name).start,
        display_range_of(frame, name).end == filter_range_of(frame, name).end,
        filter_range_of(frame, name).end <= byte_len(framed_code(frame, name)),
{
    let code = framed_code(frame, name);
    lemma_bytes_of_joined(frame.lead + name, frame.tail);
    lemma_bytes_of_joined(frame.lead, name);
    is_ascii_chars_encode_utf8(frame.lead);
    let range = filter_range_of(frame, name);
    assert(encode_utf8(code).subrange(range.start, range.end) =~= encode_utf8(name));
}

/// Every lead in which a completion or a symbol is framed is plain ASCII.
pub proof fn lemma_leads_are_ascii()
    ensures
        forall|kind: CompletionKind|
            completion_frame(kind) is Some ==> is_ascii_chars(
                (#[trigger] completion_frame(kind))->0.lead,
            ),
        forall|kind: SymbolKind|
            symbol_frame(kind) is Some ==> is_ascii_chars((#[trigger] symbol_frame(kind))->0.lead),
{
    reveal_strlit("table ");
    reveal_strlit("struct ");
    reveal_strlit("enum ");
    reveal_strlit("union ");
    reveal_strlit("table F { f: ");
    reveal_strlit("namespace ");
    reveal_strlit("rpc_service ");
    assert(is_ascii_chars("table "@));
    assert(is_ascii_chars("struct "@));
    assert(is_ascii_chars("enum "@));
    assert(is_ascii_chars("union "@));
    assert(is_ascii_chars("table F { f: "@));
    assert(is_ascii_chars("namespace "@));
    assert(is_ascii_chars("rpc_service "@));
}

/// In the label of a completion, the range that is matched against what
/// the user types holds exactly the bytes of the completion's own label.
pub proof fn lemma_completion_filter_is_the_name(completion: CompletionView)
    requires
        completion_label_of(completion) is Some,
    ensures
        ({
            let label = completion_label_of(completion)->0;
            encode_utf8(label.code).subrange(label.filter_range.start, label.filter_range.end)
                == encode_utf8(completion.label)
        }),
{
    let label = completion_label_of(completion)->0;
    let kind = completion.kind->0;
    if kind == CompletionKind::Property {
        assert(encode_utf8(label.code).subrange(0, byte_len(completion.label)) =~= encode_utf8(
            completion.label,
        ));
    } else {
        lemma_leads_are_ascii();
        lemma_ranges_in_frame(completion_frame(kind)->0, completion.label);
    }
}

/// In the label of a symbol, the range that is matched against what the
/// user types holds exactly the bytes of the symbol's name.
pub proof fn lemma_symbol_filter_is_the_name(symbol: SymbolView)
    requires
        symbol_label_of(symbol) is Some,
    ensures
        ({
            let label = symbol_label_of(symbol)->0;
            encode_utf8(label.code).subrange(label.filter_range.start, label.filter_range.end)
                == encode_utf8(symbol.name)
        }),
{
    lemma_leads_are_ascii();
    lemma_ranges_in_frame(symbol_frame(symbol.kind)->0, symbol.name);
}

} // verus!
