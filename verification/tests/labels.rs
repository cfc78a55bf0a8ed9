use zed_flatbuffers::labels::{
    label_for_completion, label_for_symbol, CodeLabel, Completion, CompletionKind, LabelSpan,
    Symbol, SymbolKind, TextRange,
};

fn completion(label: &str, kind: Option<CompletionKind>, description: Option<&str>) -> Completion {
    Completion {
        label: label.to_string(),
        kind,
        description: description.map(|d| d.to_string()),
    }
}

fn code_label(code: &str, shown: (usize, usize), filter: (usize, usize), note: &str) -> CodeLabel {
    CodeLabel {
        code: code.to_string(),
        spans: vec![
            LabelSpan::CodeRange { range: TextRange { start: shown.0, end: shown.1 } },
            LabelSpan::Literal { text: " ".to_string(), highlight_name: None },
            LabelSpan::Literal {
                text: note.to_string(),
                highlight_name: Some("comment".to_string()),
            },
        ],
        filter_range: TextRange { start: filter.0, end: filter.1 },
    }
}

fn symbol_label(code: &str, end: usize, start: usize) -> CodeLabel {
    CodeLabel {
        code: code.to_string(),
        spans: vec![LabelSpan::CodeRange { range: TextRange { start: 0, end } }],
        filter_range: TextRange { start, end },
    }
}

#[test]
fn completion_of_a_table() {
    assert_eq!(
        label_for_completion(completion("Monster", Some(CompletionKind::Class), None)),
        Some(code_label("table Monster {}", (0, 13), (6, 13), ""))
    );
}

#[test]
fn completion_of_a_struct_with_description() {
    assert_eq!(
        label_for_completion(completion("Vec3", Some(CompletionKind::Struct), Some("12 bytes"))),
        Some(code_label("struct Vec3 {}", (0, 11), (7, 11), "(12 bytes)"))
    );
}

#[test]
fn completion_of_an_enum() {
    assert_eq!(
        label_for_completion(completion("Color", Some(CompletionKind::Enum), Some(""))),
        Some(code_label("enum Color : byte {}", (0, 10), (5, 10), "()"))
    );
}

#[test]
fn completion_of_a_union() {
    assert_eq!(
        label_for_completion(completion("Any", Some(CompletionKind::Interface), None)),
        Some(code_label("union Any {}", (0, 9), (6, 9), ""))
    );
}

#[test]
fn completion_of_a_keyword_shows_the_keyword_alone() {
    assert_eq!(
        label_for_completion(completion("ulong", Some(CompletionKind::Keyword), None)),
        Some(code_label("table F { f: ulong; }", (13, 18), (13, 18), ""))
    );
}

#[test]
fn completion_of_a_namespace() {
    assert_eq!(
        label_for_completion(completion("My.Game", Some(CompletionKind::Module), None)),
        Some(code_label("namespace My.Game;", (0, 17), (10, 17), ""))
    );
}

#[test]
fn completion_of_an_attribute() {
    assert_eq!(
        label_for_completion(completion("deprecated", Some(CompletionKind::Property), Some("x"))),
        Some(CodeLabel {
            code: "deprecated".to_string(),
            spans: vec![LabelSpan::Literal {
                text: "deprecated".to_string(),
                highlight_name: Some("attribute".to_string()),
            }],
            filter_range: TextRange { start: 0, end: 10 },
        })
    );
}

#[test]
fn completion_without_a_label_of_its_own() {
    assert_eq!(label_for_completion(completion("x", None, Some("d"))), None);
    assert_eq!(label_for_completion(completion("x", Some(CompletionKind::Other), None)), None);
}

#[test]
fn completion_ranges_count_bytes() {
    let label = label_for_completion(completion("Gr\u{fc}n", Some(CompletionKind::Class), None))
        .unwrap();
    assert_eq!(label.code, "table Gr\u{fc}n {}");
    assert_eq!(label.filter_range, TextRange { start: 6, end: 11 });
    assert_eq!(&label.code.as_bytes()[6..11], "Gr\u{fc}n".as_bytes());
    let label = label_for_completion(completion("", Some(CompletionKind::Keyword), None)).unwrap();
    assert_eq!(label.code, "table F { f: ; }");
    assert_eq!(label.filter_range, TextRange { start: 13, end: 13 });
}

#[test]
fn symbol_labels() {
    let symbol = |name: &str, kind| Symbol { name: name.to_string(), kind };
    assert_eq!(
        label_for_symbol(symbol("Monster", SymbolKind::Class)),
        Some(symbol_label("table Monster {}", 13, 6))
    );
    assert_eq!(
        label_for_symbol(symbol("Vec3", SymbolKind::Struct)),
        Some(symbol_label("struct Vec3 {}", 11, 7))
    );
    assert_eq!(
        label_for_symbol(symbol("Color", SymbolKind::Enum)),
        Some(symbol_label("enum Color : byte {}", 10, 5))
    );
    assert_eq!(
        label_for_symbol(symbol("Any", SymbolKind::Interface)),
        Some(symbol_label("union Any {}", 9, 6))
    );
    assert_eq!(
        label_for_symbol(symbol("Store", SymbolKind::Object)),
        Some(symbol_label("rpc_service Store { Read(Req): Resp; }", 17, 12))
    );
    assert_eq!(label_for_symbol(symbol("f", SymbolKind::Other)), None);
}
