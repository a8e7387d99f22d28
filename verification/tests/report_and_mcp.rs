use rhwp::document_core::builders::government_report::{
    build_government_report, has_repeating_footer, has_repeating_header, metadata_line,
    report_table_count, CharFormatPreset, GovernmentReport, GovernmentReportRow,
    GovernmentReportSection, GovernmentReportTable, ReportEdit,
};
use rhwp::mcp::fs_guard::FsGuard;
use rhwp::json_value::{JsonNumber, JsonValue};
use rhwp::mcp::session::{
    closed_session_json, format_name, new_session_json, opened_session_json, FileFormat,
    SessionManager,
};

fn s(t: &str) -> String {
    t.to_string()
}

fn sample_report() -> GovernmentReport {
    GovernmentReport {
        title: s("보고서"),
        subtitle: Some(s("  부제  ")),
        organization: Some(s("기관A")),
        period: None,
        confidentiality: Some(s("대외비")),
        summary: Some(s(" ")),
        header: Some(s("머리")),
        page_footer: None,
        rows: vec![GovernmentReportRow { label: s("인원"), value: s("3"), unit: Some(s("명")) }],
        sections: vec![
            GovernmentReportSection {
                title: s("1. 개요"),
                page_break_before: true,
                paragraphs: vec![s("가"), s("  ")],
                tables: vec![GovernmentReportTable {
                    title: Some(s("표1")),
                    headers: vec![s("a"), s("b")],
                    rows: vec![vec![s("1")], vec![s("2"), s("3"), s("4")]],
                }],
            },
            GovernmentReportSection {
                title: s("2"),
                page_break_before: true,
                paragraphs: vec![],
                tables: vec![],
            },
        ],
        footer: Some(s("끝")),
    }
}

fn cell(cell: usize, text: &str) -> ReportEdit {
    ReportEdit::SetTableCell { cell, text: s(text) }
}

fn append(text: &str) -> ReportEdit {
    ReportEdit::AppendParagraph { text: s(text) }
}

fn format(char_count: usize, format: CharFormatPreset) -> ReportEdit {
    ReportEdit::FormatLastParagraph { char_count, format }
}

#[test]
fn report_plan_in_document_order() {
    let plan = build_government_report(&sample_report()).unwrap();
    let expected = vec![
        ReportEdit::SetTitle { text: s("보고서") },
        format(3, CharFormatPreset::Title),
        append("부제"),
        format(2, CharFormatPreset::Subtitle),
        append("기관: 기관A | 분류: 대외비"),
        ReportEdit::CreateRepeatingText { is_header: true, text: s("머리") },
        ReportEdit::CreateTable { rows: 2, cols: 3 },
        cell(0, "항목"),
        cell(1, "값"),
        cell(2, "단위"),
        cell(3, "인원"),
        cell(4, "3"),
        cell(5, "명"),
        append("1. 개요"),
        format(5, CharFormatPreset::SectionTitle),
        append("가"),
        append("표1"),
        format(2, CharFormatPreset::TableTitle),
        ReportEdit::CreateTable { rows: 3, cols: 3 },
        cell(0, "a"),
        cell(1, "b"),
        cell(3, "1"),
        cell(6, "2"),
        cell(7, "3"),
        cell(8, "4"),
        ReportEdit::AppendPageBreakParagraph { text: s("2") },
        format(1, CharFormatPreset::SectionTitle),
        append("끝"),
    ];
    assert_eq!(plan, expected);
}

#[test]
fn report_counts_and_repeating_text() {
    let report = sample_report();
    assert_eq!(report_table_count(&report), 2);
    assert!(has_repeating_header(&report));
    assert!(!has_repeating_footer(&report));
    assert_eq!(metadata_line(&report), "기관: 기관A | 분류: 대외비");
    let mut bare = sample_report();
    bare.organization = None;
    bare.confidentiality = Some(s("  "));
    assert_eq!(metadata_line(&bare), "");
}

#[test]
fn report_refuses_oversized_tables() {
    let mut report = sample_report();
    report.sections[0].tables[0].rows = vec![vec![]; 65535];
    assert_eq!(
        build_government_report(&report),
        Err(s("too many rows for government report table: 65536"))
    );
    let mut wide = sample_report();
    wide.sections[0].tables[0].headers = vec![String::new(); 65536];
    assert_eq!(
        build_government_report(&wide),
        Err(s("too many columns for government report table: 65536"))
    );
}

#[test]
fn sessions_get_fresh_ids() {
    let mut manager: SessionManager<String> = SessionManager::new();
    let a = manager.new_core_session(s("doc"), FileFormat::Hwp, true, JsonValue::Null, 1);
    let b = manager.open(Ok(s("loaded")), s("/tmp/a.hwp"), FileFormat::Hwpx, JsonValue::Null, 2).unwrap();
    assert_eq!(text_at(&a, "session_id"), Some("rhwp-1"));
    assert_eq!(text_at(&b, "session_id"), Some("rhwp-2"));
    assert_eq!(manager.get("rhwp-1").unwrap().core, "doc");
    assert_eq!(manager.get("rhwp-2").unwrap().path.as_deref(), Some("/tmp/a.hwp"));
    assert!(!manager.get("rhwp-2").unwrap().dirty);
    let closed = manager.close("rhwp-1").unwrap();
    assert!(matches!(closed.get("dirty"), Some(JsonValue::Bool(true))));
    assert!(matches!(closed.get("ok"), Some(JsonValue::Bool(true))));
    assert_eq!(text_at(&closed, "session_id"), Some("rhwp-1"));
    assert_eq!(manager.get("rhwp-1").err(), Some(s("unknown session_id: rhwp-1")));
    assert_eq!(manager.close("rhwp-1").err(), Some(s("unknown session_id: rhwp-1")));
    let c = manager.new_core_session(s("again"), FileFormat::Unknown, false, JsonValue::Null, 0);
    assert_eq!(text_at(&c, "session_id"), Some("rhwp-3"));
}

#[test]
fn failed_open_adds_no_session() {
    let mut manager: SessionManager<String> = SessionManager::new();
    let failed = manager.open(
        Err(s("failed to read /tmp/missing.hwp")),
        s("/tmp/missing.hwp"),
        FileFormat::Unknown,
        JsonValue::Null,
        0,
    );
    assert_eq!(failed.err(), Some(s("failed to read /tmp/missing.hwp")));
    assert!(manager.get("rhwp-1").is_err());
    let next = manager.new_core_session(s("doc"), FileFormat::Hwp, false, JsonValue::Null, 1);
    assert_eq!(text_at(&next, "session_id"), Some("rhwp-1"));
}

#[test]
fn sessions_change_in_place() {
    let mut manager: SessionManager<u32> = SessionManager::default();
    manager.new_core_session(7, FileFormat::Hwp3, false, JsonValue::Null, 1);
    let id = "rhwp-1";
    {
        let session = manager.get_mut(id).unwrap();
        session.dirty = true;
        session.core = 8;
    }
    let session = manager.get(id).unwrap();
    assert!(session.dirty);
    assert_eq!(session.core, 8);
    assert!(manager.get_mut("rhwp-9").is_err());
}

fn text_at<'a>(v: &'a JsonValue, key: &str) -> Option<&'a str> {
    match v.get(key) {
        Some(JsonValue::String(t)) => Some(t.as_str()),
        _ => None,
    }
}

#[test]
fn session_answers_as_json() {
    let mut manager: SessionManager<String> = SessionManager::new();
    let opened = manager
        .open(Ok(s("doc")), s("/tmp/a.hwpx"), FileFormat::Hwpx, JsonValue::Bool(true), 3)
        .unwrap();
    assert_eq!(text_at(&opened, "session_id"), Some("rhwp-1"));
    assert_eq!(text_at(&opened, "path"), Some("/tmp/a.hwpx"));
    assert_eq!(text_at(&opened, "source_format"), Some("hwpx"));
    assert!(matches!(opened.get("document_info"), Some(JsonValue::Bool(true))));
    let meta = opened.get("metadata").unwrap();
    assert_eq!(text_at(meta, "session_id"), Some("rhwp-1"));
    assert_eq!(text_at(meta, "path"), Some("/tmp/a.hwpx"));
    assert_eq!(text_at(meta, "source_format"), Some("hwpx"));
    assert!(matches!(meta.get("dirty"), Some(JsonValue::Bool(false))));
    assert!(matches!(meta.get("page_count"), Some(JsonValue::Number(JsonNumber::PosInt(3)))));
    let again = manager.get("rhwp-1").unwrap().metadata_json(3);
    assert_eq!(text_at(&again, "path"), Some("/tmp/a.hwpx"));
    let created = manager.new_core_session(s("new"), FileFormat::Hwp, true, JsonValue::Null, 1);
    assert_eq!(text_at(&created, "session_id"), Some("rhwp-2"));
    assert!(matches!(created.get("dirty"), Some(JsonValue::Bool(true))));
    assert_eq!(text_at(&created, "source_format"), Some("hwp"));
    assert!(created.get("path").is_none());
    assert!(matches!(created.get("metadata").unwrap().get("path"), Some(JsonValue::Null)));
    let shown = opened_session_json("rhwp-1", "/tmp/a.hwpx", FileFormat::Hwpx, JsonValue::Null, JsonValue::Null);
    assert!(matches!(shown.get("metadata"), Some(JsonValue::Null)));
    let fresh = new_session_json("rhwp-2", FileFormat::Hwp, JsonValue::Null, true, JsonValue::Null);
    assert!(matches!(fresh.get("dirty"), Some(JsonValue::Bool(true))));
    let closed = closed_session_json("rhwp-1", false);
    assert!(matches!(closed.get("ok"), Some(JsonValue::Bool(true))));
    assert!(closed.get("path").is_none());
}

#[test]
fn guard_refuses_blank_and_parent_paths() {
    let g = FsGuard::new(s("/srv/root"));
    assert_eq!(g.join_root("  ").err(), Some(s("path must not be empty")));
    assert_eq!(g.join_root("a/../b").err(), Some(s("path must not contain '..' components")));
    assert_eq!(g.join_root("/srv/root/../x").err(), Some(s("path must not contain '..' components")));
    assert_eq!(g.join_root("a/b.hwp"), Ok(s("/srv/root/a/b.hwp")));
    assert_eq!(
        g.resolve_existing_file("a.hwp", Ok(s("/elsewhere/a.hwp")), true).err(),
        Some(s("path escapes RHWP_MCP_ROOT: /elsewhere/a.hwp"))
    );
    assert_eq!(g.resolve_existing_file("a.hwp", Ok(s("/srv/root/a.hwp")), true), Ok(s("/srv/root/a.hwp")));
    assert_eq!(g.resolve_target_file("d/a.hwp", Ok(s("/srv/root/d"))), Ok(s("/srv/root/d/a.hwp")));
}

#[test]
fn sessions_keep_their_ids() {
    let mut manager: SessionManager<u8> = SessionManager::new();
    manager.new_core_session(1, FileFormat::Hwp, false, JsonValue::Null, 1);
    manager.new_core_session(2, FileFormat::Hwpx, false, JsonValue::Null, 1);
    assert_eq!(manager.get("rhwp-2").unwrap().id, "rhwp-2");
    assert_eq!(manager.get_mut("rhwp-1").unwrap().id, "rhwp-1");
}
