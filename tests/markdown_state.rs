use chrome_cookie::{MarkdownEventProcessor, MdEvent, Rendered, TableState};

fn html_of(r: Rendered) -> String {
    match r {
        Rendered::Html(s) => s,
        Rendered::Text(s) => panic!("expected html, got text {:?}", s),
    }
}

fn text_of(r: Rendered) -> String {
    match r {
        Rendered::Text(s) => s,
        Rendered::Html(s) => panic!("expected text, got html {:?}", s),
    }
}

#[test]
fn new_processor_is_idle() {
    let p = MarkdownEventProcessor::new();
    assert!(!p.in_code_block());
    assert!(!p.in_table_head());
    assert!(!p.is_collecting_image());
    assert!(!p.is_collecting_table());
}

#[test]
fn inline_and_display_math() {
    let p = MarkdownEventProcessor::new();
    assert_eq!(
        html_of(p.process_inline_math("a\n+\rb")),
        "<img eeimg=\"1\" src=\"//www.zhihu.com/equation?tex=a+b\" alt=\"a+b\"/>"
    );
    assert_eq!(
        html_of(p.process_display_math("x^2\n")),
        "<img eeimg=\"1\" src=\"//www.zhihu.com/equation?tex=x^2\\\\\" alt=\"x^2\\\\\"/>"
    );
}

#[test]
fn image_is_collected_with_caption() {
    let mut p = MarkdownEventProcessor::new();
    assert_eq!(text_of(p.process_image_start("a.png")), "");
    assert!(p.is_collecting_image());
    p.process_image_alt_text("cap");
    p.process_image_alt_text("tion");
    assert_eq!(
        html_of(p.process_image_end()),
        "<img src=\"a.png\" data-caption=\"caption\" data-size=\"normal\" data-watermark=\"watermark\" data-original-src=\"a.png\" data-watermark-src=\"\" data-private-watermark-src=\"\" />"
    );
    assert!(!p.is_collecting_image());
}

#[test]
fn code_blocks_and_breaks() {
    let mut p = MarkdownEventProcessor::new();
    assert_eq!(html_of(p.process_code_block_start(Some("  rust \n"))), "<pre lang=\"rust\">");
    assert!(p.in_code_block());
    assert_eq!(text_of(p.process_soft_break(true)), "\n");
    assert_eq!(text_of(p.process_text("a\nb", true)), "a\nb");
    assert_eq!(html_of(p.process_code_block_end()), "</pre>");
    assert!(!p.in_code_block());
    assert_eq!(html_of(p.process_code_block_start(None)), "<pre lang=\"\">");
    assert_eq!(text_of(p.process_soft_break(false)), " ");
    assert_eq!(html_of(p.process_text("a\nb\n", false)), "a b ");
}

#[test]
fn table_rendering() {
    let p = MarkdownEventProcessor::new();
    let html = html_of(p.process_table(vec!["A", "B"], vec![vec!["1", "2"], vec!["3"]]));
    assert_eq!(
        html,
        "<table data-draft-node=\"block\" data-draft-type=\"table\" data-size=\"normal\"><tbody><tr><th>A</th><th>B</th></tr><tr><td>1</td><td>2</td></tr><tr><td>3</td></tr></tbody></table>"
    );
    let empty = html_of(p.process_table(vec![], vec![]));
    assert_eq!(
        empty,
        "<table data-draft-node=\"block\" data-draft-type=\"table\" data-size=\"normal\"><tbody></tbody></table>"
    );
}

#[test]
fn table_state_collects_cells() {
    let mut t = TableState::default();
    t.start_collecting();
    t.in_head = true;
    t.add_cell_content("H");
    t.add_cell_content("1");
    t.finish_cell();
    t.finish_row();
    t.in_head = false;
    t.add_cell_content("c");
    t.finish_cell();
    t.finish_row();
    t.finish_row();
    assert_eq!(t.get_headers_refs(), vec!["H1"]);
    assert_eq!(t.get_rows_refs(), vec![vec!["c"]]);
    t.reset();
    assert!(t.headers.is_empty() && t.rows.is_empty() && !t.collecting);
}

#[test]
fn events_drive_a_table() {
    let mut p = MarkdownEventProcessor::new();
    let events = vec![
        MdEvent::TableStart,
        MdEvent::TableHeadStart,
        MdEvent::TableCellStart,
        MdEvent::Text("Name".to_string()),
        MdEvent::TableCellEnd,
        MdEvent::TableHeadEnd,
        MdEvent::TableRowStart,
        MdEvent::TableCellStart,
        MdEvent::Text("x".to_string()),
        MdEvent::TableCellEnd,
        MdEvent::TableRowEnd,
    ];
    for e in events {
        assert_eq!(text_of(p.process_event(e).unwrap()), "");
    }
    let out = html_of(p.process_event(MdEvent::TableEnd).unwrap());
    assert_eq!(
        out,
        "<table data-draft-node=\"block\" data-draft-type=\"table\" data-size=\"normal\"><tbody><tr><th>Name</th></tr><tr><td>x</td></tr></tbody></table>"
    );
    assert!(!p.is_collecting_table());
}

#[test]
fn events_text_and_pass_through() {
    let mut p = MarkdownEventProcessor::new();
    assert!(p.process_event(MdEvent::Other).is_none());
    assert_eq!(html_of(p.process_event(MdEvent::Text("a\nb".to_string())).unwrap()), "a b");
    p.process_event(MdEvent::ImageStart("u".to_string()));
    assert_eq!(text_of(p.process_event(MdEvent::Text("alt".to_string())).unwrap()), "");
    let img = html_of(p.process_event(MdEvent::ImageEnd).unwrap());
    assert!(img.starts_with("<img src=\"u\" data-caption=\"alt\""));
    assert_eq!(
        html_of(p.process_event(MdEvent::InlineMath("x".to_string())).unwrap()),
        "<img eeimg=\"1\" src=\"//www.zhihu.com/equation?tex=x\" alt=\"x\"/>"
    );
}
