use mdview::args::{resolve_document_path, send_markdown_path};
use mdview::lifecycle::{Action, Sequencer, FILE_PATH_EVENT};
use mdview::render::{convert, open_markdown, render, ExtensionConfig, RenderError};

fn strings(items: &[&str]) -> Vec<String> {
    items.iter().map(|s| s.to_string()).collect()
}

fn plain() -> ExtensionConfig {
    ExtensionConfig {
        strikethrough: false,
        table: false,
        autolink: false,
        tasklist: false,
        superscript: false,
        footnotes: false,
        description_lists: false,
    }
}

#[test]
fn resolve_empty_args_is_absent() {
    assert_eq!(resolve_document_path(&strings(&[])), None);
}

#[test]
fn resolve_program_name_only_is_absent() {
    assert_eq!(resolve_document_path(&strings(&["prog"])), None);
}

#[test]
fn resolve_takes_first_positional_argument() {
    assert_eq!(
        resolve_document_path(&strings(&["prog", "a.md"])),
        Some("a.md".to_string())
    );
}

#[test]
fn resolve_ignores_extra_arguments() {
    assert_eq!(
        resolve_document_path(&strings(&["prog", "a.md", "b.md", "--flag"])),
        Some("a.md".to_string())
    );
}

#[test]
fn send_markdown_path_without_argument() {
    assert_eq!(
        send_markdown_path(&strings(&["prog"])),
        Err("Markdown file path not provided.".to_string())
    );
    assert_eq!(
        send_markdown_path(&strings(&[])),
        Err("Markdown file path not provided.".to_string())
    );
}

#[test]
fn send_markdown_path_with_argument() {
    assert_eq!(
        send_markdown_path(&strings(&["prog", "notes/readme.md"])),
        Ok("notes/readme.md".to_string())
    );
}

#[test]
fn viewer_config_enables_all_extensions() {
    let c = ExtensionConfig::viewer();
    assert!(c.strikethrough && c.table && c.autolink && c.tasklist);
    assert!(c.superscript && c.footnotes && c.description_lists);
}

#[test]
fn strikethrough_renders_del() {
    assert_eq!(
        convert("~~a~~", ExtensionConfig::viewer()),
        "<p><del>a</del></p>\n"
    );
}

#[test]
fn strikethrough_off_in_plain_grammar() {
    let html = convert("~~a~~", plain());
    assert!(!html.contains("<del>"));
    assert_eq!(html, "<p>~~a~~</p>\n");
}

#[test]
fn tasklist_renders_disabled_checkbox() {
    assert_eq!(
        convert("- [ ] task", ExtensionConfig::viewer()),
        "<ul>\n<li><input type=\"checkbox\" disabled=\"\" /> task</li>\n</ul>\n"
    );
}

#[test]
fn bare_url_becomes_anchor() {
    assert_eq!(
        convert("https://example.com", ExtensionConfig::viewer()),
        "<p><a href=\"https://example.com\">https://example.com</a></p>\n"
    );
}

#[test]
fn table_block_renders_table() {
    assert_eq!(
        convert("| a | b |\n|---|---|\n| c | d |\n", ExtensionConfig::viewer()),
        "<table>\n<thead>\n<tr>\n<th>a</th>\n<th>b</th>\n</tr>\n</thead>\n\
         <tbody>\n<tr>\n<td>c</td>\n<td>d</td>\n</tr>\n</tbody>\n</table>\n"
    );
}

#[test]
fn superscript_renders_sup() {
    assert_eq!(
        convert("e = mc^2^.\n", ExtensionConfig::viewer()),
        "<p>e = mc<sup>2</sup>.</p>\n"
    );
}

#[test]
fn description_list_renders_dl() {
    assert_eq!(
        convert("Term\n\n: Definition", ExtensionConfig::viewer()),
        "<dl>\n<dt>Term</dt>\n<dd>\n<p>Definition</p>\n</dd>\n</dl>\n"
    );
}

#[test]
fn footnote_renders_reference_and_section() {
    let html = convert("Hi[^x].\n\n[^x]: A greeting.\n", ExtensionConfig::viewer());
    assert!(html.contains("<sup class=\"footnote-ref\"><a href=\"#fn-x\""));
    assert!(html.contains("<section class=\"footnotes\" data-footnotes>"));
}

#[test]
fn conversion_is_deterministic() {
    let text = "# Title\n\n* [x] done\n\n| a |\n|---|\n| 1 |\n";
    let first = convert(text, ExtensionConfig::viewer());
    let second = convert(text, ExtensionConfig::viewer());
    assert_eq!(first, second);
    assert_eq!(
        open_markdown(Ok(text.to_string())),
        open_markdown(Ok(text.to_string()))
    );
}

#[test]
fn empty_document_renders_empty_fragment() {
    assert_eq!(convert("", ExtensionConfig::viewer()), "");
}

#[test]
fn open_markdown_renders_loaded_text() {
    assert_eq!(
        open_markdown(Ok("# Hello".to_string())),
        Ok("<h1>Hello</h1>\n".to_string())
    );
}

#[test]
fn open_markdown_relays_load_error_verbatim() {
    let message = "No such file or directory (os error 2)".to_string();
    assert_eq!(open_markdown(Err(message.clone())), Err(message));
}

#[test]
fn render_failed_load_is_io_error() {
    match render(Err("missing".to_string()), ExtensionConfig::viewer()) {
        Err(RenderError::IO(m)) => assert_eq!(m, "missing"),
        Ok(_) => panic!("a failed load rendered a fragment"),
    }
    let e = RenderError::IO("unreadable".to_string());
    assert_eq!(e.message(), "unreadable");
}

#[test]
fn independent_requests_do_not_mix() {
    let a = open_markdown(Ok("~~a~~".to_string()));
    let b = open_markdown(Ok("https://example.com".to_string()));
    let a_again = open_markdown(Ok("~~a~~".to_string()));
    assert_eq!(a, Ok("<p><del>a</del></p>\n".to_string()));
    assert_eq!(
        b,
        Ok("<p><a href=\"https://example.com\">https://example.com</a></p>\n".to_string())
    );
    assert_eq!(a, a_again);
}

fn is_corrective_sequence(actions: &[Action]) -> bool {
    actions.len() == 7
        && matches!(actions[0], Action::ApplyMaterialEffect)
        && matches!(actions[1], Action::Minimize)
        && matches!(actions[2], Action::Unminimize)
        && matches!(actions[3], Action::Maximize)
        && matches!(actions[4], Action::Unmaximize)
        && matches!(actions[5], Action::Show)
        && matches!(actions[6], Action::SetFocus)
}

#[test]
fn ready_emits_file_path_once_then_nothing() {
    let mut s = Sequencer::from_args(&strings(&["prog", "a.md"]));
    assert!(!s.is_ready());
    let first = s.on_ready();
    assert!(s.is_ready());
    assert_eq!(first.len(), 8);
    match &first[0] {
        Action::EmitFilePath(p) => assert_eq!(p, "a.md"),
        _ => panic!("the file-path event does not come first"),
    }
    assert!(is_corrective_sequence(&first[1..]));
    assert!(s.on_ready().is_empty());
    assert!(s.on_ready().is_empty());
    assert_eq!(s.startup_path(), Some("a.md".to_string()));
}

#[test]
fn ready_without_path_emits_no_event() {
    let mut s = Sequencer::new(None);
    let first = s.on_ready();
    assert!(is_corrective_sequence(&first));
    assert!(first
        .iter()
        .all(|a| !matches!(a, Action::EmitFilePath(_))));
    assert!(s.on_ready().is_empty());
}

#[test]
fn file_path_event_name() {
    assert_eq!(FILE_PATH_EVENT, "file_path");
}
