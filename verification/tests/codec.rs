use settings_manager::ini::{parse_ini_file, generate_ini_file, flatten_for_presets, unflatten};

fn section<'a>(
    doc: &'a [(String, Vec<(String, String)>)],
    name: &str,
) -> &'a Vec<(String, String)> {
    &doc.iter().find(|(s, _)| s == name).expect("section").1
}

fn value<'a>(entries: &'a [(String, String)], key: &str) -> &'a str {
    &entries.iter().find(|(k, _)| k == key).expect("key").1
}

#[test]
fn parses_sections_keys_and_values() {
    let text = "[SystemSettings]\nr.VSync=0\nr.Streaming.PoolSize = 4096\n\n[RenderingThread]\nbAllowThreadedRendering=True\n";
    let doc = parse_ini_file(text);
    assert_eq!(doc.len(), 2);
    let sys = section(&doc, "SystemSettings");
    assert_eq!(value(sys, "r.VSync"), "0");
    assert_eq!(value(sys, "r.Streaming.PoolSize"), "4096");
    let rt = section(&doc, "RenderingThread");
    assert_eq!(value(rt, "bAllowThreadedRendering"), "True");
}

#[test]
fn skips_comments_blank_lines_and_junk() {
    let text = "; a comment\n# another\n\n[A]\nnot an assignment\nk=v\n";
    let doc = parse_ini_file(text);
    assert_eq!(doc.len(), 1);
    assert_eq!(section(&doc, "A").len(), 1);
    assert_eq!(value(section(&doc, "A"), "k"), "v");
}

#[test]
fn drops_sections_without_entries() {
    let text = "[Empty]\n[Full]\nk=v\n";
    let doc = parse_ini_file(text);
    assert_eq!(doc.len(), 1);
    assert_eq!(doc[0].0, "Full");
}

#[test]
fn drops_entries_before_any_section() {
    let text = "orphan=1\n[A]\nk=v\n";
    let doc = parse_ini_file(text);
    assert_eq!(doc.len(), 1);
    assert_eq!(section(&doc, "A").len(), 1);
}

#[test]
fn trims_whitespace_around_names_keys_and_values() {
    let text = "[ Padded ]\n  key  =  value with spaces  \n";
    let doc = parse_ini_file(text);
    assert_eq!(doc[0].0, "Padded");
    assert_eq!(value(&doc[0].1, "key"), "value with spaces");
}

#[test]
fn later_duplicate_key_wins() {
    let text = "[A]\nk=1\nk=2\n";
    let doc = parse_ini_file(text);
    assert_eq!(section(&doc, "A").len(), 1);
    assert_eq!(value(section(&doc, "A"), "k"), "2");
}

#[test]
fn malformed_text_yields_what_parses() {
    let doc = parse_ini_file("garbage [ not a header\n=\n[][]\n");
    assert!(doc.is_empty());
}

#[test]
fn generates_headers_lines_and_separators() {
    let doc = vec![
        (
            "SystemSettings".to_string(),
            vec![("r.VSync".to_string(), "0".to_string())],
        ),
        (
            "RenderingThread".to_string(),
            vec![("bAllowThreadedRendering".to_string(), "True".to_string())],
        ),
    ];
    let text = generate_ini_file(&doc);
    assert_eq!(
        text,
        "[SystemSettings]\nr.VSync=0\n\n[RenderingThread]\nbAllowThreadedRendering=True\n\n"
    );
}

#[test]
fn parse_of_generated_text_gives_the_table_back() {
    let doc = vec![
        (
            "SystemSettings".to_string(),
            vec![
                ("r.VSync".to_string(), "0".to_string()),
                ("r.Streaming.PoolSize".to_string(), "4096".to_string()),
            ],
        ),
        (
            "RenderingThread".to_string(),
            vec![("bAllowThreadedRendering".to_string(), "True".to_string())],
        ),
    ];
    let reparsed = parse_ini_file(&generate_ini_file(&doc));
    assert_eq!(reparsed, doc);
}

#[test]
fn flatten_joins_section_and_key_with_a_dot() {
    let doc = vec![(
        "RenderingThread".to_string(),
        vec![("bAllowThreadedRendering".to_string(), "True".to_string())],
    )];
    let flat = flatten_for_presets(&doc);
    assert_eq!(
        flat,
        vec![(
            "RenderingThread.bAllowThreadedRendering".to_string(),
            "True".to_string()
        )]
    );
}

#[test]
fn unflatten_of_flatten_is_identity_on_single_dot_keys() {
    let doc = vec![
        (
            "SystemSettings".to_string(),
            vec![
                ("vsync".to_string(), "0".to_string()),
                ("pool".to_string(), "4096".to_string()),
            ],
        ),
        (
            "RenderingThread".to_string(),
            vec![("threaded".to_string(), "True".to_string())],
        ),
    ];
    let back = unflatten(&flatten_for_presets(&doc));
    assert_eq!(back, doc);
}

#[test]
fn unflatten_drops_keys_without_exactly_one_dot() {
    let pairs = vec![
        ("nodot".to_string(), "1".to_string()),
        ("a.b.c".to_string(), "2".to_string()),
        ("Sec.key".to_string(), "3".to_string()),
    ];
    let doc = unflatten(&pairs);
    assert_eq!(doc.len(), 1);
    assert_eq!(doc[0].0, "Sec");
    assert_eq!(value(&doc[0].1, "key"), "3");
}

#[test]
fn carriage_returns_are_trimmed() {
    let text = "[A]\r\nk=v\r\n";
    let doc = parse_ini_file(text);
    assert_eq!(doc.len(), 1);
    assert_eq!(doc[0].0, "A");
    assert_eq!(value(&doc[0].1, "k"), "v");
}
