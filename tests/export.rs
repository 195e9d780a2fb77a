use contentful_export::{
    date_prefix, get_category, get_date, get_field, get_lookup_by_content_type_id, get_post,
    get_posts, get_tags, output_path, parse_date, render_document, resolve_tags, run,
    CalendarDate, Config, Entry, ExportError, Field, FieldValue, Lookup,
};

fn config() -> Config {
    Config {
        locale: "en-US".to_string(),
        tag_type: "tag".to_string(),
        category_type: "category".to_string(),
        post_type: "post".to_string(),
    }
}

fn text(key: &str, value: &str) -> Field {
    Field {
        key: key.to_string(),
        locale: "en-US".to_string(),
        value: FieldValue::Text(value.to_string()),
    }
}

fn link(key: &str, id: &str) -> Field {
    Field {
        key: key.to_string(),
        locale: "en-US".to_string(),
        value: FieldValue::Link(id.to_string()),
    }
}

fn links(key: &str, ids: &[&str]) -> Field {
    Field {
        key: key.to_string(),
        locale: "en-US".to_string(),
        value: FieldValue::Links(ids.iter().map(|s| s.to_string()).collect()),
    }
}

fn entry(id: &str, content_type: &str, fields: Vec<Field>) -> Entry {
    Entry { id: id.to_string(), content_type: content_type.to_string(), fields }
}

fn named(id: &str, content_type: &str, title: &str) -> Entry {
    entry(id, content_type, vec![text("title", title)])
}

fn post(id: &str, slug: &str, date: &str, tags: &[&str]) -> Entry {
    entry(
        id,
        "post",
        vec![
            text("title", "Hello"),
            text("slug", slug),
            text("date", date),
            text("body", "World"),
            link("category", "c1"),
            links("tags", tags),
        ],
    )
}

fn lookup(pairs: &[(&str, &str)]) -> Lookup {
    let mut l = Lookup::new();
    for (k, v) in pairs {
        l.insert(k.to_string(), v.to_string());
    }
    l
}

fn strings(v: &[&str]) -> Vec<String> {
    v.iter().map(|s| s.to_string()).collect()
}

fn missing(entry: &str, field: &str) -> ExportError {
    ExportError::MissingField { entry: entry.to_string(), field: field.to_string() }
}

fn sample_export() -> Vec<Entry> {
    vec![
        named("t1", "tag", "Rust"),
        named("c1", "category", "Tech"),
        post("p1", "hello", "2022-01-01T00:00:00Z", &["t1", "t2"]),
    ]
}

fn yaml_header(meta: &contentful_export::Frontmatter) -> String {
    let mut m = serde_yaml::Mapping::new();
    let date = format!("{:04}-{:02}-{:02}", meta.date.year, meta.date.month, meta.date.day);
    m.insert("date".into(), date.into());
    m.insert("title".into(), meta.title.clone().into());
    m.insert("slug".into(), meta.slug.clone().into());
    let category = match &meta.category {
        Some(c) => serde_yaml::Value::String(c.clone()),
        None => serde_yaml::Value::Null,
    };
    m.insert("category".into(), category);
    let tags: Vec<serde_yaml::Value> = meta.tags.iter().map(|t| t.clone().into()).collect();
    m.insert("tags".into(), serde_yaml::Value::Sequence(tags));
    serde_yaml::to_string(&m).unwrap()
}

#[test]
fn one_record_per_primary_entry() {
    let entries = vec![
        named("t1", "tag", "Rust"),
        post("p1", "one", "2022-01-01", &[]),
        named("c1", "category", "Tech"),
        post("p2", "two", "2022-01-02", &[]),
        named("x", "other", "Other"),
    ];
    let posts = run(&entries, &config()).unwrap();
    assert_eq!(posts.len(), 2);
    assert_eq!(posts[0].0, "p1");
    assert_eq!(posts[0].1.meta.slug, "one");
    assert_eq!(posts[1].0, "p2");
    assert_eq!(posts[1].1.meta.slug, "two");
}

#[test]
fn no_primary_entries_give_no_records() {
    let entries = vec![named("t1", "tag", "Rust"), named("c1", "category", "Tech")];
    assert_eq!(run(&entries, &config()).unwrap().len(), 0);
    assert_eq!(run(&vec![], &config()).unwrap().len(), 0);
}

#[test]
fn content_type_match_is_exact() {
    let mut p = post("p1", "one", "2022-01-01", &[]);
    p.content_type = "Post".to_string();
    let entries = vec![named("c1", "category", "Tech"), p];
    assert_eq!(run(&entries, &config()).unwrap().len(), 0);
}

#[test]
fn tags_keep_order_and_drop_unresolved() {
    let l = lookup(&[("a", "Foo")]);
    assert_eq!(resolve_tags(&strings(&["x", "a", "y"]), &l), strings(&["Foo"]));
}

#[test]
fn tags_keep_duplicates_and_order() {
    let l = lookup(&[("a", "Foo"), ("b", "Bar")]);
    assert_eq!(
        resolve_tags(&strings(&["b", "a", "b", "z"]), &l),
        strings(&["Bar", "Foo", "Bar"])
    );
}

#[test]
fn absent_tags_field_gives_no_tags() {
    let e = entry("p", "post", vec![text("title", "T")]);
    assert_eq!(get_tags(&e, &lookup(&[("a", "Foo")]), &config().locale), Vec::<String>::new());
    let e = entry("p", "post", vec![text("tags", "a")]);
    assert_eq!(get_tags(&e, &lookup(&[("a", "Foo")]), &config().locale), Vec::<String>::new());
}

#[test]
fn tags_read_in_the_configured_locale() {
    let mut f = links("tags", &["a"]);
    f.locale = "de-DE".to_string();
    let e = entry("p", "post", vec![f, links("tags", &["b"])]);
    let l = lookup(&[("a", "Foo"), ("b", "Bar")]);
    assert_eq!(get_tags(&e, &l, &config().locale), strings(&["Bar"]));
}

#[test]
fn unresolved_category_is_absent() {
    let e = entry("p", "post", vec![link("category", "gone")]);
    let r = get_category(&e, &lookup(&[("c1", "Tech")]), &config().locale);
    assert_eq!(r, Ok(None));
}

#[test]
fn resolved_category_gives_its_name() {
    let e = entry("p", "post", vec![link("category", "c1")]);
    let r = get_category(&e, &lookup(&[("c1", "Tech")]), &config().locale);
    assert_eq!(r, Ok(Some("Tech".to_string())));
}

#[test]
fn missing_category_reference_is_an_error() {
    let e = entry("p", "post", vec![text("category", "c1")]);
    let r = get_category(&e, &lookup(&[("c1", "Tech")]), &config().locale);
    assert_eq!(r, Err(missing("p", "category")));
}

#[test]
fn date_with_time_keeps_the_calendar_date() {
    let d = parse_date("2021-03-05T10:00:00Z");
    assert_eq!(d, Some(CalendarDate { year: 2021, month: 3, day: 5 }));
}

#[test]
fn date_without_time_gives_the_same_date() {
    assert_eq!(parse_date("2021-03-05"), Some(CalendarDate { year: 2021, month: 3, day: 5 }));
}

#[test]
fn not_a_date_fails() {
    assert_eq!(parse_date("not-a-date"), None);
    let e = entry("p", "post", vec![text("date", "not-a-date")]);
    assert_eq!(
        get_date(&e, &config().locale),
        Err(ExportError::InvalidDate { entry: "p".to_string(), text: "not-a-date".to_string() })
    );
}

#[test]
fn impossible_calendar_date_fails() {
    assert_eq!(parse_date("2021-02-30"), None);
    assert_eq!(parse_date("2020-02-29"), Some(CalendarDate { year: 2020, month: 2, day: 29 }));
}

#[test]
fn missing_date_is_a_missing_field() {
    let e = entry("p", "post", vec![]);
    assert_eq!(get_date(&e, &config().locale), Err(missing("p", "date")));
}

#[test]
fn date_prefix_stops_at_the_first_t() {
    assert_eq!(date_prefix("2021-03-05T10:00:00Z"), "2021-03-05");
    assert_eq!(date_prefix("2021-03-05"), "2021-03-05");
    assert_eq!(date_prefix("aTbTc"), "a");
    assert_eq!(date_prefix("T"), "");
    assert_eq!(date_prefix(""), "");
}

#[test]
fn get_field_reads_strings_only() {
    let e = entry("p", "post", vec![text("title", "Hello"), link("slug", "x")]);
    let locale = config().locale;
    assert_eq!(get_field("title", &e, &locale), Ok("Hello".to_string()));
    assert_eq!(get_field("slug", &e, &locale), Err(missing("p", "slug")));
    assert_eq!(get_field("body", &e, &locale), Err(missing("p", "body")));
    assert_eq!(get_field("title", &e, &"fr-FR".to_string()), Err(missing("p", "title")));
}

#[test]
fn lookup_maps_ids_to_titles_of_one_kind() {
    let entries = vec![
        named("t1", "tag", "Rust"),
        named("c1", "category", "Tech"),
        named("t2", "tag", "Verus"),
    ];
    let l = get_lookup_by_content_type_id(&"tag".to_string(), &entries, &config().locale).unwrap();
    assert_eq!(l.get(&"t1".to_string()), Some("Rust".to_string()));
    assert_eq!(l.get(&"t2".to_string()), Some("Verus".to_string()));
    assert_eq!(l.get(&"c1".to_string()), None);
}

#[test]
fn lookup_later_entry_wins() {
    let entries = vec![named("t1", "tag", "Old"), named("t1", "tag", "New")];
    let l = get_lookup_by_content_type_id(&"tag".to_string(), &entries, &config().locale).unwrap();
    assert_eq!(l.get(&"t1".to_string()), Some("New".to_string()));
}

#[test]
fn lookup_entry_without_title_is_an_error() {
    let entries = vec![named("t1", "tag", "Rust"), entry("t2", "tag", vec![])];
    let r = get_lookup_by_content_type_id(&"tag".to_string(), &entries, &config().locale);
    assert_eq!(r.unwrap_err(), missing("t2", "title"));
    let r = get_lookup_by_content_type_id(&"category".to_string(), &entries, &config().locale);
    assert_eq!(r.unwrap().get(&"t2".to_string()), None);
}

#[test]
fn run_fails_on_untitled_category() {
    let entries = vec![named("t1", "tag", "Rust"), entry("c1", "category", vec![])];
    assert_eq!(run(&entries, &config()).unwrap_err(), missing("c1", "title"));
}

#[test]
fn missing_slug_aborts_the_run() {
    let mut p = post("p1", "hello", "2022-01-01", &[]);
    p.fields.retain(|f| f.key != "slug");
    let entries = vec![named("c1", "category", "Tech"), post("p0", "ok", "2022-01-01", &[]), p];
    assert_eq!(run(&entries, &config()).unwrap_err(), missing("p1", "slug"));
}

#[test]
fn first_failing_field_is_reported() {
    let e = entry("p", "post", vec![text("date", "2022-01-01")]);
    let l = Lookup::new();
    assert_eq!(get_post(&e, &l, &l, &config()).unwrap_err(), missing("p", "title"));
    let e = entry("p", "post", vec![text("date", "bad"), text("title", "T")]);
    assert_eq!(
        get_post(&e, &l, &l, &config()).unwrap_err(),
        ExportError::InvalidDate { entry: "p".to_string(), text: "bad".to_string() }
    );
    let mut e = post("p", "s", "2022-01-01", &[]);
    e.fields.retain(|f| f.key != "body");
    assert_eq!(get_post(&e, &l, &l, &config()).unwrap_err(), missing("p", "body"));
}

#[test]
fn get_posts_skips_other_kinds() {
    let entries = sample_export();
    let tags = lookup(&[("t1", "Rust")]);
    let cats = lookup(&[("c1", "Tech")]);
    let posts = get_posts(&"post".to_string(), &entries, &tags, &cats, &config()).unwrap();
    assert_eq!(posts.len(), 1);
    let posts = get_posts(&"tag".to_string(), &entries, &tags, &cats, &config()).unwrap_err();
    assert_eq!(posts, missing("t1", "date"));
}

#[test]
fn running_twice_gives_identical_documents() {
    let entries = sample_export();
    let a = run(&entries, &config()).unwrap();
    let b = run(&entries, &config()).unwrap();
    assert_eq!(a, b);
    let da = render_document(&yaml_header(&a[0].1.meta), &a[0].1.body);
    let db = render_document(&yaml_header(&b[0].1.meta), &b[0].1.body);
    assert_eq!(da, db);
}

#[test]
fn end_to_end_single_post() {
    let posts = run(&sample_export(), &config()).unwrap();
    assert_eq!(posts.len(), 1);
    let (id, p) = &posts[0];
    assert_eq!(id, "p1");
    assert_eq!(p.meta.date, CalendarDate { year: 2022, month: 1, day: 1 });
    assert_eq!(p.meta.title, "Hello");
    assert_eq!(p.meta.slug, "hello");
    assert_eq!(p.meta.category, Some("Tech".to_string()));
    assert_eq!(p.meta.tags, strings(&["Rust"]));
    assert_eq!(p.body, "World");
    assert_eq!(output_path("blog", &p.meta.slug), "blog/hello.md");
    let doc = render_document(&yaml_header(&p.meta), &p.body);
    assert_eq!(
        doc,
        "date: 2022-01-01\ntitle: Hello\nslug: hello\ncategory: Tech\ntags:\n- Rust\n---\n\nWorld"
    );
}

#[test]
fn render_document_frames_header_and_body() {
    assert_eq!(render_document("a: 1\n", "body\ntext"), "a: 1\n---\n\nbody\ntext");
    assert_eq!(render_document("", ""), "---\n\n");
}

#[test]
fn output_path_joins_dir_and_slug() {
    assert_eq!(output_path("out", &"my-post".to_string()), "out/my-post.md");
}
