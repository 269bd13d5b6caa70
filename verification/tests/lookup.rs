use dictionary::display::{
    generate_word_result_html, generate_word_tags, render_definitions, render_serialized,
};
use dictionary::lookup::{
    generate_query_result, IndexRequest, LookupError, RenderOutcome, Search, StorageReply,
    StorageRequest,
};
use dictionary::models::{DecodeError, Definition, Word};
use dictionary::templates;

fn word(id: i32, text: &str) -> Word {
    Word { id, word: text.to_string() }
}

fn record(id: i32, word_id: i32, header: &str, body: &str) -> Definition {
    Definition {
        id,
        word_id,
        definition: body.to_string(),
        definition_header: header.to_string(),
    }
}

struct Store {
    words: Vec<(i32, &'static str)>,
    definitions: Vec<(i32, i32, &'static str, &'static str)>,
}

impl Store {
    fn answer(&self, request: StorageRequest) -> StorageReply {
        match request {
            StorageRequest::FindEntryByExactWord(wanted) => StorageReply::Entry(
                self.words.iter().find(|(_, w)| *w == wanted).map(|(id, w)| word(*id, w)),
            ),
            StorageRequest::FindDefinitionsByEntryId(entry) => StorageReply::Definitions(
                self.definitions
                    .iter()
                    .filter(|(_, word_id, _, _)| *word_id == entry)
                    .map(|(id, word_id, header, body)| record(*id, *word_id, header, body))
                    .collect(),
            ),
        }
    }

    fn search(&self, raw: &str) -> RenderOutcome {
        let mut search = Search::start(raw);
        loop {
            match search.request() {
                Some(request) => search = search.resume(self.answer(request)),
                None => match search {
                    Search::Finished(outcome) => return outcome,
                    other => panic!("{:?}", other),
                },
            }
        }
    }
}

fn store() -> Store {
    Store {
        words: vec![(1, "ephemeral"), (2, "cat"), (3, "bare"), (4, "broken"), (5, "untargeted"), (6, "Cat")],
        definitions: vec![
            (10, 1, "adjective", r#"["Lasting for a very short time."]"#),
            (20, 2, "noun", r#"["A small ",{"type":"i","children":["feline"]},"."]"#),
            (21, 2, "<b>verb</b>", r#"["See ",{"type":"label-onclick","to":"lookupWord1('dog')","children":["dog"]}]"#),
            (22, 2, "", "[]"),
            (40, 4, "first", r#"["fine"]"#),
            (41, 4, "second", r#"["not closed""#),
            (42, 4, "third", r#"[7]"#),
            (50, 5, "only", r#"[{"type":"label-onclick","children":["x"]}]"#),
            (60, 6, "never", r#"["reached"]"#),
        ],
    }
}

fn shown(list: &[templates::Definition]) -> Vec<(String, String)> {
    list.iter().map(|d| (d.definition_header.clone(), d.definition_body.clone())).collect()
}

fn pair(header: &str, body: &str) -> (String, String) {
    (header.to_string(), body.to_string())
}

#[test]
fn search_asks_for_the_entry_then_for_its_definitions() {
    let search = Search::start(" Cat ");
    assert!(matches!(&search, Search::AwaitingEntry { query } if query == "cat"));
    assert!(matches!(search.request(), Some(StorageRequest::FindEntryByExactWord(w)) if w == "cat"));
    let search = search.resume(StorageReply::Entry(Some(word(2, "cat"))));
    assert!(matches!(&search, Search::AwaitingDefinitions { query, entry } if query == "cat" && entry.id == 2));
    assert!(matches!(search.request(), Some(StorageRequest::FindDefinitionsByEntryId(2))));
    let search = search.resume(StorageReply::Definitions(vec![record(20, 2, "noun", r#"["x"]"#)]));
    assert!(matches!(&search, Search::Finished(RenderOutcome::Results(..))));
    assert!(search.request().is_none());
}

#[test]
fn found_word_shows_its_definitions_in_storage_order() {
    match store().search("cat") {
        RenderOutcome::Results(list, title) => {
            assert_eq!(title, "cat");
            assert_eq!(
                shown(&list),
                vec![
                    pair("noun", "A small <i>feline</i>."),
                    pair("<b>verb</b>", r#"See <a href="?q=dog">dog</a>"#),
                    pair("", ""),
                ]
            );
        }
        other => panic!("{:?}", other),
    }
}

#[test]
fn terms_with_one_normal_form_find_the_same_entry() {
    for raw in ["  Ephemeral  ", "ephemeral", "EPHEMERAL", "\tephemeral\n"] {
        assert!(
            matches!(Search::start(raw).request(), Some(StorageRequest::FindEntryByExactWord(w)) if w == "ephemeral"),
            "{raw:?}"
        );
        match store().search(raw) {
            RenderOutcome::Results(list, title) => {
                assert_eq!(title, "ephemeral");
                assert_eq!(shown(&list), vec![pair("adjective", "Lasting for a very short time.")]);
            }
            other => panic!("{:?}", other),
        }
    }
}

#[test]
fn blank_term_is_an_empty_query() {
    for raw in ["", "   ", "\t\n"] {
        let search = Search::start(raw);
        assert!(matches!(&search, Search::Finished(RenderOutcome::EmptyQuery)));
        assert!(search.request().is_none());
        assert!(matches!(store().search(raw), RenderOutcome::EmptyQuery));
        assert!(matches!(store().search(raw).into_result(), Err(LookupError::EmptyQuery)));
    }
}

#[test]
fn missing_word_is_not_found_under_its_normal_form() {
    assert!(matches!(store().search("  Zebra "), RenderOutcome::NotFound(q) if q == "zebra"));
    assert!(matches!(store().search("zebra").into_result(), Err(LookupError::WordNotFound)));
    assert!(matches!(store().search("ca"), RenderOutcome::NotFound(q) if q == "ca"));
    assert!(matches!(store().search("cats"), RenderOutcome::NotFound(q) if q == "cats"));
}

#[test]
fn entry_without_definitions_is_like_a_missing_entry() {
    let bare = store().search("Bare");
    let missing = Store { words: vec![], definitions: vec![] }.search("Bare");
    assert!(matches!(&bare, RenderOutcome::NotFound(q) if q == "bare"));
    assert!(matches!(&missing, RenderOutcome::NotFound(q) if q == "bare"));
    assert_eq!(format!("{:?}", bare), format!("{:?}", missing));
    assert!(matches!(bare.into_result(), Err(LookupError::WordNotFound)));
    assert!(matches!(missing.into_result(), Err(LookupError::WordNotFound)));
}

#[test]
fn one_corrupt_body_fails_the_whole_lookup() {
    assert!(matches!(store().search("broken"), RenderOutcome::Corrupt(41)));
    assert!(matches!(store().search("broken").into_result(), Err(LookupError::CorruptData(41))));
}

#[test]
fn missing_target_counts_as_corrupt() {
    assert!(matches!(store().search("untargeted"), RenderOutcome::Corrupt(50)));
}

#[test]
fn first_corrupt_definition_is_the_one_reported() {
    let records = vec![
        record(1, 9, "a", r#"["ok"]"#),
        record(2, 9, "b", r#"{"not":"an array"}"#),
        record(3, 9, "c", "nonsense"),
    ];
    assert!(matches!(render_definitions(&records), Err(LookupError::CorruptData(2))));
    let records = vec![record(7, 9, "a", ""), record(8, 9, "b", r#"["ok"]"#)];
    assert!(matches!(render_definitions(&records), Err(LookupError::CorruptData(7))));
    let records = vec![record(8, 9, "b", r#"["ok"]"#), record(i32::MIN, 9, "a", "[")];
    assert!(matches!(render_definitions(&records), Err(LookupError::CorruptData(i32::MIN))));
}

#[test]
fn no_definitions_is_not_found() {
    assert!(matches!(render_definitions(&vec![]), Err(LookupError::WordNotFound)));
}

#[test]
fn definitions_go_on_display_with_their_headers() {
    let records = vec![
        record(1, 9, "noun", r#"["x",{"type":"sup","children":["2"]}]"#),
        record(2, 9, "verb & more", r#"[{"type":"br","children":[]}]"#),
    ];
    let list = render_definitions(&records).unwrap();
    assert_eq!(shown(&list), vec![pair("noun", "x<sup>2</sup>"), pair("verb & more", "<br>")]);
}

#[test]
fn serialized_body_renders_or_says_why_not() {
    assert_eq!(render_serialized(r#"["hello world"]"#), Ok("hello world".to_string()));
    assert_eq!(render_serialized("oops"), Err(DecodeError::Malformed));
    assert_eq!(
        render_serialized(r#"[{"type":"label-onclick","children":[]}]"#),
        Err(DecodeError::MissingTarget)
    );
}

#[test]
fn unexpected_reply_changes_nothing() {
    let search = Search::start("cat").resume(StorageReply::Definitions(vec![record(1, 2, "h", "[]")]));
    assert!(matches!(&search, Search::AwaitingEntry { query } if query == "cat"));
    let search = search
        .resume(StorageReply::Entry(Some(word(2, "cat"))))
        .resume(StorageReply::Entry(None));
    assert!(matches!(&search, Search::AwaitingDefinitions { query, entry } if query == "cat" && entry.id == 2 && entry.word == "cat"));
    let search = search.resume(StorageReply::Definitions(vec![]));
    assert!(matches!(&search, Search::Finished(RenderOutcome::NotFound(q)) if q == "cat"));
    let search = search
        .resume(StorageReply::Entry(Some(word(2, "cat"))))
        .resume(StorageReply::Definitions(vec![record(1, 2, "h", "[]")]));
    assert!(matches!(&search, Search::Finished(RenderOutcome::NotFound(q)) if q == "cat"));
}

#[test]
fn title_is_the_word_of_the_entry() {
    let search = Search::start("x")
        .resume(StorageReply::Entry(Some(word(3, "Stored Form"))))
        .resume(StorageReply::Definitions(vec![record(1, 3, "h", r#"["b"]"#)]));
    match search {
        Search::Finished(RenderOutcome::Results(list, title)) => {
            assert_eq!(title, "Stored Form");
            assert_eq!(shown(&list), vec![pair("h", "b")]);
        }
        other => panic!("{:?}", other),
    }
}

#[test]
fn normalized_term_starts_a_search_as_it_is() {
    assert!(matches!(
        generate_query_result(&"cat".to_string()),
        Search::AwaitingEntry { query } if query == "cat"
    ));
    assert!(matches!(
        generate_query_result(&" Cat".to_string()),
        Search::AwaitingEntry { query } if query == " Cat"
    ));
    assert!(matches!(
        generate_query_result(&String::new()),
        Search::Finished(RenderOutcome::EmptyQuery)
    ));
}

#[test]
fn index_request_searches_for_its_term() {
    let request = IndexRequest { q: Some("  Cat ".to_string()) };
    assert!(matches!(request.search(), Search::AwaitingEntry { query } if query == "cat"));
    let request = IndexRequest { q: Some("  ".to_string()) };
    assert!(matches!(request.search(), Search::Finished(RenderOutcome::EmptyQuery)));
    let request = IndexRequest { q: None };
    assert!(matches!(request.search(), Search::Finished(RenderOutcome::EmptyQuery)));
}

#[test]
fn result_block_has_title_and_definitions() {
    let entry = word(2, "cat");
    let block = generate_word_result_html(&entry, &vec![record(20, 2, "noun", r#"["x"]"#)]).unwrap();
    assert_eq!(block.title, "cat");
    assert_eq!(shown(&block.definitions), vec![pair("noun", "x")]);
    assert!(matches!(
        generate_word_result_html(&entry, &vec![]),
        Err(LookupError::WordNotFound)
    ));
    assert!(matches!(
        generate_word_result_html(&entry, &vec![record(20, 2, "noun", "x")]),
        Err(LookupError::CorruptData(20))
    ));
}

#[test]
fn each_word_gets_its_tag() {
    let words = vec!["one".to_string(), "two".to_string(), "one".to_string()];
    let tags = generate_word_tags(&words, "synonym");
    let held: Vec<&str> = tags.iter().map(|t| t.word.as_str()).collect();
    assert_eq!(held, vec!["one", "two", "one"]);
    assert!(generate_word_tags(&[], "synonym").is_empty());
}

#[test]
fn template_values_hold_what_they_are_made_of() {
    let definition = templates::Definition::new("h".to_string(), "<i>b</i>".to_string());
    assert_eq!(definition.definition_header, "h");
    assert_eq!(definition.definition_body, "<i>b</i>");
    let title = "cat".to_string();
    let block = templates::WordResult::new(&title, vec![definition]);
    assert_eq!(block.title, "cat");
    assert_eq!(block.definitions.len(), 1);
    assert_eq!(templates::WordTag::new(&title).word, "cat");
    assert_eq!(templates::Error::new(&title).search_word, "cat");
    assert_eq!(templates::Index::new("<p>r</p>".to_string()).query_result, "<p>r</p>");
    let links = templates::QuickLinks::new(vec![("eloquent", "Eloquent"), ("cat", "Cat")]);
    assert_eq!(links.links, vec![("eloquent", "Eloquent"), ("cat", "Cat")]);
}
