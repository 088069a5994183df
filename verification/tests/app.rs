use url_shortener::adapters::short_url_provider::NanoUrlShortener;
use url_shortener::app::error::AppError;
use url_shortener::app::generate_url::GenerateShortUrlRepository;
use url_shortener::app::get_full_url::GetFullUrlRepository;
use url_shortener::app::App;
use url_shortener::storage::in_memory::InMemoryRepository;

#[test]
fn generate_short_get_full_url() {
    let url_provider = NanoUrlShortener;
    let repo = InMemoryRepository::new();
    let mut app = App::new(url_provider, repo);

    let full_url = "https://youtube.com".to_owned();
    let short_url = app.generate(&full_url).unwrap();
    let full_url_from_repo = app.resolve(&short_url).unwrap();
    assert_eq!(full_url, full_url_from_repo);
}

#[test]
fn generate_returns_resolvable_non_empty_identifier() {
    let mut app = App::new(NanoUrlShortener, InMemoryRepository::new());

    let s1 = app.generate("https://youtube.com").unwrap();

    assert!(!s1.is_empty());
    assert_eq!(app.resolve(&s1), Ok("https://youtube.com".to_owned()));
}

#[test]
fn two_generated_urls_resolve_each_to_their_own() {
    let mut app = App::new(NanoUrlShortener, InMemoryRepository::new());

    let s1 = app.generate("https://youtube.com").unwrap();
    let s2 = app.generate("https://google.com").unwrap();

    assert_ne!(s1, s2);
    assert_eq!(app.resolve(&s1), Ok("https://youtube.com".to_owned()));
    assert_eq!(app.resolve(&s2), Ok("https://google.com".to_owned()));
}

#[test]
fn resolve_unknown_identifier_has_no_side_effect() {
    let app = App::new(NanoUrlShortener, InMemoryRepository::new());

    assert_eq!(app.resolve("unknown-id"), Err(AppError::UrlNotFound));
    assert_eq!(app.resolve("unknown-id"), Err(AppError::UrlNotFound));
}

#[test]
fn failed_lookup_creates_no_entry() {
    let repo = InMemoryRepository::new();

    assert!(matches!(repo.get("unknown-id"), Err(_)));
    assert_eq!(repo.len(), 0);
}

#[test]
fn overwriting_an_identifier_keeps_the_count() {
    let mut repo = InMemoryRepository::new();
    repo.save("abc".to_owned(), "https://youtube.com".to_owned())
        .unwrap();
    repo.save("abc".to_owned(), "https://google.com".to_owned())
        .unwrap();

    assert_eq!(repo.len(), 1);
    assert_eq!(repo.get("abc"), Ok("https://google.com".to_owned()));
}

#[test]
fn distinct_identifiers_grow_the_count() {
    let mut repo = InMemoryRepository::new();
    repo.save("abc".to_owned(), "https://youtube.com".to_owned())
        .unwrap();
    repo.save("def".to_owned(), "https://google.com".to_owned())
        .unwrap();

    assert_eq!(repo.len(), 2);
}
