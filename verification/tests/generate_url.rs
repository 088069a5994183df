use url_shortener::adapters::id_provider::FakeIdProvider;
use url_shortener::adapters::id_provider::IdProvider;
use url_shortener::adapters::id_provider::NanoIdProvider;
use url_shortener::adapters::short_url_provider::FakeUrlShortener;
use url_shortener::adapters::short_url_provider::NanoUrlShortener;
use url_shortener::app::generate_url::GenerateShortUrlCommand;
use url_shortener::app::generate_url::ShortUrlProvider;
use url_shortener::app::get_full_url::GetFullUrlRepository;
use url_shortener::storage::in_memory::InMemoryRepository;

#[test]
fn get_non_empty_short_url() {
    let fake_id_provider = FakeUrlShortener::new("1".to_owned());
    let repository = InMemoryRepository::new();
    let mut command = GenerateShortUrlCommand::new(fake_id_provider, repository);

    let short_url = command.generate("https://youtube.com").unwrap();

    assert_ne!(short_url, "".to_owned());
}

#[test]
fn comparing_different_urls() {
    let nanoid_provider = NanoUrlShortener;
    let repository = InMemoryRepository::new();
    let mut command = GenerateShortUrlCommand::new(nanoid_provider, repository);

    let short_url = command.generate("https://youtube.com").unwrap();
    let short_url_two = command.generate("https://google.com").unwrap();

    assert_ne!(short_url, short_url_two);
}

#[test]
fn check_non_empty_store() {
    let nanoid_provider = NanoUrlShortener;
    let repository = InMemoryRepository::new();
    let mut command = GenerateShortUrlCommand::new(nanoid_provider, repository);

    let id = command.generate("https://youtube.com").unwrap();

    assert_eq!(command.repository().len(), 1);

    assert_eq!(
        command.repository().get(&id).unwrap(),
        "https://youtube.com"
    );
}

#[test]
fn nano_url_shortener_draws_ten_characters() {
    let id = NanoUrlShortener.provide();
    assert_eq!(id.chars().count(), 10);
}

#[test]
fn nano_id_provider_draws_ten_characters() {
    let id = NanoIdProvider.provide();
    assert_eq!(id.chars().count(), 10);
}

#[test]
fn fake_id_provider_returns_what_was_set() {
    let mut provider = FakeIdProvider::new("1".to_owned());
    assert_eq!(provider.provide(), "1".to_owned());
    provider.set_id("2".to_owned());
    assert_eq!(provider.provide(), "2".to_owned());
}

#[test]
fn fake_url_shortener_returns_what_was_set() {
    let mut provider = FakeUrlShortener::new("abc".to_owned());
    assert_eq!(provider.provide(), "abc".to_owned());
    provider.set_id("xyz".to_owned());
    assert_eq!(provider.provide(), "xyz".to_owned());
}
