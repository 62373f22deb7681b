use std::collections::HashSet;
use webbundle::{
    Builder, Bundle, Error, Exchange, ExchangeBuilder, Field, IoErrorKind, IoFailure, Method,
    Request, Response, Uri, Url, Version, WalkEvent, STATUS_OK,
};

const INDEX_HTML: &[u8] = b"<html></html>";
const HELLO_JS: &[u8] = b"console.log(\"hello\");\n";

fn site_events(base_dir: &str) -> Vec<WalkEvent> {
    vec![
        WalkEvent::Directory(base_dir.to_string()),
        WalkEvent::File(format!("{}/index.html", base_dir), Ok(INDEX_HTML.to_vec())),
        WalkEvent::Directory(format!("{}/js", base_dir)),
        WalkEvent::File(format!("{}/js/hello.js", base_dir), Ok(HELLO_JS.to_vec())),
    ]
}

fn uris(exchanges: &[Exchange]) -> HashSet<String> {
    exchanges.iter().map(|e| e.request.uri().as_str().to_string()).collect::<HashSet<_>>()
}

#[test]
fn build_fail() {
    assert!(Builder::new().build().is_err());
}

#[test]
fn build() -> Result<(), Error> {
    let bundle = Builder::new()
        .version(Version::Version1)
        .primary_url("https://example.com".parse()?)
        .build()?;
    assert_eq!(bundle.version, Version::Version1);
    assert_eq!(bundle.primary_url, "https://example.com".parse::<Uri>()?);
    Ok(())
}

#[test]
fn exchange_builder() -> Result<(), Error> {
    let base_dir = String::from("/srv/site/tests/builder");

    let exchanges = ExchangeBuilder::new(base_dir.clone(), "https://example.com/".parse()?)
        .exchange("index.html", Ok(INDEX_HTML.to_vec()))?
        .build();
    assert_eq!(exchanges.len(), 1);
    let exchange = &exchanges[0];
    assert_eq!(exchange.request.uri(), &"https://example.com/index.html".parse::<Uri>()?);
    assert_eq!(exchange.request.method(), Method::Get);
    assert_eq!(exchange.response.status(), 200);
    assert_eq!(exchange.response.content_type(), "text/html");
    assert_eq!(exchange.response.content_length().to_string(), INDEX_HTML.len().to_string());
    assert_eq!(exchange.response.content_length(), 13);
    assert_eq!(exchange.response.body(), &INDEX_HTML.to_vec());
    Ok(())
}

#[test]
fn walk() -> Result<(), Error> {
    let base_dir = String::from("/srv/site/tests/builder");

    let exchanges = ExchangeBuilder::new(base_dir.clone(), "https://example.com/".parse()?)
        .walk(site_events(&base_dir))?
        .build();
    assert_eq!(exchanges.len(), 2);
    let urls = exchanges
        .into_iter()
        .map(|e| e.request.uri().as_str().to_string())
        .collect::<HashSet<_>>();
    assert!(urls.contains("https://example.com/index.html"));
    assert!(urls.contains("https://example.com/js/hello.js"));
    Ok(())
}

#[test]
fn walk_gives_media_types_and_status() {
    let base_dir = "tests/builder";
    let exchanges = ExchangeBuilder::new(base_dir.to_string(), "https://example.com/".parse().unwrap())
        .walk(site_events(base_dir))
        .unwrap()
        .build();
    assert_eq!(exchanges.len(), 2);
    assert_eq!(exchanges[0].request.uri().as_str(), "https://example.com/index.html");
    assert_eq!(exchanges[0].response.content_type(), "text/html");
    assert_eq!(exchanges[0].response.status(), STATUS_OK);
    assert_eq!(exchanges[0].response.body().as_slice(), INDEX_HTML);
    assert_eq!(exchanges[1].request.uri().as_str(), "https://example.com/js/hello.js");
    let script_type = exchanges[1].response.content_type();
    assert!(script_type == "text/javascript" || script_type == "application/javascript");
    assert_eq!(exchanges[1].response.status(), STATUS_OK);
    assert_eq!(exchanges[1].response.content_length(), HELLO_JS.len() as u64);
    assert_eq!(exchanges[1].response.body().as_slice(), HELLO_JS);
}

#[test]
fn builder_starts_empty_and_keeps_what_is_set() {
    let manifest: Uri = "https://example.com/site.webmanifest".parse().unwrap();
    let primary: Uri = "https://example.com/index.html".parse().unwrap();
    let exchange = Exchange {
        request: Request::get(primary.clone()),
        response: Response::ok("text/html".to_string(), INDEX_HTML.to_vec()),
    };
    let bundle = Bundle::builder()
        .version(Version::VersionB1)
        .primary_url(primary.clone())
        .manifest(manifest.clone())
        .exchange(exchange.clone())
        .build()
        .unwrap();
    assert_eq!(bundle.version, Version::VersionB1);
    assert_eq!(bundle.primary_url, primary);
    assert_eq!(bundle.manifest, Some(manifest));
    assert_eq!(bundle.exchanges, vec![exchange]);

    let bare = Builder::default()
        .version(Version::Version1)
        .primary_url(primary.clone())
        .build()
        .unwrap();
    assert_eq!(bare.manifest, None);
    assert!(bare.exchanges.is_empty());
}

#[test]
fn build_names_the_missing_field() {
    let primary: Uri = "https://example.com/".parse().unwrap();
    assert_eq!(Builder::new().build(), Err(Error::MissingField(Field::Version)));
    assert_eq!(
        Builder::new().primary_url(primary).build(),
        Err(Error::MissingField(Field::Version))
    );
    assert_eq!(
        Builder::new().version(Version::Version1).build(),
        Err(Error::MissingField(Field::PrimaryUrl))
    );
}

#[test]
fn later_settings_replace_earlier_ones() {
    let first: Uri = "https://example.com/a".parse().unwrap();
    let second: Uri = "https://example.com/b".parse().unwrap();
    let bundle = Builder::new()
        .version(Version::VersionB1)
        .version(Version::Version1)
        .primary_url(first)
        .primary_url(second.clone())
        .build()
        .unwrap();
    assert_eq!(bundle.version, Version::Version1);
    assert_eq!(bundle.primary_url, second);
}

#[test]
fn exchanges_keep_their_order() {
    let primary: Uri = "https://example.com/".parse().unwrap();
    let make = |path: &str| Exchange {
        request: Request::get(format!("https://example.com/{}", path).parse().unwrap()),
        response: Response::ok("text/plain".to_string(), path.as_bytes().to_vec()),
    };
    let bundle = Builder::new()
        .version(Version::Version1)
        .primary_url(primary)
        .exchange(make("z"))
        .exchange(make("a"))
        .exchange(make("m"))
        .build()
        .unwrap();
    let order: Vec<&str> = bundle.exchanges.iter().map(|e| e.request.uri().as_str()).collect();
    assert_eq!(
        order,
        vec!["https://example.com/z", "https://example.com/a", "https://example.com/m"]
    );
}

#[test]
fn exchanges_from_dir_appends_in_walk_order() {
    let primary: Uri = "https://example.com/index.html".parse().unwrap();
    let first = Exchange {
        request: Request::get("https://example.com/first".parse().unwrap()),
        response: Response::ok("text/plain".to_string(), b"1".to_vec()),
    };
    let bundle = Bundle::builder()
        .version(Version::VersionB1)
        .primary_url(primary)
        .exchange(first)
        .exchanges_from_dir("assets", "https://example.com".parse().unwrap(), site_events("assets"))
        .unwrap()
        .build()
        .unwrap();
    let order: Vec<&str> = bundle.exchanges.iter().map(|e| e.request.uri().as_str()).collect();
    assert_eq!(
        order,
        vec![
            "https://example.com/first",
            "https://example.com/index.html",
            "https://example.com/js/hello.js"
        ]
    );
}

#[test]
fn exchanges_from_dir_fails_with_the_walk() {
    let events = vec![
        WalkEvent::Directory("assets".to_string()),
        WalkEvent::Failed("permission denied".to_string()),
    ];
    let outcome = Builder::new().exchanges_from_dir(
        "assets",
        "https://example.com/".parse().unwrap(),
        events,
    );
    assert_eq!(outcome.err(), Some(Error::Traversal("permission denied".to_string())));
}

#[test]
fn url_parse_normalizes_and_rejects() {
    let url: Url = "https://example.com".parse().unwrap();
    assert_eq!(url.as_str(), "https://example.com/");
    assert_eq!(Url::parse("HTTPS://EXAMPLE.com/a/../b").unwrap().as_str(), "https://example.com/b");
    assert_eq!(Url::parse("not a url"), Err(Error::Url("not a url".to_string())));
    assert_eq!(Url::parse(""), Err(Error::Url(String::new())));
}

#[test]
fn url_join_resolves_references() {
    let base = Url::parse("https://example.com/dir/page.html").unwrap();
    assert_eq!(base.join("other.html").unwrap().as_str(), "https://example.com/dir/other.html");
    assert_eq!(base.join("../up.html").unwrap().as_str(), "https://example.com/up.html");
    assert_eq!(base.join("a b.txt").unwrap().as_str(), "https://example.com/dir/a%20b.txt");
    assert_eq!(base.join("").unwrap().as_str(), "https://example.com/dir/page.html");
    let opaque = Url::parse("mailto:someone@example.com").unwrap();
    assert_eq!(opaque.join("index.html"), Err(Error::Url("index.html".to_string())));
}

#[test]
fn uri_parse_gives_the_text_of_the_uri() {
    let uri = Uri::parse("https://example.com").unwrap();
    assert_eq!(uri.as_str(), "https://example.com/");
    assert_eq!(Uri::parse("https://example.com/a?b=c").unwrap().as_str(), "https://example.com/a?b=c");
    assert_eq!(Uri::parse(""), Err(Error::Url(String::new())));
    assert_eq!(Uri::parse("https://exa mple.com/"), Err(Error::Url("https://exa mple.com/".to_string())));
}

#[test]
fn url_from_relative_path_joins_onto_the_base() {
    let builder = ExchangeBuilder::new("site".to_string(), Url::parse("https://example.com/base/").unwrap());
    let uri = |path: &str| builder.url_from_relative_path(path).map(|u| u.as_str().to_string());
    assert_eq!(uri("index.html"), Ok("https://example.com/base/index.html".to_string()));
    assert_eq!(uri("js/hello.js"), Ok("https://example.com/base/js/hello.js".to_string()));
    assert_eq!(uri("a b.html"), Ok("https://example.com/base/a%20b.html".to_string()));
    assert_eq!(uri("./x/../y.css"), Ok("https://example.com/base/y.css".to_string()));
    assert_eq!(uri("../escaped.html"), Ok("https://example.com/escaped.html".to_string()));
    assert_eq!(uri(""), Ok("https://example.com/base/".to_string()));
    assert_eq!(uri("a?b=c"), Ok("https://example.com/base/a?b=c".to_string()));
    assert_eq!(uri("page.html#part"), Ok("https://example.com/base/page.html".to_string()));
}

#[test]
fn url_from_relative_path_rejects_absolute_paths() {
    let builder = ExchangeBuilder::new("site".to_string(), Url::parse("https://example.com/").unwrap());
    assert_eq!(
        builder.url_from_relative_path("/etc/passwd"),
        Err(Error::InvalidPath("/etc/passwd".to_string()))
    );
    assert_eq!(builder.url_from_relative_path("/"), Err(Error::InvalidPath("/".to_string())));
}

#[test]
fn url_from_relative_path_reports_paths_that_give_no_url() {
    let builder = ExchangeBuilder::new("site".to_string(), Url::parse("https://example.com/").unwrap());
    assert_eq!(
        builder.url_from_relative_path("http://[/x"),
        Err(Error::Url("http://[/x".to_string()))
    );
    let long = "a".repeat(70000);
    let joined = format!("https://example.com/{}", long);
    assert_eq!(builder.url_from_relative_path(&long), Err(Error::Url(joined)));
    let opaque = ExchangeBuilder::new("site".to_string(), Url::parse("data:text/plain,hello").unwrap());
    assert_eq!(
        opaque.url_from_relative_path("index.html"),
        Err(Error::Url("index.html".to_string()))
    );
}

#[test]
fn create_response_measures_the_body() {
    let builder = ExchangeBuilder::new("site".to_string(), Url::parse("https://example.com/").unwrap());
    let body: Vec<u8> = (0..=255u8).cycle().take(1000).collect();
    let response = builder.create_response("data/blob.bin", Ok(body.clone())).unwrap();
    assert_eq!(response.status(), 200);
    assert_eq!(response.content_length(), 1000);
    assert_eq!(response.body(), &body);
    let empty = builder.create_response("empty.txt", Ok(Vec::new())).unwrap();
    assert_eq!(empty.content_length(), 0);
    assert!(empty.body().is_empty());
    assert_eq!(empty.content_type(), "text/plain");
}

#[test]
fn create_response_falls_back_to_octet_stream() {
    let builder = ExchangeBuilder::new("site".to_string(), Url::parse("https://example.com/").unwrap());
    for path in ["README", "archive.unknown-extension", "dir.html/noext", ".hidden", ""] {
        let response = builder.create_response(path, Ok(b"x".to_vec())).unwrap();
        assert_eq!(response.content_type(), "application/octet-stream", "{}", path);
    }
}

#[test]
fn create_response_goes_by_the_extension_alone() {
    let builder = ExchangeBuilder::new("site".to_string(), Url::parse("https://example.com/").unwrap());
    let png = builder.create_response("img/logo.PNG", Ok(b"<html></html>".to_vec())).unwrap();
    assert_eq!(png.content_type(), "image/png");
    let css = builder.create_response("style.css", Ok(vec![0, 159, 146, 150])).unwrap();
    assert_eq!(css.content_type(), "text/css");
    let json = builder.create_response("a/b/c.json", Ok(Vec::new())).unwrap();
    assert_eq!(json.content_type(), "application/json");
    let word = builder.create_response("macro.docm", Ok(Vec::new())).unwrap();
    assert_eq!(word.content_type(), "application/vnd.ms-word.document.macroenabled.12");
}

#[test]
fn create_response_rejects_absolute_paths_before_the_read_counts() {
    let builder = ExchangeBuilder::new("site".to_string(), Url::parse("https://example.com/").unwrap());
    assert_eq!(
        builder.create_response("/index.html", Ok(Vec::new())),
        Err(Error::InvalidPath("/index.html".to_string()))
    );
    let failure = IoFailure { kind: IoErrorKind::NotFound, detail: "gone".to_string() };
    assert_eq!(
        builder.create_response("/index.html", Err(failure)),
        Err(Error::InvalidPath("/index.html".to_string()))
    );
}

#[test]
fn create_response_reports_failed_reads() {
    let builder = ExchangeBuilder::new("site".to_string(), Url::parse("https://example.com/").unwrap());
    for kind in [IoErrorKind::NotFound, IoErrorKind::PermissionDenied, IoErrorKind::Other] {
        let failure = IoFailure { kind, detail: "os said no".to_string() };
        assert_eq!(
            builder.create_response("index.html", Err(failure.clone())),
            Err(Error::Io("index.html".to_string(), failure))
        );
    }
}

#[test]
fn exchange_reports_url_errors_before_read_errors() {
    let failure = IoFailure { kind: IoErrorKind::PermissionDenied, detail: "denied".to_string() };
    let builder = ExchangeBuilder::new("site".to_string(), Url::parse("https://example.com/").unwrap());
    assert_eq!(
        builder.exchange("http://[/x", Err(failure.clone())).err(),
        Some(Error::Url("http://[/x".to_string()))
    );
    let builder = ExchangeBuilder::new("site".to_string(), Url::parse("https://example.com/").unwrap());
    assert_eq!(
        builder.exchange("index.html", Err(failure.clone())).err(),
        Some(Error::Io("index.html".to_string(), failure))
    );
}

#[test]
fn symlinks_never_add_an_exchange() {
    let base_dir = "site";
    let mut events = site_events(base_dir);
    events.insert(0, WalkEvent::Symlink("site".to_string()));
    events.insert(2, WalkEvent::Symlink("site/link-to-index.html".to_string()));
    events.push(WalkEvent::Symlink("site/js/link-to-dir".to_string()));
    events.push(WalkEvent::Symlink("/outside/absolute".to_string()));
    events.push(WalkEvent::Symlink("site/broken link".to_string()));
    let with_links = ExchangeBuilder::new(base_dir.to_string(), "https://example.com/".parse().unwrap())
        .walk(events)
        .unwrap()
        .build();
    let without = ExchangeBuilder::new(base_dir.to_string(), "https://example.com/".parse().unwrap())
        .walk(site_events(base_dir))
        .unwrap()
        .build();
    assert_eq!(with_links, without);
    assert_eq!(with_links.len(), 2);
}

#[test]
fn directories_and_other_entries_add_nothing() {
    let events = vec![
        WalkEvent::Directory("site".to_string()),
        WalkEvent::Directory("site/empty".to_string()),
        WalkEvent::Other("site/fifo".to_string()),
    ];
    let exchanges = ExchangeBuilder::new("site".to_string(), "https://example.com/".parse().unwrap())
        .walk(events)
        .unwrap()
        .build();
    assert!(exchanges.is_empty());
    let nothing = ExchangeBuilder::new("site".to_string(), "https://example.com/".parse().unwrap())
        .walk(Vec::new())
        .unwrap()
        .build();
    assert!(nothing.is_empty());
}

#[test]
fn walking_twice_gives_the_same_urls_in_any_order() {
    let base_dir = "site";
    let forward = site_events(base_dir);
    let mut backward = site_events(base_dir);
    backward.reverse();
    let first = ExchangeBuilder::new(base_dir.to_string(), "https://example.com/".parse().unwrap())
        .walk(forward)
        .unwrap()
        .build();
    let second = ExchangeBuilder::new(base_dir.to_string(), "https://example.com/".parse().unwrap())
        .walk(backward)
        .unwrap()
        .build();
    assert_eq!(uris(&first), uris(&second));
    assert_eq!(first.len(), second.len());
    assert_eq!(first[0], second[1]);
    assert_eq!(first[1], second[0]);
}

#[test]
fn walk_stops_at_the_first_failure() {
    let failure = IoFailure { kind: IoErrorKind::NotFound, detail: "vanished".to_string() };
    let events = vec![
        WalkEvent::File("site/index.html".to_string(), Ok(INDEX_HTML.to_vec())),
        WalkEvent::File("site/gone.html".to_string(), Err(failure.clone())),
        WalkEvent::Failed("later".to_string()),
    ];
    let outcome = ExchangeBuilder::new("site".to_string(), "https://example.com/".parse().unwrap())
        .walk(events);
    assert_eq!(outcome.err(), Some(Error::Io("gone.html".to_string(), failure)));

    let events = vec![
        WalkEvent::Failed("first".to_string()),
        WalkEvent::File("site/index.html".to_string(), Ok(INDEX_HTML.to_vec())),
    ];
    let outcome = ExchangeBuilder::new("site".to_string(), "https://example.com/".parse().unwrap())
        .walk(events);
    assert_eq!(outcome.err(), Some(Error::Traversal("first".to_string())));
}

#[test]
fn walk_reports_files_that_have_no_path_from_the_base() {
    let events = vec![WalkEvent::File("relative/file.txt".to_string(), Ok(Vec::new()))];
    let outcome = ExchangeBuilder::new("/absolute/base".to_string(), "https://example.com/".parse().unwrap())
        .walk(events);
    assert_eq!(outcome.err(), Some(Error::Traversal("relative/file.txt".to_string())));
}

#[test]
fn visit_takes_paths_relative_to_the_base() {
    let visit = |base: &str, path: &str| {
        ExchangeBuilder::new(base.to_string(), "https://example.com/".parse().unwrap())
            .visit(WalkEvent::File(path.to_string(), Ok(Vec::new())))
            .map(|b| b.build()[0].request.uri().as_str().to_string())
    };
    assert_eq!(visit("/srv/www", "/srv/www/a/b.txt"), Ok("https://example.com/a/b.txt".to_string()));
    assert_eq!(visit(".", "./index.html"), Ok("https://example.com/index.html".to_string()));
    assert_eq!(visit("site/", "site/index.html"), Ok("https://example.com/index.html".to_string()));
    assert_eq!(visit("a/b", "a/c/d.txt"), Ok("https://example.com/c/d.txt".to_string()));
    assert_eq!(
        visit("relative", "/absolute/file.txt"),
        Err(Error::InvalidPath("/absolute/file.txt".to_string()))
    );
}

#[test]
fn responses_can_be_copied() {
    let response = Response::ok("text/plain".to_string(), b"hello".to_vec());
    let copy = response.clone();
    assert_eq!(copy, response);
    assert_eq!(copy.content_length(), 5);
    assert_eq!(copy.status(), 200);
    assert_eq!(copy.content_type(), "text/plain");
    assert_eq!(copy.body().as_slice(), b"hello");
}

#[test]
fn error_messages_name_what_went_wrong() {
    assert_eq!(Error::MissingField(Field::Version).message(), "no version");
    assert_eq!(Error::MissingField(Field::PrimaryUrl).message(), "no primary_url");
    assert_eq!(
        Error::InvalidPath("/etc/passwd".to_string()).message(),
        "Path is not relative: /etc/passwd"
    );
    assert_eq!(Error::Url("::".to_string()).message(), "Invalid URL: ::");
    let failure = IoFailure { kind: IoErrorKind::NotFound, detail: "No such file".to_string() };
    assert_eq!(
        Error::Io("a/b.txt".to_string(), failure).message(),
        "Cannot read a/b.txt: No such file"
    );
    assert_eq!(
        Error::Traversal("loop".to_string()).message(),
        "Cannot walk the directory: loop"
    );
}
