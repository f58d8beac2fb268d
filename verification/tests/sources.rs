use meta_scraper::MetaScraper;

#[test]
fn extract_title() {
    let scraper = MetaScraper::new(r#"<title>Page Title</title>"#);

    let title = scraper.extract_title();

    assert_eq!(title, Some("Page Title".to_string()));
}

#[test]
fn extract_og_title() {
    let scraper = MetaScraper::new(r#"<meta property="og:title" content="Page Title" />"#);

    let og_title = scraper.extract_og_title();

    assert_eq!(og_title, Some("Page Title".to_string()));
}

#[test]
fn extract_twitter_title() {
    let scraper = MetaScraper::new(r#"<meta name="twitter:title" content="Page Title" />"#);

    let og_title = scraper.extract_twitter_title();

    assert_eq!(og_title, Some("Page Title".to_string()));
}

#[test]
fn extract_description() {
    let scraper = MetaScraper::new(r#"<meta name="description" content="My Description" />"#);

    let description = scraper.extract_description();

    assert_eq!(description, Some("My Description".to_string()));
}

#[test]
fn extract_og_description() {
    let scraper =
        MetaScraper::new(r#"<meta property="og:description" content="My Description" />"#);

    let og_description = scraper.extract_og_description();

    assert_eq!(og_description, Some("My Description".to_string()));
}

#[test]
fn extract_twitter_description() {
    let scraper =
        MetaScraper::new(r#"<meta name="twitter:description" content="My Description" />"#);

    let twitter_description = scraper.extract_twitter_description();

    assert_eq!(twitter_description, Some("My Description".to_string()));
}

#[test]
fn favicon() {
    let scraper = MetaScraper::new(r#"<link rel="icon" href="/favicon.ico" />"#);

    let favicon = scraper.favicon();

    assert_eq!(favicon, Some("/favicon.ico".to_string()));
}

#[test]
fn extract_og_image() {
    let scraper = MetaScraper::new(
        r#"<meta property="og:image" content="https://example.com/image.jpg" />"#,
    );

    let og_image = scraper.extract_og_image();

    assert_eq!(og_image, Some("https://example.com/image.jpg".to_string()));
}

#[test]
fn extract_og_images() {
    let scraper = MetaScraper::new(
        r#"
            <meta property="og:image" content="https://example.com/image.jpg" />
            <meta property="og:image" content="https://example.com/image.png" />"#,
    );

    let og_image = scraper.extract_og_images();

    assert_eq!(
        og_image,
        vec![
            "https://example.com/image.jpg".to_string(),
            "https://example.com/image.png".to_string()
        ]
    );
}

#[test]
fn extract_twitter_image() {
    let scraper = MetaScraper::new(
        r#"<meta name="twitter:image" content="https://example.com/image.jpg" />"#,
    );

    let twitter_image = scraper.extract_twitter_image();

    assert_eq!(
        twitter_image,
        Some("https://example.com/image.jpg".to_string())
    );
}

#[test]
fn lang() {
    let scraper = MetaScraper::new(
        r#"
            <html lang="en">
            ...
            </html>
        "#,
    );

    let lang = scraper.lang();

    assert_eq!(lang, Some("en".to_owned()));
}
