use itch_shell::game::{
    extract_game_info, find_game, game_in, GameInfo, CLASSIC_DOMAIN, STANDARD_DOMAIN,
};

fn page(title: &str, src: &str, width: &str, height: &str) -> String {
    format!(
        "<html><head>{}</head><body><div {} {}><iframe {}></iframe></div></body></html>",
        title, width, height, src
    )
}

#[test]
fn domains_are_the_two_asset_hosts() {
    assert_eq!(STANDARD_DOMAIN, "https://html.itch.zone/html/");
    assert_eq!(CLASSIC_DOMAIN, "https://html-classic.itch.zone/html/");
}

#[test]
fn find_game_rebuilds_the_address() {
    let html = "<iframe src=\"https://html.itch.zone/html/123/index.html\"></iframe>";
    assert_eq!(
        find_game(html, "https://html.itch.zone/html/"),
        Some("https://html.itch.zone/html/123/index.html".to_string())
    );
}

#[test]
fn find_game_needs_the_domain_right_after_the_quote() {
    let html = "<img src=\"https://img.itch.zone/a.png\"> https://html.itch.zone/html/1/index.html";
    assert_eq!(find_game(html, STANDARD_DOMAIN), None);
    let html = "<iframe src='https://html.itch.zone/html/1/index.html'></iframe>";
    assert_eq!(find_game(html, STANDARD_DOMAIN), None);
}

#[test]
fn find_game_needs_the_closing_quote() {
    let html = "<iframe src=\"https://html.itch.zone/html/123/index.html";
    assert_eq!(find_game(html, STANDARD_DOMAIN), None);
}

#[test]
fn find_game_keeps_domains_apart() {
    let html = "<iframe src=\"https://html-classic.itch.zone/html/9/index.html\">";
    assert_eq!(find_game(html, STANDARD_DOMAIN), None);
    assert_eq!(
        find_game(html, CLASSIC_DOMAIN),
        Some("https://html-classic.itch.zone/html/9/index.html".to_string())
    );
}

#[test]
fn find_game_with_an_empty_path() {
    let html = "src=\"https://html.itch.zone/html/\"";
    assert_eq!(
        find_game(html, STANDARD_DOMAIN),
        Some("https://html.itch.zone/html/".to_string())
    );
}

#[test]
fn game_in_works_on_characters() {
    let text: Vec<char> = "x src=\"d/p\" y".chars().collect();
    assert_eq!(game_in(&text, "d/"), Some("d/p".to_string()));
    assert_eq!(game_in(&text, "e/"), None);
}

#[test]
fn extracts_a_whole_descriptor() {
    let html = "<html><title>My Game by Me</title><body>\
                <iframe src=\"https://html.itch.zone/html/123/index.html\"></iframe>\
                <div data-width=\"800\" data-height=\"600\"></div></body></html>";
    assert_eq!(
        extract_game_info(html),
        Some(GameInfo {
            title: "My Game by Me".to_string(),
            url: "https://html.itch.zone/html/123/index.html".to_string(),
            width: 800,
            height: 600,
        })
    );
}

#[test]
fn standard_domain_wins_over_classic() {
    let html = "<title>T</title>\
                <iframe src=\"https://html-classic.itch.zone/html/2/classic.html\"></iframe>\
                <iframe src=\"https://html.itch.zone/html/1/standard.html\"></iframe>\
                data-width=\"1\" data-height=\"2\"";
    let info = extract_game_info(html).unwrap();
    assert_eq!(info.url, "https://html.itch.zone/html/1/standard.html");
}

#[test]
fn classic_domain_is_the_fallback() {
    let html = page(
        "<title>Old Game by Them</title>",
        "src=\"https://html-classic.itch.zone/html/77/index.html\"",
        "data-width=\"640\"",
        "data-height=\"480\"",
    );
    assert_eq!(
        extract_game_info(&html),
        Some(GameInfo {
            title: "Old Game by Them".to_string(),
            url: "https://html-classic.itch.zone/html/77/index.html".to_string(),
            width: 640,
            height: 480,
        })
    );
}

#[test]
fn no_asset_means_no_descriptor() {
    let html = page(
        "<title>T</title>",
        "src=\"https://example.com/html/77/index.html\"",
        "data-width=\"640\"",
        "data-height=\"480\"",
    );
    assert_eq!(extract_game_info(&html), None);
}

#[test]
fn non_numeric_width_fails_entirely() {
    let html = page(
        "<title>T</title>",
        "src=\"https://html.itch.zone/html/1/index.html\"",
        "data-width=\"abc\"",
        "data-height=\"480\"",
    );
    assert_eq!(extract_game_info(&html), None);
}

#[test]
fn non_numeric_height_fails_entirely() {
    let html = page(
        "<title>T</title>",
        "src=\"https://html.itch.zone/html/1/index.html\"",
        "data-width=\"640\"",
        "data-height=\"48 0\"",
    );
    assert_eq!(extract_game_info(&html), None);
    let html = page(
        "<title>T</title>",
        "src=\"https://html.itch.zone/html/1/index.html\"",
        "data-width=\"640\"",
        "data-height=\"\"",
    );
    assert_eq!(extract_game_info(&html), None);
}

#[test]
fn negative_or_oversized_dimensions_fail() {
    let html = page(
        "<title>T</title>",
        "src=\"https://html.itch.zone/html/1/index.html\"",
        "data-width=\"-640\"",
        "data-height=\"480\"",
    );
    assert_eq!(extract_game_info(&html), None);
    let html = page(
        "<title>T</title>",
        "src=\"https://html.itch.zone/html/1/index.html\"",
        "data-width=\"640\"",
        "data-height=\"4294967296\"",
    );
    assert_eq!(extract_game_info(&html), None);
}

#[test]
fn missing_dimension_fails() {
    let html = page(
        "<title>T</title>",
        "src=\"https://html.itch.zone/html/1/index.html\"",
        "",
        "data-height=\"480\"",
    );
    assert_eq!(extract_game_info(&html), None);
    let html = page(
        "<title>T</title>",
        "src=\"https://html.itch.zone/html/1/index.html\"",
        "data-width=\"640\"",
        "",
    );
    assert_eq!(extract_game_info(&html), None);
}

#[test]
fn missing_title_fails() {
    let html = page(
        "",
        "src=\"https://html.itch.zone/html/1/index.html\"",
        "data-width=\"640\"",
        "data-height=\"480\"",
    );
    assert_eq!(extract_game_info(&html), None);
}

#[test]
fn unclosed_title_fails() {
    let html = page(
        "<title>Never closed",
        "src=\"https://html.itch.zone/html/1/index.html\"",
        "data-width=\"640\"",
        "data-height=\"480\"",
    );
    assert_eq!(extract_game_info(&html), None);
}

#[test]
fn empty_title_is_kept() {
    let html = page(
        "<title></title>",
        "src=\"https://html.itch.zone/html/1/index.html\"",
        "data-width=\"640\"",
        "data-height=\"480\"",
    );
    let info = extract_game_info(&html).unwrap();
    assert_eq!(info.title, "");
    assert_eq!(info.width, 640);
    assert_eq!(info.height, 480);
}

#[test]
fn first_of_each_attribute_counts() {
    let html = "<title>First</title><title>Second</title>\
                src=\"https://html.itch.zone/html/1/a.html\" src=\"https://html.itch.zone/html/2/b.html\"\
                data-width=\"10\" data-width=\"20\" data-height=\"30\" data-height=\"40\"";
    assert_eq!(
        extract_game_info(html),
        Some(GameInfo {
            title: "First".to_string(),
            url: "https://html.itch.zone/html/1/a.html".to_string(),
            width: 10,
            height: 30,
        })
    );
}

#[test]
fn title_beyond_ascii() {
    let html = page(
        "<title>Café ☕ by Zoë</title>",
        "src=\"https://html.itch.zone/html/5/index.html\"",
        "data-width=\"320\"",
        "data-height=\"200\"",
    );
    let info = extract_game_info(&html).unwrap();
    assert_eq!(info.title, "Café ☕ by Zoë");
    assert_eq!(info.url, "https://html.itch.zone/html/5/index.html");
}

#[test]
fn empty_page_yields_nothing() {
    assert_eq!(extract_game_info(""), None);
}
