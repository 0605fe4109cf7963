use portfolio_cache::blog::{generate_json_ld, BlogPost};
use portfolio_cache::contact::{
    check_contact, check_rate_limit, cleanup_rate_limits, client_ip, hash_ip, notification_body,
    notification_subject, ContactCheck, ContactFormInput, ContactRateLimit, ContactResult,
    ContactStatus, EmailConfig, DEFAULT_CONTACT_SALT,
};
use portfolio_cache::i18n::Language;
use portfolio_cache::projects::ProjectCategory;
use portfolio_cache::themes::{ColorMode, Theme};
use portfolio_cache::translations::Translations;

const NOW: i64 = 1_704_067_200;

fn post(slug: &'static str, tags: &'static [&'static str]) -> BlogPost {
    BlogPost {
        slug,
        date: "2024-01-01",
        tags,
        title_en: "Title",
        title_fr: "Titre",
        summary_en: "Summary",
        summary_fr: "Résumé",
        content_en: "<p>Hello</p>",
        content_fr: "<p>Bonjour</p>",
        reading_time_en: 3,
        reading_time_fr: 4,
        category: "infra",
        featured: false,
        toc_html_en: "",
        toc_html_fr: "",
        has_mermaid: false,
    }
}

fn catalogue() -> Vec<BlogPost> {
    vec![
        post("k8s-at-home", &["kubernetes", "homelab"]),
        post("rust-web", &["rust", "web"]),
        post("homelab-power", &["homelab", "Energy"]),
    ]
}

#[test]
fn compiled_catalogue_is_empty_without_content() {
    assert!(BlogPost::all_posts().is_empty());
}

#[test]
fn posts_are_found_by_slug() {
    let posts = catalogue();
    assert_eq!(BlogPost::find_by_slug(&posts, "rust-web").map(|p| p.slug), Some("rust-web"));
    assert!(BlogPost::find_by_slug(&posts, "missing").is_none());
    assert!(BlogPost::find_by_slug(&posts, "").is_none());
}

#[test]
fn posts_are_filtered_by_tag() {
    let posts = catalogue();
    let slugs: Vec<&str> = BlogPost::filter_by_tag(&posts, "homelab").iter().map(|p| p.slug).collect();
    assert_eq!(slugs, vec!["k8s-at-home", "homelab-power"]);
    assert!(BlogPost::filter_by_tag(&posts, "Homelab").is_empty());
}

#[test]
fn tags_are_unique_and_sorted() {
    let posts = catalogue();
    assert_eq!(BlogPost::all_tags(&posts), vec!["Energy", "homelab", "kubernetes", "rust", "web"]);
    assert!(BlogPost::all_tags(&[]).is_empty());
}

#[test]
fn language_codes_and_labels() {
    assert_eq!(Language::default(), Language::En);
    assert_eq!(Language::from_code("FR"), Language::Fr);
    assert_eq!(Language::from_code("de"), Language::En);
    assert_eq!(Language::Fr.code(), "fr");
    assert_eq!(Language::En.toggle(), Language::Fr);
    assert_eq!(Language::Fr.label(), "FR");
}

#[test]
fn translations_follow_the_language() {
    let en = Translations::for_language(Language::En);
    let fr = Translations::for_language(Language::Fr);
    assert_eq!(en.nav_home, "Home");
    assert_eq!(fr.nav_home, "Accueil");
    assert_eq!(fr.nav_about, "À propos");
    assert_eq!(Translations::english().success, "Success!");
    assert_eq!(Translations::french().success, "Succès !");
}

#[test]
fn themes_cycle_and_parse() {
    assert_eq!(Theme::default(), Theme::Terminal);
    assert_eq!(Theme::from_code("Forge"), Theme::Forge);
    assert_eq!(Theme::from_code("BITART"), Theme::Bitart);
    assert_eq!(Theme::from_code("neon"), Theme::Terminal);
    assert_eq!(Theme::Terminal.next().next().next(), Theme::Terminal);
    assert_eq!(Theme::Forge.code(), "forge");
    assert_eq!(Theme::Bitart.label(), "FUN");
    assert_eq!(Theme::Terminal.icon(), ">_");
}

#[test]
fn color_modes_toggle_and_parse() {
    assert_eq!(ColorMode::default(), ColorMode::Dark);
    assert_eq!(ColorMode::from_code("LIGHT"), ColorMode::Light);
    assert_eq!(ColorMode::from_code("sepia"), ColorMode::Dark);
    assert_eq!(ColorMode::Light.toggle(), ColorMode::Dark);
    assert_eq!(ColorMode::Light.code(), "light");
    assert_eq!(ColorMode::Dark.label(), "DARK");
}

fn form(name: &str, email: &str, subject: &str, message: &str, website: &str) -> ContactFormInput {
    ContactFormInput {
        name: name.to_string(),
        email: email.to_string(),
        subject: subject.to_string(),
        message: message.to_string(),
        website: website.to_string(),
    }
}

fn invalid_key(c: ContactCheck) -> &'static str {
    match c {
        ContactCheck::Invalid(k) => k,
        _ => panic!("expected an invalid submission"),
    }
}

#[test]
fn valid_submission_is_trimmed() {
    let input = form("  Ada  ", " ada@example.org ", "  ", " Hello there ", "");
    match check_contact(&input, "h".to_string(), Some("agent".to_string())) {
        ContactCheck::Valid(s) => {
            assert_eq!(s.name, "Ada");
            assert_eq!(s.email, "ada@example.org");
            assert_eq!(s.subject, None);
            assert_eq!(s.message, "Hello there");
            assert!(!s.honeypot_filled);
            assert_eq!(s.ip_hash.as_deref(), Some("h"));
            assert_eq!(s.user_agent.as_deref(), Some("agent"));
        }
        _ => panic!("expected a valid submission"),
    }
}

#[test]
fn filled_hidden_field_is_trapped_as_entered() {
    let input = form(" Bot ", "not-an-email", "Buy", "", "http://spam.example");
    match check_contact(&input, "h".to_string(), None) {
        ContactCheck::Trap(s) => {
            assert_eq!(s.name, " Bot ");
            assert_eq!(s.subject.as_deref(), Some("Buy"));
            assert!(s.honeypot_filled);
        }
        _ => panic!("expected a trapped submission"),
    }
}

#[test]
fn invalid_fields_are_named_in_order() {
    let h = || "h".to_string();
    assert_eq!(invalid_key(check_contact(&form("   ", "", "", "", ""), h(), None)), "contact_error_name");
    assert_eq!(invalid_key(check_contact(&form(&"n".repeat(256), "a@b", "", "m", ""), h(), None)), "contact_error_name");
    assert_eq!(invalid_key(check_contact(&form("Ada", "ada.example.org", "", "m", ""), h(), None)), "contact_error_email");
    assert_eq!(invalid_key(check_contact(&form("Ada", "a@b\nBcc: x", "", "m", ""), h(), None)), "contact_error_email");
    assert_eq!(invalid_key(check_contact(&form("Ada", "a@b", "", "  ", ""), h(), None)), "contact_error_message");
    assert_eq!(invalid_key(check_contact(&form("Ada", "a@b", "", &"é".repeat(2501), ""), h(), None)), "contact_error_message");
    assert_eq!(invalid_key(check_contact(&form("Ada", "a@b", &"s".repeat(501), "m", ""), h(), None)), "contact_error_subject");
    assert!(matches!(check_contact(&form("Ada", "a@b", &"s".repeat(500), "m", ""), h(), None), ContactCheck::Valid(_)));
}

#[test]
fn contact_answers_carry_keys() {
    let ok = ContactResult::success();
    assert!(ok.success);
    assert_eq!(ok.message_key, "contact_success");
    let no = ContactResult::failure("contact_error_rate_limit");
    assert!(!no.success);
    assert_eq!(no.message_key, "contact_error_rate_limit");
    assert_eq!(ContactStatus::default(), ContactStatus::Pending);
}

fn record(count: i32, window_start: i64) -> ContactRateLimit {
    ContactRateLimit { ip_hash: "h".to_string(), attempt_count: count, window_start, last_attempt: window_start }
}

#[test]
fn rate_limit_counts_attempts_per_window() {
    let (ok, rec) = check_rate_limit(None, "h", NOW);
    assert!(ok);
    assert_eq!((rec.attempt_count, rec.window_start, rec.last_attempt), (1, NOW, NOW));
    let (ok, rec) = check_rate_limit(Some(record(2, NOW - 600)), "h", NOW);
    assert!(ok);
    assert_eq!((rec.attempt_count, rec.window_start), (3, NOW - 600));
    let (ok, rec) = check_rate_limit(Some(record(3, NOW - 600)), "h", NOW);
    assert!(!ok);
    assert_eq!((rec.attempt_count, rec.window_start, rec.last_attempt), (3, NOW - 600, NOW));
    let (ok, rec) = check_rate_limit(Some(record(3, NOW - 3601)), "h", NOW);
    assert!(ok);
    assert_eq!((rec.attempt_count, rec.window_start), (1, NOW));
    let (ok, _) = check_rate_limit(Some(record(3, NOW - 3600)), "h", NOW);
    assert!(!ok);
}

#[test]
fn old_rate_limit_records_are_dropped() {
    let mut records = vec![record(1, NOW - 86_401), record(2, NOW - 86_400), record(3, NOW)];
    assert_eq!(cleanup_rate_limits(&mut records, NOW), 1);
    let counts: Vec<i32> = records.iter().map(|r| r.attempt_count).collect();
    assert_eq!(counts, vec![2, 3]);
}

#[test]
fn sender_address_comes_from_the_forwarding_header() {
    assert_eq!(client_ip(Some(" 203.0.113.7 , 10.0.0.1")), "203.0.113.7");
    assert_eq!(client_ip(Some("198.51.100.2")), "198.51.100.2");
    assert_eq!(client_ip(Some(",10.0.0.1")), "");
    assert_eq!(client_ip(None), "unknown");
}

#[test]
fn sender_identifier_is_salted_sha256_hex() {
    assert_eq!(
        hash_ip("203.0.113.7", DEFAULT_CONTACT_SALT),
        "e05122a7f9df70d5dbac29aa39cf3878c7f6db4be954c96d1e9a2555f022964d"
    );
    assert_ne!(hash_ip("203.0.113.7", "other"), hash_ip("203.0.113.7", DEFAULT_CONTACT_SALT));
}

#[test]
fn notification_texts() {
    assert_eq!(notification_subject(Some("Hi")), "[Portfolio Contact] Hi");
    assert_eq!(notification_subject(None), "[Portfolio Contact] New message from portfolio");
    assert_eq!(
        notification_body("Ada", "ada@example.org", None, "Hello"),
        "New contact form submission from your portfolio:\n\nFrom: Ada <ada@example.org>\nSubject: (no subject)\n\nMessage:\nHello\n\n---\nThis email was sent from the contact form at kovacs.pilgrim.ovh\n"
    );
}

#[test]
fn email_settings_need_host_user_and_password() {
    let s = |v: &str| Some(v.to_string());
    assert!(EmailConfig::from_settings(s("smtp.example.org"), None, s("u"), None, None, None).is_none());
    let c = EmailConfig::from_settings(s("smtp.example.org"), None, s("u"), s("p"), None, None).unwrap();
    assert_eq!(c.smtp_port, 587);
    assert_eq!(c.from_address, "noreply@pilgrim.ovh");
    assert_eq!(c.to_address, "kovacs@pilgrim.ovh");
    let c = EmailConfig::from_settings(s("h"), Some(2525), s("u"), s("p"), s("a@b"), s("c@d")).unwrap();
    assert_eq!((c.smtp_port, c.from_address.as_str(), c.to_address.as_str()), (2525, "a@b", "c@d"));
}

#[test]
fn json_ld_describes_the_post() {
    let mut p = post("rust-web", &["rust", "web"]);
    p.title_en = "Say \"hi\"";
    p.summary_en = "Short";
    p.title_fr = "Dis \"salut\"";
    p.summary_fr = "Court";
    let expected = |title: &str, summary: &str| {
        format!(
            "{{\n  \"@context\": \"https://schema.org\",\n  \"@type\": \"BlogPosting\",\n  \"headline\": \"{}\",\n  \"description\": \"{}\",\n  \"author\": {{\n    \"@type\": \"Person\",\n    \"name\": \"Kov√°cs Kriszti√°n G√©za\"\n  }},\n  \"datePublished\": \"2024-01-01\",\n  \"keywords\": [\"rust\", \"web\"],\n  \"mainEntityOfPage\": {{\n    \"@type\": \"WebPage\",\n    \"@id\": \"https://kovacs.pilgrim.ovh/blog/rust-web\"\n  }}\n}}",
            title, summary
        )
    };
    assert_eq!(generate_json_ld(&p, false), expected("Say \\\"hi\\\"", "Short"));
    assert_eq!(generate_json_ld(&p, true), expected("Dis \\\"salut\\\"", "Court"));
    let bare = post("empty", &[]);
    assert!(generate_json_ld(&bare, false).contains("\"keywords\": [],"));
}

#[test]
fn project_categories_in_filter_order() {
    let ids: Vec<&str> = ProjectCategory::all().iter().map(|c| c.id()).collect();
    assert_eq!(ids, vec!["cloud", "security", "automation"]);
}
