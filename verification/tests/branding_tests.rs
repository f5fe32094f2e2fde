use botserver::platform_name;
use botserver::BrandingConfig;

#[test]
fn test_default_branding() {
    let config = BrandingConfig::default();
    assert_eq!(config.name, "General Bots");
    assert_eq!(config.short_name, "GB");
    assert!(!config.is_white_label);
}

#[test]
fn test_platform_name_function() {
    let config = BrandingConfig::default();
    let name = platform_name(&config);
    assert!(!name.is_empty());
}

#[test]
fn test_default_branding_optionals() {
    let config = BrandingConfig::default();
    assert_eq!(config.company.as_deref(), Some("pragmatismo.com.br"));
    assert_eq!(config.domain.as_deref(), Some("generalbots.com"));
    assert_eq!(config.support_email.as_deref(), Some("support@generalbots.com"));
    assert_eq!(config.primary_color.as_deref(), Some("#25d366"));
    assert_eq!(config.secondary_color.as_deref(), Some("#075e54"));
    assert_eq!(config.docs_url.as_deref(), Some("https://docs.generalbots.com"));
    assert!(config.logo_url.is_none());
    assert!(config.footer_text.is_none());
    let copyright = config.copyright.expect("stock branding carries a copyright line");
    assert!(copyright.starts_with("© "));
    assert!(copyright.ends_with(" pragmatismo.com.br. All rights reserved."));
}

#[test]
fn test_footer_text_default_and_custom() {
    let config = BrandingConfig::default();
    assert_eq!(botserver::footer_text(&config), "Powered by General Bots");
    let mut custom = BrandingConfig::default();
    custom.footer_text = Some("Custom footer".to_string());
    assert_eq!(botserver::footer_text(&custom), "Custom footer");
}

#[test]
fn test_log_prefix() {
    let config = BrandingConfig::default();
    assert_eq!(botserver::log_prefix(&config), "[GB]");
}

#[test]
fn test_platform_short_and_white_label() {
    let config = BrandingConfig::default();
    assert_eq!(botserver::platform_short(&config), "GB");
    assert!(!botserver::is_white_label(&config));
}

#[test]
fn test_apply_product_line_sets_fields() {
    let mut config = BrandingConfig::default();
    botserver::apply_product_line(&mut config, "  name = Acme Bots  ");
    botserver::apply_product_line(&mut config, "SHORT = 'AB'");
    botserver::apply_product_line(&mut config, "domain=\"acme.example\"");
    assert_eq!(config.name, "Acme Bots");
    assert_eq!(config.short_name, "AB");
    assert_eq!(config.domain, Some("acme.example".to_string()));
}

#[test]
fn test_apply_product_line_ignores_noise() {
    let mut config = BrandingConfig::default();
    let before = config.name.clone();
    botserver::apply_product_line(&mut config, "");
    botserver::apply_product_line(&mut config, "   ");
    botserver::apply_product_line(&mut config, "# name = Commented");
    botserver::apply_product_line(&mut config, "; name = Commented");
    botserver::apply_product_line(&mut config, "no equals sign here");
    botserver::apply_product_line(&mut config, "unknown_key = value");
    assert_eq!(config.name, before);
}

#[test]
fn test_apply_product_line_aliases() {
    let mut config = BrandingConfig::default();
    botserver::apply_product_line(&mut config, "organization = Acme Inc");
    botserver::apply_product_line(&mut config, "email = help@acme.example");
    botserver::apply_product_line(&mut config, "color = #123456");
    botserver::apply_product_line(&mut config, "footer = All yours");
    botserver::apply_product_line(&mut config, "docs = https://docs.acme.example");
    assert_eq!(config.company, Some("Acme Inc".to_string()));
    assert_eq!(config.support_email, Some("help@acme.example".to_string()));
    assert_eq!(config.primary_color, Some("#123456".to_string()));
    assert_eq!(config.footer_text, Some("All yours".to_string()));
    assert_eq!(config.docs_url, Some("https://docs.acme.example".to_string()));
}

#[test]
fn test_apply_product_line_value_keeps_inner_equals() {
    let mut config = BrandingConfig::default();
    botserver::apply_product_line(&mut config, "logo_url = https://a.example/x?b=c");
    assert_eq!(config.logo_url, Some("https://a.example/x?b=c".to_string()));
}

#[test]
fn test_derive_short_name() {
    assert_eq!(botserver::derive_short_name("General Bots"), "GB");
    assert_eq!(botserver::derive_short_name("  acme   bot works "), "ABW");
    assert_eq!(botserver::derive_short_name("solo"), "S");
    assert_eq!(botserver::derive_short_name(""), "");
    assert_eq!(botserver::derive_short_name("   "), "");
    assert_eq!(botserver::derive_short_name("9 lives"), "9L");
}

#[test]
fn test_copyright_text() {
    let mut config = BrandingConfig::default();
    config.copyright = Some("© 2001 Somebody".to_string());
    assert_eq!(botserver::copyright_text(&config), "© 2001 Somebody");

    config.copyright = None;
    let line = botserver::copyright_text(&config);
    assert!(line.starts_with("© "));
    assert!(line.ends_with(" pragmatismo.com.br"));

    config.company = None;
    let line = botserver::copyright_text(&config);
    assert!(line.ends_with(" General Bots"));
}
