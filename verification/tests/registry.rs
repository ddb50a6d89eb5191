use pkg_export::format_for;
use pkg_export::Error;
use pkg_export::Platform;
use pkg_export::Message;
use pkg_export::PackageIdent;
use pkg_export::Ui;

const KEYWORDS: [&str; 4] = ["docker", "aci", "mesos", "tar"];

fn unsupported() -> Platform {
    Platform::Unsupported(vec!["hab".to_string(), "pkg".to_string(), "export".to_string()])
}

fn resolved(keyword: &str) -> (String, String) {
    let mut ui = Ui::new();
    let format = format_for(&mut ui, &Platform::Supported, keyword).unwrap();
    assert!(ui.messages.is_empty());
    (format.pkg_ident().to_string(), format.cmd().to_string())
}

#[test]
fn docker_resolves_to_its_helper() {
    assert_eq!(
        resolved("docker"),
        ("core/hab-pkg-dockerize".to_string(), "hab-pkg-dockerize".to_string())
    );
}

#[test]
fn aci_resolves_to_its_helper() {
    assert_eq!(resolved("aci"), ("core/hab-pkg-aci".to_string(), "hab-pkg-aci".to_string()));
}

#[test]
fn mesos_resolves_to_its_helper() {
    assert_eq!(
        resolved("mesos"),
        ("core/hab-pkg-mesosize".to_string(), "hab-pkg-mesosize".to_string())
    );
}

#[test]
fn tar_resolves_to_its_helper() {
    assert_eq!(
        resolved("tar"),
        ("core/hab-pkg-tarize".to_string(), "hab-pkg-tarize".to_string())
    );
}

#[test]
fn helper_identifier_has_origin_and_name_only() {
    let mut ui = Ui::new();
    let format = format_for(&mut ui, &Platform::Supported, "tar").unwrap();
    assert_eq!(
        *format.pkg_ident(),
        PackageIdent {
            origin: "core".to_string(),
            name: "hab-pkg-tarize".to_string(),
            version: None,
            release: None,
        }
    );
}

#[test]
fn helpers_are_not_empty_and_differ() {
    let all: Vec<(String, String)> = KEYWORDS.iter().map(|k| resolved(k)).collect();
    for (i, (ident, cmd)) in all.iter().enumerate() {
        assert!(!ident.is_empty());
        assert!(!cmd.is_empty());
        for (other_ident, other_cmd) in &all[i + 1..] {
            assert_ne!(ident, other_ident);
            assert_ne!(cmd, other_cmd);
        }
    }
}

#[test]
fn unknown_keyword_is_refused() {
    let mut ui = Ui::new();
    assert_eq!(
        format_for(&mut ui, &Platform::Supported, "zzz"),
        Err(Error::UnsupportedFormat("zzz".to_string()))
    );
    assert!(ui.messages.is_empty());
}

#[test]
fn keywords_are_case_sensitive() {
    let mut ui = Ui::new();
    assert_eq!(
        format_for(&mut ui, &Platform::Supported, "Tar"),
        Err(Error::UnsupportedFormat("Tar".to_string()))
    );
    assert_eq!(
        format_for(&mut ui, &Platform::Supported, "DOCKER"),
        Err(Error::UnsupportedFormat("DOCKER".to_string()))
    );
}

#[test]
fn empty_and_padded_keywords_are_refused() {
    let mut ui = Ui::new();
    assert_eq!(
        format_for(&mut ui, &Platform::Supported, ""),
        Err(Error::UnsupportedFormat(String::new()))
    );
    assert_eq!(
        format_for(&mut ui, &Platform::Supported, "tar "),
        Err(Error::UnsupportedFormat("tar ".to_string()))
    );
}

#[test]
fn unsupported_platform_refuses_a_valid_keyword() {
    for keyword in KEYWORDS {
        let mut ui = Ui::new();
        assert_eq!(
            format_for(&mut ui, &unsupported(), keyword),
            Err(Error::UnsupportedFormat(keyword.to_string()))
        );
        assert_eq!(ui.messages.len(), 2);
    }
}

#[test]
fn unsupported_platform_warns_with_the_keyword() {
    let mut ui = Ui::new();
    let refused = format_for(&mut ui, &unsupported(), "tar");
    assert_eq!(refused, Err(Error::UnsupportedFormat("tar".to_string())));
    assert_eq!(
        ui.messages,
        vec![
            Message::Warn(
                "\u{2205} Exporting tar packages from this operating system is not yet supported. \
                 Try running this command again on a 64-bit Linux operating system.\n"
                    .to_string()
            ),
            Message::Br,
        ]
    );
}

#[test]
fn unsupported_platform_refuses_an_unknown_keyword() {
    let mut ui = Ui::new();
    assert_eq!(
        format_for(&mut ui, &unsupported(), "zzz"),
        Err(Error::UnsupportedFormat("zzz".to_string()))
    );
    assert_eq!(
        ui.messages[0],
        Message::Warn(
            "\u{2205} Exporting zzz packages from this operating system is not yet supported. \
             Try running this command again on a 64-bit Linux operating system.\n"
                .to_string()
        )
    );
    assert_eq!(ui.messages[1], Message::Br);
}

#[test]
fn warning_follows_earlier_lines() {
    let mut ui = Ui::new();
    ui.warn("earlier".to_string());
    let _ = format_for(&mut ui, &unsupported(), "aci");
    assert_eq!(ui.messages.len(), 3);
    assert_eq!(ui.messages[0], Message::Warn("earlier".to_string()));
    assert_eq!(ui.messages[2], Message::Br);
}

#[test]
fn clone_of_a_format_is_the_same_format() {
    let mut ui = Ui::new();
    let format = format_for(&mut ui, &Platform::Supported, "mesos").unwrap();
    assert_eq!(format.clone(), format);
}
