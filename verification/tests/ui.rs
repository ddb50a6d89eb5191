use pkg_export::Message;
use pkg_export::Ui;

#[test]
fn new_record_is_empty() {
    assert!(Ui::new().messages.is_empty());
}

#[test]
fn lines_are_kept_in_order() {
    let mut ui = Ui::new();
    ui.warn("first".to_string());
    ui.br();
    ui.missing("second".to_string());
    assert_eq!(
        ui.messages,
        vec![
            Message::Warn("first".to_string()),
            Message::Br,
            Message::Missing("second".to_string()),
        ]
    );
}
