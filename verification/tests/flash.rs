use blog_web::helpers::{flash_label, FlashLabel, FlashMessage};

#[test]
fn constructors_set_the_alert_type() {
    assert_eq!(FlashLabel::success("a").alert_type, "success");
    assert_eq!(FlashLabel::error("b").alert_type, "error");
    assert_eq!(FlashLabel::warning("c").alert_type, "warning");
    assert_eq!(FlashLabel::default("d").alert_type, "default");
    assert_eq!(FlashLabel::default("d").content, "d");
    let n = FlashLabel::none();
    assert_eq!(n.alert_type, "none");
    assert_eq!(n.content, "");
}

#[test]
fn flash_label_follows_the_kind() {
    let cases = [
        ("success", "success"),
        ("error", "error"),
        ("warning", "warning"),
        ("info", "default"),
        ("", "default"),
        ("Success", "default"),
    ];
    for (kind, alert) in cases {
        let flash = Some(FlashMessage::new(kind.to_string(), "hello".to_string()));
        let label = flash_label(&flash);
        assert_eq!(label.alert_type, alert);
        assert_eq!(label.content, "hello");
    }
}

#[test]
fn no_flash_gives_the_none_label() {
    let flash: Option<FlashMessage> = None;
    let label = flash_label(&flash);
    assert_eq!(label.alert_type, "none");
    assert_eq!(label.content, "");
}
