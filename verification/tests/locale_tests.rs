use fampp::locale::I18n;

#[test]
fn turkish_messages() {
    let i18n = I18n::new("tr");
    assert_eq!(i18n.t("booting"), "Başlatılıyor...");
    assert_eq!(i18n.t("active"), "Aktif");
    assert_eq!(i18n.t("log_read_error"), "Log dosyası okunamıyor. İzinleri kontrol edin.");
    assert_eq!(i18n.t("port_info"), "Port / Bilgi");
}

#[test]
fn english_messages() {
    let i18n = I18n::new("en");
    assert_eq!(i18n.t("booting"), "Booting...");
    assert_eq!(i18n.t("active"), "Active");
    assert_eq!(i18n.t("success_stop"), "terminated cleanly! (No zombies left behind)");
    assert_eq!(i18n.t("log_read_error"), "Cannot read the log file. Check permissions.");
}

#[test]
fn language_tag_is_taken_in_any_case() {
    assert_eq!(I18n::new("TR").t("stopped"), "Durdu");
    assert_eq!(I18n::new("Tr").t("service"), "Servis");
}

#[test]
fn tag_that_is_given_as_it_is() {
    assert_eq!(I18n::with_tag("tr").t("status"), "Durum");
    assert_eq!(I18n::with_tag("TR").t("status"), "Status");
}

#[test]
fn every_other_language_is_english() {
    assert_eq!(I18n::new("de").t("stopped"), "Stopped");
    assert_eq!(I18n::new("").t("help_usage"), "Usage:");
}

#[test]
fn unknown_key_stands_for_itself() {
    assert_eq!(I18n::new("tr").t("no_such_key"), "no_such_key");
    assert_eq!(I18n::new("en").t("no_such_key"), "no_such_key");
    assert_eq!(I18n::new("en").t(""), "");
    assert_eq!(I18n::new("en").t("Booting"), "Booting");
}

#[test]
fn every_key_has_a_text_in_both_languages() {
    let keys = [
        "booting", "halting", "success_start", "success_stop", "specify_stop",
        "status_fetching", "active", "stopped", "service", "status", "port_info",
        "tip_monitor", "tip_boot", "no_active_services", "help_usage", "help_commands",
        "cmd_install", "cmd_start", "cmd_stop", "cmd_status", "cmd_logs", "cmd_help",
        "log_not_found", "log_live_stream", "log_exit_tip", "log_read_error",
    ];
    let tr = I18n::new("tr");
    let en = I18n::new("en");
    for key in keys {
        assert_ne!(tr.t(key), key);
        assert_ne!(en.t(key), key);
        assert_ne!(tr.t(key), en.t(key));
    }
}
