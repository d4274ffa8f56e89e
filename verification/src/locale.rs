//! The messages of the user interface, in English and in Turkish.

use crate::text::{lowercase_of, same_text, to_lowercase};
use vstd::prelude::*;
use vstd::string::*;

verus! {

/// The Turkish text for a message key; a key without a text stands for
/// itself.
pub open spec fn turkish(key: Seq<char>) -> Seq<char> {
    if key == "booting"@ {
        "Başlatılıyor..."@
    } else if key == "halting"@ {
        "Durduruluyor..."@
    } else if key == "success_start"@ {
        "arka planda başarıyla çalışıyor"@
    } else if key == "success_stop"@ {
        "temiz bir şekilde kapatıldı! (Zombi proses yok)"@
    } else if key == "specify_stop"@ {
        "Lütfen durdurulacak paketi belirtin (Örn: cargo run -- stop php)"@
    } else if key == "status_fetching"@ {
        "FAMPP ortam durumu getiriliyor..."@
    } else if key == "active"@ {
        "Aktif"@
    } else if key == "stopped"@ {
        "Durdu"@
    } else if key == "service"@ {
        "Servis"@
    } else if key == "status"@ {
        "Durum"@
    } else if key == "port_info"@ {
        "Port / Bilgi"@
    } else if key == "tip_monitor"@ {
        "Bir servisi izlemek için şunu kullanın:"@
    } else if key == "tip_boot"@ {
        "Ortamınızı başlatmak için şunu kullanın:"@
    } else if key == "no_active_services"@ {
        "Aktif bir servis yok"@
    } else if key == "help_usage"@ {
        "Kullanım:"@
    } else if key == "help_commands"@ {
        "Komutlar:"@
    } else if key == "cmd_install"@ {
        "Yeni bir paket indirir ve kurar (php, mysql, adminer)"@
    } else if key == "cmd_start"@ {
        "Belirtilen servisi arka planda (daemon) başlatır"@
    } else if key == "cmd_stop"@ {
        "Çalışan bir servisi zombi bırakmadan temizce durdurur"@
    } else if key == "cmd_status"@ {
        "Tüm servislerin anlık durumunu ve portlarını listeler"@
    } else if key == "cmd_logs"@ {
        "Bir servisin canlı kayıtlarını (stdout/stderr) izler"@
    } else if key == "cmd_help"@ {
        "Bu şık yardım menüsünü ekrana yazdırır"@
    } else if key == "log_not_found"@ {
        "Log dosyası bulunamadı. Servis başlatılmamış olabilir:"@
    } else if key == "log_live_stream"@ {
        "CANLI KAYIT AKIŞI:"@
    } else if key == "log_exit_tip"@ {
        "Çıkış yapmak ve terminale dönmek için Ctrl+C tuşlarına basın"@
    } else if key == "log_read_error"@ {
        "Log dosyası okunamıyor. İzinleri kontrol edin."@
    } else {
        key
    }
}

/// The English text for a message key; a key without a text stands for
/// itself.
pub open spec fn english(key: Seq<char>) -> Seq<char> {
    if key == "booting"@ {
        "Booting..."@
    } else if key == "halting"@ {
        "Halting..."@
    } else if key == "success_start"@ {
        "is running in the background"@
    } else if key == "success_stop"@ {
        "terminated cleanly! (No zombies left behind)"@
    } else if key == "specify_stop"@ {
        "Please specify a package name to stop (e.g., 'cargo run -- stop php')."@
    } else if key == "status_fetching"@ {
        "Fetching FAMPP environment status..."@
    } else if key == "active"@ {
        "Active"@
    } else if key == "stopped"@ {
        "Stopped"@
    } else if key == "service"@ {
        "Service"@
    } else if key == "status"@ {
        "Status"@
    } else if key == "port_info"@ {
        "Port / Info"@
    } else if key == "tip_monitor"@ {
        "To monitor a service use:"@
    } else if key == "tip_boot"@ {
        "To boot up your environment use:"@
    } else if key == "no_active_services"@ {
        "No active services"@
    } else if key == "help_usage"@ {
        "Usage:"@
    } else if key == "help_commands"@ {
        "Commands:"@
    } else if key == "cmd_install"@ {
        "Downloads and installs a new package (php, mysql, adminer)"@
    } else if key == "cmd_start"@ {
        "Boots up the specified service in the background (daemon)"@
    } else if key == "cmd_stop"@ {
        "Cleanly terminates a running service leaving no zombies"@
    } else if key == "cmd_status"@ {
        "Displays the current status and ports of all services"@
    } else if key == "cmd_logs"@ {
        "Tails the live output (stdout/stderr) of a service"@
    } else if key == "cmd_help"@ {
        "Prints this beautiful help menu"@
    } else if key == "log_not_found"@ {
        "Log file not found. The service may not have been started:"@
    } else if key == "log_live_stream"@ {
        "LIVE LOG STREAM:"@
    } else if key == "log_exit_tip"@ {
        "Press Ctrl+C to exit and return to the terminal"@
    } else if key == "log_read_error"@ {
        "Cannot read the log file. Check permissions."@
    } else {
        key
    }
}

/// The text for a message key in the language with the tag `lang`:
/// Turkish for `tr`, English for every other tag.
pub open spec fn text_for(lang: Seq<char>, key: Seq<char>) -> Seq<char> {
    if lang == "tr"@ {
        turkish(key)
    } else {
        english(key)
    }
}

/// The language in which messages are shown.
pub struct I18n {
    lang: String,
}

impl I18n {
    /// The language tag, in lower case.
    pub closed spec fn lang(&self) -> Seq<char> {
        self.lang@
    }

    /// Takes a language tag in any case.
    pub fn new(lang: &str) -> (r: Self)
        ensures
            r.lang() == lowercase_of(lang@),
    {
        I18n { lang: to_lowercase(lang) }
    }

    /// Takes a language tag that is in lower case already.
    pub fn with_tag(tag: &str) -> (r: Self)
        ensures
            r.lang() == tag@,
    {
        I18n { lang: String::from_str(tag) }
    }

    /// The text for `key` in this language.
    pub fn t<'a>(&self, key: &'a str) -> (r: &'a str)
        ensures
            r@ == text_for(self.lang(), key@),
    {
        if same_text(self.lang.as_str(), "tr") {
            turkish_text(key)
        } else {
            english_text(key)
        }
    }
}

fn turkish_text<'a>(key: &'a str) -> (r: &'a str)
    ensures
        r@ == turkish(key@),
{
    if same_text(key, "booting") {
        "Başlatılıyor..."
    } else if same_text(key, "halting") {
        "Durduruluyor..."
    } else if same_text(key, "success_start") {
        "arka planda başarıyla çalışıyor"
    } else if same_text(key, "success_stop") {
        "temiz bir şekilde kapatıldı! (Zombi proses yok)"
    } else if same_text(key, "specify_stop") {
        "Lütfen durdurulacak paketi belirtin (Örn: cargo run -- stop php)"
    } else if same_text(key, "status_fetching") {
        "FAMPP ortam durumu getiriliyor..."
    } else if same_text(key, "active") {
        "Aktif"
    } else if same_text(key, "stopped") {
        "Durdu"
    } else if same_text(key, "service") {
        "Servis"
    } else if same_text(key, "status") {
        "Durum"
    } else if same_text(key, "port_info") {
        "Port / Bilgi"
    } else if same_text(key, "tip_monitor") {
        "Bir servisi izlemek için şunu kullanın:"
    } else if same_text(key, "tip_boot") {
        "Ortamınızı başlatmak için şunu kullanın:"
    } else if same_text(key, "no_active_services") {
        "Aktif bir servis yok"
    } else if same_text(key, "help_usage") {
        "Kullanım:"
    } else if same_text(key, "help_commands") {
        "Komutlar:"
    } else if same_text(key, "cmd_install") {
        "Yeni bir paket indirir ve kurar (php, mysql, adminer)"
    } else if same_text(key, "cmd_start") {
        "Belirtilen servisi arka planda (daemon) başlatır"
    } else if same_text(key, "cmd_stop") {
        "Çalışan bir servisi zombi bırakmadan temizce durdurur"
    } else if same_text(key, "cmd_status") {
        "Tüm servislerin anlık durumunu ve portlarını listeler"
    } else if same_text(key, "cmd_logs") {
        "Bir servisin canlı kayıtlarını (stdout/stderr) izler"
    } else if same_text(key, "cmd_help") {
        "Bu şık yardım menüsünü ekrana yazdırır"
    } else if same_text(key, "log_not_found") {
        "Log dosyası bulunamadı. Servis başlatılmamış olabilir:"
    } else if same_text(key, "log_live_stream") {
        "CANLI KAYIT AKIŞI:"
    } else if same_text(key, "log_exit_tip") {
        "Çıkış yapmak ve terminale dönmek için Ctrl+C tuşlarına basın"
    } else if same_text(key, "log_read_error") {
        "Log dosyası okunamıyor. İzinleri kontrol edin."
    } else {
        key
    }
}

fn english_text<'a>(key: &'a str) -> (r: &'a str)
    ensures
        r@ == english(key@),
{
    if same_text(key, "booting") {
        "Booting..."
    } else if same_text(key, "halting") {
        "Halting..."
    } else if same_text(key, "success_start") {
        "is running in the background"
    } else if same_text(key, "success_stop") {
        "terminated cleanly! (No zombies left behind)"
    } else if same_text(key, "specify_stop") {
        "Please specify a package name to stop (e.g., 'cargo run -- stop php')."
    } else if same_text(key, "status_fetching") {
        "Fetching FAMPP environment status..."
    } else if same_text(key, "active") {
        "Active"
    } else if same_text(key, "stopped") {
        "Stopped"
    } else if same_text(key, "service") {
        "Service"
    } else if same_text(key, "status") {
        "Status"
    } else if same_text(key, "port_info") {
        "Port / Info"
    } else if same_text(key, "tip_monitor") {
        "To monitor a service use:"
    } else if same_text(key, "tip_boot") {
        "To boot up your environment use:"
    } else if same_text(key, "no_active_services") {
        "No active services"
    } else if same_text(key, "help_usage") {
        "Usage:"
    } else if same_text(key, "help_commands") {
        "Commands:"
    } else if same_text(key, "cmd_install") {
        "Downloads and installs a new package (php, mysql, adminer)"
    } else if same_text(key, "cmd_start") {
        "Boots up the specified service in the background (daemon)"
    } else if same_text(key, "cmd_stop") {
        "Cleanly terminates a running service leaving no zombies"
    } else if same_text(key, "cmd_status") {
        "Displays the current status and ports of all services"
    } else if same_text(key, "cmd_logs") {
        "Tails the live output (stdout/stderr) of a service"
    } else if same_text(key, "cmd_help") {
        "Prints this beautiful help menu"
    } else if same_text(key, "log_not_found") {
        "Log file not found. The service may not have been started:"
    } else if same_text(key, "log_live_stream") {
        "LIVE LOG STREAM:"
    } else if same_text(key, "log_exit_tip") {
        "Press Ctrl+C to exit and return to the terminal"
    } else if same_text(key, "log_read_error") {
        "Cannot read the log file. Check permissions."
    } else {
        key
    }
}

} // verus!
