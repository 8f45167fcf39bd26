//! Sprachkatalog – eine Quelle der Wahrheit für GUI, CLI und TUI.
//!
//! Die Übersetzungen liegen bewusst **hier**: Zielnamen werden von der
//! Oberfläche *und* von der Kommandozeile gebraucht.
//!
//! Texte können `{0}`, `{1}`, … enthalten. [`format`] ersetzt sie der Reihe
//! nach; die Oberfläche nutzt dieselbe Konvention.

use vstd::prelude::*;
use crate::zeichen;

use crate::zeichen::{
    dezimal_von, ersetze, folge_anhaengen, gleiche_folge, klein_von,
    teilfolge, text_aus, text_von, zeichen_von,
};

verus! {

/// Unterstützte Sprachen: Kürzel und Eigenbezeichnung.
pub const LANGUAGES: [(&'static str, &'static str); 2] = [("de", "Deutsch"), ("en", "English")];

/// Sprache, die verwendet wird, wenn keine passt.
pub const FALLBACK: &'static str = "en";

/// Anzahl der Katalogeinträge.
pub const ANZAHL: usize = 210;

/// Alle Texte: `(Schlüssel, Deutsch, English)`.
pub const ENTRIES: [(&'static str, &'static str, &'static str); 210] = [
    // --- Anwendung -------------------------------------------------------
    ("app.tagline", "Der schlanke PC-Cleaner – lokal, schnell, ohne Datenübertragung.", "The lightweight PC cleaner – local, fast, no data leaves your device."),
    ("app.welcome_title", "Willkommen bei Plane", "Welcome to Plane"),
    ("app.start", "Loslegen", "Get started"),

    // --- Navigation ------------------------------------------------------
    ("nav.dashboard", "Übersicht", "Dashboard"),
    ("nav.about", "Über Plane", "About Plane"),
    ("nav.settings", "Einstellungen", "Settings"),
    ("nav.back", "Zurück zur Übersicht", "Back to dashboard"),

    // --- Übersicht -------------------------------------------------------
    ("home.title", "Aufräumen", "Clean up"),
    ("home.subtitle", "Plane prüft erst, was sich lohnt – gelöscht wird nur, was Sie auswählen.", "Plane checks what is worth cleaning first – only what you select gets deleted."),
    ("home.analyze", "Analysieren", "Analyze"),
    ("home.analyzing", "Analysiere …", "Analyzing …"),
    ("home.clean", "Bereinigen", "Clean"),
    ("home.cleaning", "Bereinige …", "Cleaning …"),
    ("home.cancel", "Abbrechen", "Cancel"),
    ("home.select_all", "Alles auswählen", "Select all"),
    ("home.select_none", "Auswahl aufheben", "Clear selection"),
    ("home.select_recommended", "Empfohlene Auswahl", "Recommended selection"),
    ("home.dry_run", "Nur simulieren (nichts löschen)", "Simulate only (delete nothing)"),
    ("home.never_scanned", "Noch nicht analysiert", "Not analyzed yet"),
    ("home.nothing_found", "Nichts zu bereinigen – alles sauber.", "Nothing to clean – all tidy."),
    ("home.selected_size", "{0} ausgewählt", "{0} selected"),
    ("home.found_total", "{0} in {1} Einträgen gefunden", "{0} found across {1} items"),

    // --- Laufwerk --------------------------------------------------------
    ("disk.title", "Systemlaufwerk {0}", "System drive {0}"),
    ("disk.free", "{0} frei", "{0} free"),
    ("disk.of_total", "von {0}", "of {0}"),
    ("disk.used_percent", "{0} % belegt", "{0}% used"),

    // --- Kategorien ------------------------------------------------------
    ("category.system", "System", "System"),
    ("category.browsers", "Browser", "Browsers"),
    ("category.apps", "Anwendungen", "Applications"),
    ("category.installers", "Installationsdateien", "Installer files"),
    ("category.recyclebin", "Papierkorb", "Recycle Bin"),
    ("category.registry", "Registry", "Registry"),

    // --- Risikostufen ----------------------------------------------------
    ("risk.safe", "Unbedenklich", "Safe"),
    ("risk.notice", "Mit Nebenwirkung", "Has side effects"),
    ("risk.caution", "Vorsicht", "Caution"),
    ("risk.safe.hint", "Wird bei Bedarf automatisch neu erzeugt.", "Recreated automatically when needed."),
    ("risk.notice.hint", "Spürbare Nebenwirkung – bitte Beschreibung lesen.", "Noticeable side effect – please read the description."),
    ("risk.caution.hint", "Kann Daten unwiderruflich entfernen.", "May remove data irreversibly."),
    ("risk.needs_admin", "Administratorrechte nötig", "Requires administrator rights"),
    ("risk.suggestion_only", "Nur Vorschlag – Einzelauswahl nötig", "Suggestion only – select individual files"),

    // --- Zustände und Meldungen -----------------------------------------
    ("status.skipped", "Übersprungen", "Skipped"),
    ("status.failed", "Fehlgeschlagen", "Failed"),
    ("status.ok", "Erledigt", "Done"),
    ("status.cancelled", "Abgebrochen", "Cancelled"),
    ("skip.needs_admin", "Übersprungen: Plane läuft ohne Administratorrechte", "Skipped: Plane is running without administrator rights"),
    ("skip.needs_explicit_selection", "Übersprungen: Bitte einzelne Dateien auswählen", "Skipped: please select individual files"),
    ("warn.process_running", "{0} läuft – gesperrte Dateien bleiben erhalten", "{0} is running – locked files will remain"),
    ("error.service_stop", "Dienst konnte nicht gestoppt werden: {0}", "Could not stop service: {0}"),
    ("error.service_start", "Dienst konnte nicht neu gestartet werden: {0}", "Could not restart service: {0}"),
    ("error.registry_backup", "Registry-Sicherung fehlgeschlagen – es wurde nichts geändert: {0}", "Registry backup failed – nothing was changed: {0}"),
    ("clean.failed", "Fehlgeschlagen: {0}", "Failed: {0}"),
    ("clean.summary", "{0} freigegeben, {1} Einträge entfernt", "{0} freed, {1} items removed"),
    ("clean.dry_run_summary", "Simulation: {0} würden freigegeben ({1} Einträge)", "Simulation: {0} would be freed ({1} items)"),
    ("clean.registry_backup", "Registry gesichert unter {0}", "Registry backed up to {0}"),
    ("clean.locked", "{0} Einträge waren in Benutzung und bleiben erhalten", "{0} items were in use and were kept"),
    ("clean.locked_hint", "Das ist normal – ein laufendes Programm hält seine Dateien offen. Administratorrechte ändern daran nichts; schließen Sie das Programm und starten Sie erneut.", "This is normal – a running program keeps its files open. Administrator rights do not help; close the program and run again."),
    ("clean.denied", "{0} Einträge brauchten höhere Rechte", "{0} items needed higher privileges"),
    ("clean.denied_hint", "Mit Administratorrechten neu starten, um diese Einträge zu entfernen.", "Restart with administrator rights to remove these items."),
    ("clean.log_written", "Protokoll: {0}", "Log: {0}"),

    // --- Administratorrechte ---------------------------------------------
    ("admin.restart", "Als Administrator neu starten", "Restart as administrator"),
    ("admin.restart_hint", "Windows fragt dabei nach Ihrer Zustimmung. Plane startet neu; nicht gespeicherte Auswahl geht verloren.", "Windows will ask for your consent. Plane restarts; an unsaved selection is lost."),
    ("admin.already", "Plane läuft bereits mit Administratorrechten.", "Plane is already running with administrator rights."),
    ("admin.failed", "Neustart als Administrator abgebrochen oder fehlgeschlagen.", "Restart as administrator was cancelled or failed."),

    // --- Deinstallation ---------------------------------------------------
    ("uninstall.title", "Programme", "Programs"),
    ("uninstall.subtitle", "Installierte Programme ansehen und entfernen. Plane startet den Deinstaller des jeweiligen Herstellers – es löscht nichts selbst.", "View and remove installed programs. Plane starts each vendor's own uninstaller – it deletes nothing itself."),
    ("uninstall.search", "Suchen", "Search"),
    ("uninstall.count", "{0} Programme, {1} gesperrt", "{0} programs, {1} protected"),
    ("uninstall.remove", "Deinstallieren", "Uninstall"),
    ("uninstall.removing", "Deinstalliere {0} …", "Uninstalling {0} …"),
    ("uninstall.confirm", "„{0}“ wirklich deinstallieren? Plane startet dazu den Deinstaller des Herstellers.", "Really uninstall “{0}”? Plane will start the vendor’s uninstaller."),
    ("uninstall.quiet_hint", "Läuft ohne weitere Rückfrage durch.", "Runs through without further prompts."),
    ("uninstall.loud_hint", "Der Deinstaller öffnet ein eigenes Fenster.", "The uninstaller opens its own window."),
    ("uninstall.needs_admin", "Braucht Administratorrechte", "Requires administrator rights"),
    ("uninstall.done", "„{0}“ wurde entfernt.", "“{0}” was removed."),
    ("uninstall.unverified", "Der Deinstaller meldet Erfolg, der Eintrag ist aber noch vorhanden. Manche Programme räumen verzögert auf – bitte später prüfen.", "The uninstaller reported success but the entry is still there. Some programs clean up with a delay – please check again later."),
    ("uninstall.not_installed", "War bereits nicht mehr installiert.", "Was already not installed."),
    ("uninstall.user_cancelled", "Vom Nutzer abgebrochen.", "Cancelled by the user."),
    ("uninstall.installer_busy", "Eine andere Installation läuft gerade. Bitte später erneut versuchen.", "Another installation is running. Please try again later."),
    ("uninstall.blocked_by_policy", "Durch eine Richtlinie Ihrer Organisation verboten.", "Blocked by a policy of your organization."),
    ("uninstall.failed", "Die Deinstallation ist fehlgeschlagen.", "The uninstallation failed."),
    ("uninstall.reboot_required", "Erfolgreich – ein Neustart schließt die Entfernung ab.", "Succeeded – a restart completes the removal."),
    ("uninstall.reboot_started", "Erfolgreich – Windows startet den Rechner neu.", "Succeeded – Windows is restarting the computer."),
    ("uninstall.no_command", "Für diesen Eintrag ist kein Deinstaller hinterlegt.", "No uninstaller is registered for this entry."),
    ("uninstall.windows_only", "Deinstallation gibt es nur unter Windows.", "Uninstalling is only available on Windows."),
    ("uninstall.protected", "Dieser Eintrag ist geschützt und wird nicht entfernt.", "This entry is protected and will not be removed."),
    ("uninstall.protected.runtime", "Laufzeitpaket – andere Programme brauchen es", "Runtime package – other programs depend on it"),
    ("uninstall.protected.security", "Sicherheitssoftware", "Security software"),
    ("uninstall.protected.driver", "Treiberpaket", "Driver package"),
    ("uninstall.protected.update", "Windows-Update", "Windows update"),
    ("uninstall.protected.system", "Systembestandteil von Windows", "Part of Windows itself"),
    ("uninstall.protected.self", "Das ist Plane selbst", "This is Plane itself"),
    ("uninstall.protected.noremove", "Windows bietet für diesen Eintrag keine Deinstallation an", "Windows does not offer to uninstall this entry"),
    ("uninstall.protected.no_uninstaller", "Kein Deinstaller hinterlegt", "No uninstaller registered"),
    ("uninstall.source.machine", "Für alle Benutzer", "All users"),
    ("uninstall.source.machine32", "Für alle Benutzer (32-Bit)", "All users (32-bit)"),
    ("uninstall.source.user", "Nur für Sie", "Just for you"),
    ("uninstall.source.store", "Store-App", "Store app"),

    // --- Protokoll --------------------------------------------------------
    ("log.title", "Protokoll", "Log"),
    ("log.open", "Protokoll öffnen", "Open log"),
    ("log.hint", "Jeder Lauf wird mitgeschrieben – hilfreich, wenn etwas nicht wie erwartet lief.", "Every run is recorded – useful when something did not go as expected."),
    ("log.none", "Noch kein Protokoll vorhanden.", "No log yet."),

    // --- Bestätigung -----------------------------------------------------
    ("confirm.title", "Bestätigung erforderlich", "Confirmation required"),
    ("confirm.intro", "Die folgenden Punkte werden ohne Freigabe übersprungen:", "The following items are skipped without your approval:"),
    ("confirm.warning", "Unwiderruflich gelöschte Daten lassen sich nicht wiederherstellen.", "Data deleted irreversibly cannot be restored."),
    ("confirm.accept", "Trotzdem ausführen", "Run anyway"),
    ("confirm.cancel", "Abbrechen", "Cancel"),

    // --- Einstellungen ---------------------------------------------------
    ("settings.title", "Einstellungen", "Settings"),
    ("settings.language", "Sprache", "Language"),
    ("settings.language.hint", "Gilt sofort für die gesamte Oberfläche.", "Applies immediately across the interface."),
    ("settings.theme", "Erscheinungsbild", "Appearance"),
    ("settings.theme.system", "Wie das System", "Match system"),
    ("settings.theme.light", "Hell", "Light"),
    ("settings.theme.dark", "Dunkel", "Dark"),
    ("settings.confirm_risky", "Vor riskanten Schritten nachfragen", "Ask before risky steps"),
    ("settings.confirm_risky.hint", "Dringend empfohlen. Ohne Nachfrage löscht Plane auch Unwiderrufliches.", "Strongly recommended. Without it Plane also deletes irreversible items."),
    ("settings.dry_run_default", "Standardmäßig nur simulieren", "Simulate by default"),
    ("settings.dry_run_default.hint", "Zeigt bei jedem Lauf nur an, was passieren würde.", "Every run only shows what would happen."),
    ("settings.reset_welcome", "Willkommensbildschirm erneut zeigen", "Show welcome screen again"),
    ("settings.close", "Schließen", "Close"),
    ("settings.saved", "Gespeichert", "Saved"),

    // --- Über ------------------------------------------------------------
    ("about.subtitle", "PC-Cleaner für Windows", "PC cleaner for Windows"),
    ("about.made_in", "Entwickelt mit Windows und Liebe in Deutschland.", "Made with Windows and love in Germany."),
    ("about.technical", "Technische Details", "Technical details"),
    ("about.opensource", "Open Source", "Open source"),
    ("about.system", "System", "System"),
    ("about.admin_yes", "Mit Administratorrechten gestartet", "Running with administrator rights"),
    ("about.admin_no", "Ohne Administratorrechte – einige Ziele werden übersprungen", "Without administrator rights – some targets are skipped"),

    // --- Ziele: System ---------------------------------------------------
    ("target.system.temp.user.name", "Temporäre Dateien", "Temporary files"),
    ("target.system.temp.user.description", "Der Ablageordner, in dem Programme Zwischendateien anlegen und oft vergessen.", "The folder where programs drop scratch files and often forget them."),
    ("target.system.temp.windows.name", "Temporäre Systemdateien", "System temporary files"),
    ("target.system.temp.windows.description", "Zwischendateien, die Windows selbst und Installationsprogramme hinterlassen.", "Scratch files left behind by Windows itself and by installers."),
    ("target.system.thumbnails.name", "Miniaturansichten", "Thumbnail cache"),
    ("target.system.thumbnails.description", "Vorschaubilder und Symbolzwischenspeicher des Explorers. Der erste Ordneraufruf dauert danach kurz länger.", "Explorer's preview images and icon cache. Opening a folder is slightly slower the first time afterwards."),
    ("target.system.inetcache.name", "Internet-Zwischenspeicher", "Internet cache"),
    ("target.system.inetcache.description", "Der systemweite Zwischenspeicher, den Windows-Komponenten für Webinhalte nutzen.", "The system-wide cache Windows components use for web content."),
    ("target.system.errorreports.name", "Fehlerberichte", "Error reports"),
    ("target.system.errorreports.description", "Berichte über abgestürzte Programme, die nie gesendet wurden.", "Reports about crashed programs that were never sent."),
    ("target.system.crashdumps.name", "Absturzabbilder", "Crash dumps"),
    ("target.system.crashdumps.description", "Speicherabbilder von Abstürzen und Bluescreens. Oft mehrere Gigabyte.", "Memory dumps from crashes and blue screens. Often several gigabytes."),
    ("target.system.logs.name", "Windows-Protokolle", "Windows logs"),
    ("target.system.logs.description", "Ältere Protokolldateien von Updates und Systemwartung. Die aktive Datei bleibt.", "Older log files from updates and servicing. The active file is kept."),
    ("target.system.dns.name", "DNS-Zwischenspeicher", "DNS cache"),
    ("target.system.dns.description", "Leert die zwischengespeicherten Namensauflösungen. Hilft bei hängenden Verbindungen, gibt aber keinen Speicher frei.", "Flushes cached name lookups. Helps with stuck connections but frees no space."),
    ("target.system.prefetch.name", "Prefetch-Daten", "Prefetch data"),
    ("target.system.prefetch.description", "Startbeschleunigung von Windows. Wird neu aufgebaut – Programme starten übergangsweise langsamer.", "Windows' startup accelerator. It is rebuilt – programs start more slowly for a while."),
    ("target.system.windowsupdate.name", "Windows-Update-Zwischenspeicher", "Windows Update cache"),
    ("target.system.windowsupdate.description", "Bereits installierte Updatepakete. Die Update-Historie bleibt erhalten.", "Update packages that are already installed. The update history is kept."),
    ("target.system.deliveryoptimization.name", "Übermittlungsoptimierung", "Delivery Optimization"),
    ("target.system.deliveryoptimization.description", "Zwischengespeicherte Update-Teile, die Windows an andere Geräte im Netz weitergibt.", "Cached update chunks Windows shares with other devices on your network."),
    ("target.system.fontcache.name", "Schriftcache", "Font cache"),
    ("target.system.fontcache.description", "Zwischenspeicher der Schriftdarstellung. Nach dem Leeren empfiehlt sich ein Neustart.", "Cache for font rendering. A restart is recommended afterwards."),
    ("target.system.recentdocs.name", "Zuletzt verwendete Dokumente", "Recent documents"),
    ("target.system.recentdocs.description", "Die Liste zuletzt geöffneter Dateien. Die Dateien selbst bleiben unberührt.", "The list of recently opened files. The files themselves are untouched."),
    ("target.system.searchcache.name", "Suche-Symbolcache", "Search icon cache"),
    ("target.system.searchcache.description", "Symbolzwischenspeicher der Windows-Suche.", "Icon cache of Windows Search."),
    ("target.system.windowsold.name", "Windows.old", "Windows.old"),
    ("target.system.windowsold.description", "Die vorherige Windows-Installation. Nach dem Löschen ist keine Rückkehr zur alten Version mehr möglich.", "Your previous Windows installation. Once deleted you cannot roll back to the old version."),

    // --- Ziele: Papierkorb ----------------------------------------------
    ("target.recyclebin.all.name", "Papierkorb leeren", "Empty Recycle Bin"),
    ("target.recyclebin.all.description", "Entfernt den Inhalt auf allen Laufwerken endgültig. Genau hier findet man versehentlich Gelöschtes wieder.", "Permanently removes the contents on all drives. This is exactly where accidentally deleted files are recovered from."),

    // --- Ziele: Browser --------------------------------------------------
    ("target.browser.edge.cache.name", "Microsoft Edge – Zwischenspeicher", "Microsoft Edge – cache"),
    ("target.browser.edge.cache.description", "Zwischengespeicherte Webinhalte. Anmeldungen und Verlauf bleiben erhalten.", "Cached web content. Logins and history are kept."),
    ("target.browser.chrome.cache.name", "Google Chrome – Zwischenspeicher", "Google Chrome – cache"),
    ("target.browser.chrome.cache.description", "Zwischengespeicherte Webinhalte. Anmeldungen und Verlauf bleiben erhalten.", "Cached web content. Logins and history are kept."),
    ("target.browser.firefox.cache.name", "Mozilla Firefox – Zwischenspeicher", "Mozilla Firefox – cache"),
    ("target.browser.firefox.cache.description", "Zwischengespeicherte Webinhalte. Anmeldungen und Verlauf bleiben erhalten.", "Cached web content. Logins and history are kept."),
    ("target.browser.brave.cache.name", "Brave – Zwischenspeicher", "Brave – cache"),
    ("target.browser.brave.cache.description", "Zwischengespeicherte Webinhalte. Anmeldungen und Verlauf bleiben erhalten.", "Cached web content. Logins and history are kept."),
    ("target.browser.opera.cache.name", "Opera – Zwischenspeicher", "Opera – cache"),
    ("target.browser.opera.cache.description", "Zwischengespeicherte Webinhalte, auch für Opera GX. Anmeldungen bleiben erhalten.", "Cached web content, including Opera GX. Logins are kept."),
    ("target.browser.vivaldi.cache.name", "Vivaldi – Zwischenspeicher", "Vivaldi – cache"),
    ("target.browser.vivaldi.cache.description", "Zwischengespeicherte Webinhalte. Anmeldungen und Verlauf bleiben erhalten.", "Cached web content. Logins and history are kept."),
    ("target.browser.cookies.name", "Cookies aller Browser", "Cookies in all browsers"),
    ("target.browser.cookies.description", "Sie werden anschließend auf allen Websites abgemeldet.", "You will be signed out of every website afterwards."),
    ("target.browser.history.name", "Browserverlauf", "Browsing history"),
    ("target.browser.history.description", "Besuchte Seiten und Adressvervollständigung. Lesezeichen bleiben erhalten.", "Visited pages and address bar suggestions. Bookmarks are kept."),
    ("target.browser.predictor.name", "Vorhersagedaten", "Prediction data"),
    ("target.browser.predictor.description", "Statistiken, mit denen Browser Ihre nächste Eingabe erraten.", "Statistics browsers use to guess what you type next."),

    // --- Ziele: Anwendungen ---------------------------------------------
    ("target.app.discord.name", "Discord", "Discord"),
    ("target.app.discord.description", "Bild- und Codezwischenspeicher. Die Anmeldung bleibt bestehen.", "Image and code cache. You stay signed in."),
    ("target.app.teams.name", "Microsoft Teams", "Microsoft Teams"),
    ("target.app.teams.description", "Zwischenspeicher und Protokolle, klassisches und neues Teams.", "Cache and logs, both classic and new Teams."),
    ("target.app.spotify.name", "Spotify", "Spotify"),
    ("target.app.spotify.description", "Zwischenspeicher und Protokolle. Heruntergeladene Titel bleiben erhalten.", "Cache and logs. Downloaded tracks are kept."),
    ("target.app.vscode.name", "Visual Studio Code", "Visual Studio Code"),
    ("target.app.vscode.description", "Zwischenspeicher und Protokolle. Der lokale Dateiverlauf bleibt erhalten.", "Cache and logs. The local file history is kept."),
    ("target.app.gpushadercache.name", "Grafik-Shadercache", "GPU shader cache"),
    ("target.app.gpushadercache.description", "Vorkompilierte Grafikbausteine von NVIDIA, AMD, Intel und DirectX. Spiele laden einmalig länger.", "Precompiled graphics shaders from NVIDIA, AMD, Intel and DirectX. Games load slower once."),
    ("target.app.steam.name", "Steam", "Steam"),
    ("target.app.steam.description", "Web- und Protokollzwischenspeicher. Spiele und Spielstände bleiben unberührt.", "Web and log cache. Games and saves are untouched."),
    ("target.app.adobe.name", "Adobe Creative Cloud", "Adobe Creative Cloud"),
    ("target.app.adobe.description", "Medienzwischenspeicher. Premiere und After Effects müssen Material danach neu analysieren.", "Media cache. Premiere and After Effects have to re-conform footage afterwards."),
    ("target.app.java.name", "Java", "Java"),
    ("target.app.java.description", "Zwischenspeicher heruntergeladener Java-Anwendungen.", "Cache of downloaded Java applications."),
    ("target.app.office.name", "Microsoft Office", "Microsoft Office"),
    ("target.app.office.description", "Diagnoseprotokolle und Webdienstzwischenspeicher. Nicht hochgeladene Dokumentänderungen bleiben unberührt.", "Diagnostic logs and web service cache. Pending document changes are untouched."),
    ("target.app.packagemanagers.name", "Entwicklerwerkzeuge (npm, pip)", "Developer tools (npm, pip)"),
    ("target.app.packagemanagers.description", "Paketzwischenspeicher. Nächste Installationen laden erneut aus dem Netz.", "Package caches. The next install downloads from the network again."),

    // --- Ziele: Installationsdateien ------------------------------------
    ("target.installers.downloads.name", "Alte Installationsdateien", "Old installer files"),
    ("target.installers.downloads.description", "Setups in Downloads und auf dem Schreibtisch, älter als 30 Tage und größer als 5 MB. Plane löscht hier nie von selbst – Sie wählen einzeln aus.", "Setups in Downloads and on the desktop, older than 30 days and larger than 5 MB. Plane never deletes these on its own – you pick them individually."),

    // --- Ziele: Registry -------------------------------------------------
    ("target.registry.privacy.name", "Registry-Spuren", "Registry traces"),
    ("target.registry.privacy.description", "Zuletzt-gestartet-Listen. Eine Datenschutzfunktion – sie macht den Rechner nicht schneller.", "Recently-run lists. A privacy feature – it does not make your PC faster."),
    ("target.registry.orphans.name", "Verwaiste Registry-Einträge", "Orphaned registry entries"),
    ("target.registry.orphans.description", "Verweise auf Programme, die es nicht mehr gibt. Microsoft rät von Registry-Bereinigung ab; Plane sichert deshalb vorher automatisch.", "References to programs that no longer exist. Microsoft advises against registry cleaning, so Plane always creates a backup first."),

    // --- CLI -------------------------------------------------------------
    ("cli.description", "Plane – schlanker PC-Cleaner für Windows", "Plane – lightweight PC cleaner for Windows"),
    ("cli.scanning", "Analysiere", "Analyzing"),
    ("cli.no_selection", "Keine Ziele ausgewählt.", "No targets selected."),
    ("cli.total", "Gesamt", "Total"),
    ("cli.aborted", "Abgebrochen.", "Aborted."),
    ("cli.confirm_prompt", "Wirklich bereinigen? [j/N] ", "Really clean? [y/N] "),
    ("cli.confirm_yes", "j", "y"),
];

// ---------------------------------------------------------------------------
// Spezifikation
// ---------------------------------------------------------------------------

/// Sprachkürzel ohne Rücksicht auf Groß-/Kleinschreibung gleich
/// (`eq_ignore_ascii_case`).
pub open spec fn gleich_ohne_gross(a: Seq<char>, b: Seq<char>) -> bool {
    zeichen::klein_folge(a) == zeichen::klein_folge(b)
}

/// Wird Deutsch verlangt?
pub open spec fn ist_deutsch(lang: Seq<char>) -> bool {
    gleich_ohne_gross(lang, "de"@)
}

/// Erster Katalogeintrag ab `i` mit dem Schlüssel `key`.
pub open spec fn eintrag_ab(key: Seq<char>, i: int) -> Option<int>
    decreases ANZAHL - i,
{
    if i < 0 || i >= ANZAHL {
        None
    } else if ENTRIES[i].0@ == key {
        Some(i)
    } else {
        eintrag_ab(key, i + 1)
    }
}

/// Katalogeintrag zu einem Schlüssel.
pub open spec fn eintrag(key: Seq<char>) -> Option<int> {
    eintrag_ab(key, 0)
}

/// Text eines Eintrags in der gewünschten Sprache.
pub open spec fn eintragstext(lang: Seq<char>, i: int) -> Seq<char> {
    if ist_deutsch(lang) {
        ENTRIES[i].1@
    } else {
        ENTRIES[i].2@
    }
}

/// Übersetzter Text; unbekannte Schlüssel geben sich selbst zurück.
pub open spec fn text(lang: Seq<char>, key: Seq<char>) -> Seq<char> {
    match eintrag(key) {
        Some(i) => eintragstext(lang, i),
        None => key,
    }
}

/// Platzhalter `{i}`.
pub open spec fn platzhalter(i: nat) -> Seq<char> {
    seq!['{'] + zeichen::dezimal(i) + seq!['}']
}

/// Text mit den ersten `args.len()` Platzhaltern gefüllt, der Reihe nach.
pub open spec fn gefuellt(text: Seq<char>, args: Seq<Seq<char>>) -> Seq<char>
    decreases args.len(),
{
    if args.len() == 0 {
        text
    } else {
        zeichen::ersetzt(gefuellt(text, args.drop_last()), platzhalter((args.len() - 1) as nat), args.last())
    }
}

/// Die Zeichenfolgen einer Liste von Zeichenketten.
pub open spec fn argumente(args: Seq<&str>) -> Seq<Seq<char>> {
    args.map_values(|a: &str| a@)
}

/// Wird die Sprache unterstützt?
pub open spec fn unterstuetzt(lang: Seq<char>) -> bool {
    exists|i: int| 0 <= i < 2 && gleich_ohne_gross(#[trigger] LANGUAGES[i].0@, lang)
}

/// Erste Stelle ab `i` mit `-` oder `_`, sonst die Länge.
pub open spec fn trennerstelle_ab(s: Seq<char>, i: int) -> int
    decreases s.len() - i,
{
    if i < 0 || i >= s.len() {
        s.len() as int
    } else if s[i] == '-' || s[i] == '_' {
        i
    } else {
        trennerstelle_ab(s, i + 1)
    }
}

/// Der Teil vor dem ersten `-` oder `_` (`split(['-', '_']).next()`).
pub open spec fn vor_trenner(s: Seq<char>) -> Seq<char> {
    s.take(trennerstelle_ab(s, 0))
}

/// Normalisierte Sprache: Basis kleingeschrieben, Unbekanntes wird
/// [`FALLBACK`].
pub open spec fn normalisiert(lang: Seq<char>) -> Seq<char> {
    let basis = zeichen::klein_folge(vor_trenner(lang));
    if unterstuetzt(basis) {
        basis
    } else {
        FALLBACK@
    }
}

proof fn lemma_trennerstelle(s: Seq<char>, i: int)
    requires
        0 <= i <= s.len(),
    ensures
        i <= trennerstelle_ab(s, i) <= s.len(),
    decreases s.len() - i,
{
    if i < s.len() && !(s[i] == '-' || s[i] == '_') {
        lemma_trennerstelle(s, i + 1);
    }
}

// ---------------------------------------------------------------------------
// Ausführung
// ---------------------------------------------------------------------------

/// `eq_ignore_ascii_case` auf Zeichenfolgen.
pub fn gleich_ohne_gross_folge(a: &[char], b: &[char]) -> (r: bool)
    ensures
        r == gleich_ohne_gross(a@, b@),
{
    let x = klein_von(a);
    let y = klein_von(b);
    gleiche_folge(&x, &y)
}

/// `eq_ignore_ascii_case` auf Zeichenketten.
pub fn gleich_ohne_gross_text(a: &str, b: &str) -> (r: bool)
    ensures
        r == gleich_ohne_gross(a@, b@),
{
    let x = zeichen_von(a);
    let y = zeichen_von(b);
    gleich_ohne_gross_folge(&x, &y)
}

/// Index des Katalogeintrags zu einem Schlüssel.
pub fn eintrag_finden(key: &[char]) -> (r: Option<usize>)
    ensures
        match r {
            Some(i) => eintrag(key@) == Some(i as int) && i < ANZAHL,
            None => eintrag(key@) is None,
        },
{
    let mut i: usize = 0;
    while i < ANZAHL
        invariant
            i <= ANZAHL,
            eintrag(key@) == eintrag_ab(key@, i as int),
        decreases ANZAHL - i,
    {
        let e = zeichen_von(ENTRIES[i].0);
        if gleiche_folge(&e, key) {
            return Some(i);
        }
        i = i + 1;
    }
    None
}

/// Übersetzten Text nachschlagen. Unbekannte Schlüssel geben sich selbst
/// zurück – das macht fehlende Übersetzungen sichtbar, statt sie durch leere
/// Felder zu verstecken.
pub fn t(lang: &str, key: &str) -> (r: String)
    ensures
        r@ == text(lang@, key@),
{
    let de = gleich_ohne_gross_text(lang, "de");
    let k = zeichen_von(key);
    match eintrag_finden(&k) {
        Some(i) => {
            if de {
                text_von(ENTRIES[i].1)
            } else {
                text_von(ENTRIES[i].2)
            }
        },
        None => text_von(key),
    }
}

/// Platzhalter `{i}` als Zeichen.
pub fn platzhalter_von(i: usize) -> (r: Vec<char>)
    ensures
        r@ == platzhalter(i as nat),
{
    let mut r: Vec<char> = Vec::new();
    r.push('{');
    let d = dezimal_von(i as u64);
    folge_anhaengen(&mut r, &d);
    r.push('}');
    assert(r@ =~= platzhalter(i as nat));
    r
}

/// Platzhalter `{0}`, `{1}`, … eines Textes der Reihe nach füllen.
pub fn fuellen(text: Vec<char>, args: &[Vec<char>]) -> (r: Vec<char>)
    ensures
        r@ == gefuellt(text@, zeichen::ansichten(args@)),
{
    let ghost anfang = text@;
    let mut text = text;
    let mut i: usize = 0;
    while i < args.len()
        invariant
            i <= args@.len(),
            text@ == gefuellt(anfang, zeichen::ansichten(args@).subrange(0, i as int)),
        decreases args@.len() - i,
    {
        let muster = platzhalter_von(i);
        text = ersetze(&text, &muster, &args[i]);
        proof {
            let bis = zeichen::ansichten(args@).subrange(0, i + 1);
            assert(bis.drop_last() =~= zeichen::ansichten(args@).subrange(0, i as int));
        }
        i = i + 1;
    }
    assert(zeichen::ansichten(args@).subrange(0, i as int) =~= zeichen::ansichten(args@));
    text
}

/// Text mit Platzhaltern `{0}`, `{1}`, … füllen.
pub fn format(lang: &str, key: &str, args: &[&str]) -> (r: String)
    ensures
        r@ == gefuellt(text(lang@, key@), argumente(args@)),
{
    let grund = t(lang, key);
    let mut werte: Vec<Vec<char>> = Vec::new();
    let mut i: usize = 0;
    while i < args.len()
        invariant
            i <= args@.len(),
            werte@.len() == i,
            forall|k: int| 0 <= k < i ==> (#[trigger] werte@[k])@ == args@[k]@,
        decreases args@.len() - i,
    {
        werte.push(zeichen_von(args[i]));
        i = i + 1;
    }
    assert(zeichen::ansichten(werte@) =~= argumente(args@));
    let gefuellt = fuellen(zeichen_von(grund.as_str()), &werte);
    text_aus(&gefuellt)
}

/// Alle Texte einer Sprache – für das Frontend, in Katalogreihenfolge.
pub fn catalog(lang: &str) -> (r: Vec<(String, String)>)
    ensures
        r@.len() == ANZAHL,
        forall|i: int|
            0 <= i < ANZAHL ==> (#[trigger] r@[i]).0@ == ENTRIES[i].0@ && r@[i].1@
                == eintragstext(lang@, i),
        forall|i: int| 0 <= i < ANZAHL ==> (#[trigger] r@[i]).1@ == text(lang@, r@[i].0@),
{
    let de = gleich_ohne_gross_text(lang, "de");
    let mut r: Vec<(String, String)> = Vec::new();
    let mut i: usize = 0;
    while i < ANZAHL
        invariant
            i <= ANZAHL,
            de == ist_deutsch(lang@),
            r@.len() == i,
            forall|j: int|
                0 <= j < i ==> (#[trigger] r@[j]).0@ == ENTRIES[j].0@ && r@[j].1@
                    == eintragstext(lang@, j),
        decreases ANZAHL - i,
    {
        let e = ENTRIES[i];
        let wert = if de {
            text_von(e.1)
        } else {
            text_von(e.2)
        };
        r.push((text_von(e.0), wert));
        i = i + 1;
    }
    assert forall|i: int| 0 <= i < ANZAHL implies (#[trigger] r@[i]).1@ == text(lang@, r@[i].0@) by {
        eintrag_jedes_schluessels(i);
    }
    r
}

/// `true`, wenn die Sprache unterstützt wird.
pub fn is_supported(lang: &str) -> (r: bool)
    ensures
        r == unterstuetzt(lang@),
{
    let l = zeichen_von(lang);
    let mut i: usize = 0;
    while i < 2
        invariant
            i <= 2,
            l@ == lang@,
            forall|j: int| 0 <= j < i ==> !gleich_ohne_gross(#[trigger] LANGUAGES[j].0@, lang@),
        decreases 2 - i,
    {
        let k = zeichen_von(LANGUAGES[i].0);
        if gleich_ohne_gross_folge(&k, &l) {
            assert(gleich_ohne_gross(LANGUAGES[i as int].0@, lang@));
            return true;
        }
        assert(!gleich_ohne_gross(LANGUAGES[i as int].0@, lang@));
        i = i + 1;
    }
    false
}

/// Sprache normalisieren: `de-DE` → `de`, Unbekanntes → [`FALLBACK`].
pub fn normalize(lang: &str) -> (r: String)
    ensures
        r@ == normalisiert(lang@),
{
    let l = zeichen_von(lang);
    let mut ende: usize = 0;
    while ende < l.len() && l[ende] != '-' && l[ende] != '_'
        invariant
            ende <= l@.len(),
            l@ == lang@,
            trennerstelle_ab(l@, 0) == trennerstelle_ab(l@, ende as int),
        decreases l@.len() - ende,
    {
        ende = ende + 1;
    }
    assert(trennerstelle_ab(l@, ende as int) == ende);
    let vorne = teilfolge(&l, 0, ende);
    assert(vorne@ =~= vor_trenner(lang@));
    let basis = klein_von(&vorne);
    let basis_text = text_aus(&basis);
    if is_supported(basis_text.as_str()) {
        basis_text
    } else {
        text_von(FALLBACK)
    }
}

// ---------------------------------------------------------------------------
// Eindeutigkeit der Schlüssel
// ---------------------------------------------------------------------------

/// Wert des Zeichens an Stelle `p` (negativ: von hinten gezählt); 0, wenn
/// es die Stelle nicht gibt.
pub open spec fn zeichenwert(s: Seq<char>, p: int) -> int {
    let q = if p < 0 { s.len() + p } else { p };
    if 0 <= q < s.len() { s[q] as int + 1 } else { 0 }
}

/// Kennzahl eines Schlüssels aus seiner Länge und sechs seiner Zeichen.
/// Schlüssel mit verschiedener Kennzahl sind verschieden.
pub open spec fn kennzahl(s: Seq<char>) -> int {
    let v0 = s.len() as int;
    let v1 = v0 * 256 + zeichenwert(s, -6);
    let v2 = v1 * 256 + zeichenwert(s, 14);
    let v3 = v2 * 256 + zeichenwert(s, -4);
    let v4 = v3 * 256 + zeichenwert(s, 18);
    let v5 = v4 * 256 + zeichenwert(s, 0);
    v5 * 256 + zeichenwert(s, 6)
}


/// Die Einträge, nach der Kennzahl ihres Schlüssels aufsteigend geordnet:
/// an `k`-ter Stelle steht der Eintrag `REIHUNG[k]`.
const REIHUNG: [usize; 210] = [
    99, 100, 98, 6, 4, 97, 206, 2, 23, 32, 42, 22, 7, 11, 0, 207, 13, 33, 204, 34, 56, 62, 50, 54, 9, 17, 124, 5, 101, 102,
    24, 121, 8, 12, 59, 41, 3, 61, 51, 28, 119, 109, 106, 118, 104, 120, 105, 35, 40, 73, 10, 126, 63, 66, 103, 14, 122, 203, 125, 209,
    26, 21, 38, 44, 43, 36, 205, 79, 67, 65, 123, 15, 1, 57, 55, 25, 31, 107, 37, 27, 69, 58, 19, 64, 18, 20, 47, 68, 208, 60,
    48, 29, 30, 71, 112, 84, 111, 191, 39, 82, 74, 70, 46, 72, 53, 49, 189, 95, 187, 110, 179, 52, 96, 113, 117, 108, 193, 183, 141, 83,
    177, 16, 139, 75, 181, 93, 76, 90, 115, 77, 81, 80, 87, 94, 157, 89, 88, 143, 192, 78, 171, 85, 173, 114, 86, 149, 133, 188, 190, 180,
    91, 127, 201, 199, 155, 45, 142, 194, 184, 175, 137, 151, 131, 116, 159, 153, 185, 178, 140, 182, 167, 165, 135, 195, 129, 161, 145, 197, 169, 163,
    158, 172, 174, 144, 92, 150, 134, 128, 200, 202, 176, 138, 152, 132, 156, 160, 154, 186, 168, 166, 136, 196, 130, 162, 198, 146, 147, 170, 164, 148,
];

/// Die Stelle jedes Eintrags in [`REIHUNG`].
const STELLE: [usize; 210] = [
    14, 72, 7, 36, 4, 27, 3, 12, 32, 24, 50, 13, 33, 16, 55, 71, 121, 25, 84, 82, 85, 61, 11, 8, 30, 75, 60, 79, 39, 91,
    92, 76, 9, 17, 19, 47, 65, 78, 62, 98, 48, 35, 10, 64, 63, 155, 102, 86, 90, 105, 22, 38, 111, 104, 23, 74, 20, 73, 81, 34,
    89, 37, 21, 52, 83, 69, 53, 68, 87, 80, 101, 93, 103, 49, 100, 123, 126, 129, 139, 67, 131, 130, 99, 119, 95, 141, 144, 132, 136, 135,
    127, 150, 184, 125, 133, 107, 112, 5, 2, 0, 1, 28, 29, 54, 44, 46, 42, 77, 115, 41, 109, 96, 94, 113, 143, 128, 163, 114, 43, 40,
    45, 31, 56, 70, 26, 58, 51, 151, 187, 174, 202, 162, 193, 146, 186, 172, 200, 160, 191, 122, 168, 118, 156, 137, 183, 176, 205, 206, 209, 145,
    185, 161, 192, 165, 196, 154, 194, 134, 180, 164, 195, 175, 203, 179, 208, 171, 199, 170, 198, 178, 207, 140, 181, 142, 182, 159, 190, 120, 167, 110,
    149, 124, 169, 117, 158, 166, 197, 108, 147, 106, 148, 97, 138, 116, 157, 173, 201, 177, 204, 153, 188, 152, 189, 57, 18, 66, 6, 15, 88, 59,
];

proof fn lemma_reihung_0(k: int)
    requires
        0 <= k < 15,
    ensures
        kennzahl(ENTRIES[REIHUNG[k] as int].0@) < kennzahl(ENTRIES[REIHUNG[k + 1] as int].0@),
{
    reveal_strlit("log.hint");
    reveal_strlit("log.none");
    reveal_strlit("log.open");
    reveal_strlit("nav.back");
    reveal_strlit("nav.about");
    reveal_strlit("log.title");
    reveal_strlit("cli.total");
    reveal_strlit("app.start");
    reveal_strlit("disk.free");
    reveal_strlit("risk.safe");
    reveal_strlit("status.ok");
    reveal_strlit("disk.title");
    reveal_strlit("home.title");
    reveal_strlit("home.clean");
    reveal_strlit("app.tagline");
    reveal_strlit("cli.aborted");
    assert(k == 0 || k == 1 || k == 2 || k == 3 || k == 4 || k == 5 || k == 6 || k == 7 || k == 8 || k == 9 || k == 10 || k == 11 || k == 12 || k == 13 || k == 14);
}

proof fn lemma_reihung_1(k: int)
    requires
        15 <= k < 30,
    ensures
        kennzahl(ENTRIES[REIHUNG[k] as int].0@) < kennzahl(ENTRIES[REIHUNG[k + 1] as int].0@),
{
    reveal_strlit("cli.aborted");
    reveal_strlit("home.cancel");
    reveal_strlit("risk.notice");
    reveal_strlit("cli.scanning");
    reveal_strlit("risk.caution");
    reveal_strlit("clean.denied");
    reveal_strlit("admin.failed");
    reveal_strlit("clean.failed");
    reveal_strlit("clean.locked");
    reveal_strlit("home.analyze");
    reveal_strlit("home.dry_run");
    reveal_strlit("about.system");
    reveal_strlit("nav.settings");
    reveal_strlit("confirm.title");
    reveal_strlit("confirm.intro");
    reveal_strlit("disk.of_total");
    assert(k == 15 || k == 16 || k == 17 || k == 18 || k == 19 || k == 20 || k == 21 || k == 22 || k == 23 || k == 24 || k == 25 || k == 26 || k == 27 || k == 28 || k == 29);
}

proof fn lemma_reihung_2(k: int)
    requires
        30 <= k < 45,
    ensures
        kennzahl(ENTRIES[REIHUNG[k] as int].0@) < kennzahl(ENTRIES[REIHUNG[k + 1] as int].0@),
{
    reveal_strlit("disk.of_total");
    reveal_strlit("about.made_in");
    reveal_strlit("home.subtitle");
    reveal_strlit("home.cleaning");
    reveal_strlit("admin.restart");
    reveal_strlit("status.failed");
    reveal_strlit("nav.dashboard");
    reveal_strlit("admin.already");
    reveal_strlit("clean.summary");
    reveal_strlit("category.apps");
    reveal_strlit("settings.saved");
    reveal_strlit("settings.theme");
    reveal_strlit("settings.title");
    reveal_strlit("settings.close");
    reveal_strlit("confirm.accept");
    reveal_strlit("about.subtitle");
    assert(k == 30 || k == 31 || k == 32 || k == 33 || k == 34 || k == 35 || k == 36 || k == 37 || k == 38 || k == 39 || k == 40 || k == 41 || k == 42 || k == 43 || k == 44);
}

proof fn lemma_reihung_3(k: int)
    requires
        45 <= k < 60,
    ensures
        kennzahl(ENTRIES[REIHUNG[k] as int].0@) < kennzahl(ENTRIES[REIHUNG[k + 1] as int].0@),
{
    reveal_strlit("about.subtitle");
    reveal_strlit("confirm.cancel");
    reveal_strlit("risk.safe.hint");
    reveal_strlit("status.skipped");
    reveal_strlit("uninstall.done");
    reveal_strlit("home.analyzing");
    reveal_strlit("about.admin_no");
    reveal_strlit("uninstall.title");
    reveal_strlit("uninstall.count");
    reveal_strlit("confirm.warning");
    reveal_strlit("home.select_all");
    reveal_strlit("about.technical");
    reveal_strlit("cli.description");
    reveal_strlit("about.admin_yes");
    reveal_strlit("cli.confirm_yes");
    reveal_strlit("category.system");
    assert(k == 45 || k == 46 || k == 47 || k == 48 || k == 49 || k == 50 || k == 51 || k == 52 || k == 53 || k == 54 || k == 55 || k == 56 || k == 57 || k == 58 || k == 59);
}

proof fn lemma_reihung_4(k: int)
    requires
        60 <= k < 75,
    ensures
        kennzahl(ENTRIES[REIHUNG[k] as int].0@) < kennzahl(ENTRIES[REIHUNG[k + 1] as int].0@),
{
    reveal_strlit("category.system");
    reveal_strlit("home.found_total");
    reveal_strlit("risk.needs_admin");
    reveal_strlit("skip.needs_admin");
    reveal_strlit("status.cancelled");
    reveal_strlit("risk.notice.hint");
    reveal_strlit("cli.no_selection");
    reveal_strlit("uninstall.failed");
    reveal_strlit("uninstall.remove");
    reveal_strlit("uninstall.search");
    reveal_strlit("about.opensource");
    reveal_strlit("home.select_none");
    reveal_strlit("app.welcome_title");
    reveal_strlit("clean.denied_hint");
    reveal_strlit("clean.locked_hint");
    reveal_strlit("disk.used_percent");
    assert(k == 60 || k == 61 || k == 62 || k == 63 || k == 64 || k == 65 || k == 66 || k == 67 || k == 68 || k == 69 || k == 70 || k == 71 || k == 72 || k == 73 || k == 74);
}

proof fn lemma_reihung_5(k: int)
    requires
        75 <= k < 90,
    ensures
        kennzahl(ENTRIES[REIHUNG[k] as int].0@) < kennzahl(ENTRIES[REIHUNG[k + 1] as int].0@),
{
    reveal_strlit("disk.used_percent");
    reveal_strlit("category.registry");
    reveal_strlit("settings.language");
    reveal_strlit("risk.caution.hint");
    reveal_strlit("category.browsers");
    reveal_strlit("uninstall.confirm");
    reveal_strlit("clean.log_written");
    reveal_strlit("home.nothing_found");
    reveal_strlit("uninstall.subtitle");
    reveal_strlit("home.never_scanned");
    reveal_strlit("home.selected_size");
    reveal_strlit("error.service_stop");
    reveal_strlit("uninstall.removing");
    reveal_strlit("cli.confirm_prompt");
    reveal_strlit("admin.restart_hint");
    reveal_strlit("error.service_start");
    assert(k == 75 || k == 76 || k == 77 || k == 78 || k == 79 || k == 80 || k == 81 || k == 82 || k == 83 || k == 84 || k == 85 || k == 86 || k == 87 || k == 88 || k == 89);
}

proof fn lemma_reihung_6(k: int)
    requires
        90 <= k < 105,
    ensures
        kennzahl(ENTRIES[REIHUNG[k] as int].0@) < kennzahl(ENTRIES[REIHUNG[k + 1] as int].0@),
{
    reveal_strlit("error.service_start");
    reveal_strlit("category.installers");
    reveal_strlit("category.recyclebin");
    reveal_strlit("uninstall.loud_hint");
    reveal_strlit("settings.theme.dark");
    reveal_strlit("uninstall.protected");
    reveal_strlit("settings.theme.light");
    reveal_strlit("target.app.java.name");
    reveal_strlit("risk.suggestion_only");
    reveal_strlit("uninstall.no_command");
    reveal_strlit("uninstall.unverified");
    reveal_strlit("uninstall.quiet_hint");
    reveal_strlit("warn.process_running");
    reveal_strlit("uninstall.needs_admin");
    reveal_strlit("clean.registry_backup");
    reveal_strlit("error.registry_backup");
    assert(k == 90 || k == 91 || k == 92 || k == 93 || k == 94 || k == 95 || k == 96 || k == 97 || k == 98 || k == 99 || k == 100 || k == 101 || k == 102 || k == 103 || k == 104);
}

proof fn lemma_reihung_7(k: int)
    requires
        105 <= k < 120,
    ensures
        kennzahl(ENTRIES[REIHUNG[k] as int].0@) < kennzahl(ENTRIES[REIHUNG[k + 1] as int].0@),
{
    reveal_strlit("error.registry_backup");
    reveal_strlit("target.app.adobe.name");
    reveal_strlit("uninstall.source.user");
    reveal_strlit("target.app.steam.name");
    reveal_strlit("settings.theme.system");
    reveal_strlit("target.app.teams.name");
    reveal_strlit("clean.dry_run_summary");
    reveal_strlit("uninstall.source.store");
    reveal_strlit("settings.confirm_risky");
    reveal_strlit("settings.reset_welcome");
    reveal_strlit("settings.language.hint");
    reveal_strlit("target.app.office.name");
    reveal_strlit("target.app.vscode.name");
    reveal_strlit("target.system.dns.name");
    reveal_strlit("uninstall.windows_only");
    reveal_strlit("target.app.discord.name");
    assert(k == 105 || k == 106 || k == 107 || k == 108 || k == 109 || k == 110 || k == 111 || k == 112 || k == 113 || k == 114 || k == 115 || k == 116 || k == 117 || k == 118 || k == 119);
}

proof fn lemma_reihung_8(k: int)
    requires
        120 <= k < 135,
    ensures
        kennzahl(ENTRIES[REIHUNG[k] as int].0@) < kennzahl(ENTRIES[REIHUNG[k + 1] as int].0@),
{
    reveal_strlit("target.app.discord.name");
    reveal_strlit("home.select_recommended");
    reveal_strlit("target.system.logs.name");
    reveal_strlit("uninstall.not_installed");
    reveal_strlit("target.app.spotify.name");
    reveal_strlit("uninstall.source.machine");
    reveal_strlit("uninstall.user_cancelled");
    reveal_strlit("uninstall.protected.self");
    reveal_strlit("settings.dry_run_default");
    reveal_strlit("uninstall.installer_busy");
    reveal_strlit("uninstall.reboot_started");
    reveal_strlit("uninstall.reboot_required");
    reveal_strlit("uninstall.protected.driver");
    reveal_strlit("uninstall.source.machine32");
    reveal_strlit("target.recyclebin.all.name");
    reveal_strlit("uninstall.protected.system");
    assert(k == 120 || k == 121 || k == 122 || k == 123 || k == 124 || k == 125 || k == 126 || k == 127 || k == 128 || k == 129 || k == 130 || k == 131 || k == 132 || k == 133 || k == 134);
}

proof fn lemma_reihung_9(k: int)
    requires
        135 <= k < 150,
    ensures
        kennzahl(ENTRIES[REIHUNG[k] as int].0@) < kennzahl(ENTRIES[REIHUNG[k + 1] as int].0@),
{
    reveal_strlit("uninstall.protected.system");
    reveal_strlit("uninstall.protected.update");
    reveal_strlit("target.system.prefetch.name");
    reveal_strlit("target.app.java.description");
    reveal_strlit("uninstall.blocked_by_policy");
    reveal_strlit("target.browser.cookies.name");
    reveal_strlit("uninstall.protected.runtime");
    reveal_strlit("target.browser.history.name");
    reveal_strlit("settings.confirm_risky.hint");
    reveal_strlit("uninstall.protected.security");
    reveal_strlit("target.system.fontcache.name");
    reveal_strlit("target.system.inetcache.name");
    reveal_strlit("target.app.steam.description");
    reveal_strlit("target.app.adobe.description");
    reveal_strlit("target.app.teams.description");
    reveal_strlit("uninstall.protected.noremove");
    assert(k == 135 || k == 136 || k == 137 || k == 138 || k == 139 || k == 140 || k == 141 || k == 142 || k == 143 || k == 144 || k == 145 || k == 146 || k == 147 || k == 148 || k == 149);
}

proof fn lemma_reihung_10(k: int)
    requires
        150 <= k < 165,
    ensures
        kennzahl(ENTRIES[REIHUNG[k] as int].0@) < kennzahl(ENTRIES[REIHUNG[k + 1] as int].0@),
{
    reveal_strlit("uninstall.protected.noremove");
    reveal_strlit("target.system.temp.user.name");
    reveal_strlit("target.registry.orphans.name");
    reveal_strlit("target.registry.privacy.name");
    reveal_strlit("target.system.windowsold.name");
    reveal_strlit("skip.needs_explicit_selection");
    reveal_strlit("target.system.dns.description");
    reveal_strlit("target.app.office.description");
    reveal_strlit("target.app.vscode.description");
    reveal_strlit("target.browser.predictor.name");
    reveal_strlit("target.system.crashdumps.name");
    reveal_strlit("target.system.recentdocs.name");
    reveal_strlit("target.system.thumbnails.name");
    reveal_strlit("settings.dry_run_default.hint");
    reveal_strlit("target.browser.edge.cache.name");
    reveal_strlit("target.system.searchcache.name");
    assert(k == 150 || k == 151 || k == 152 || k == 153 || k == 154 || k == 155 || k == 156 || k == 157 || k == 158 || k == 159 || k == 160 || k == 161 || k == 162 || k == 163 || k == 164);
}

proof fn lemma_reihung_11(k: int)
    requires
        165 <= k < 180,
    ensures
        kennzahl(ENTRIES[REIHUNG[k] as int].0@) < kennzahl(ENTRIES[REIHUNG[k + 1] as int].0@),
{
    reveal_strlit("target.system.searchcache.name");
    reveal_strlit("target.app.gpushadercache.name");
    reveal_strlit("target.app.discord.description");
    reveal_strlit("target.system.logs.description");
    reveal_strlit("target.app.spotify.description");
    reveal_strlit("target.browser.opera.cache.name");
    reveal_strlit("target.browser.brave.cache.name");
    reveal_strlit("target.system.errorreports.name");
    reveal_strlit("target.app.packagemanagers.name");
    reveal_strlit("target.system.temp.windows.name");
    reveal_strlit("target.browser.chrome.cache.name");
    reveal_strlit("target.system.windowsupdate.name");
    reveal_strlit("target.installers.downloads.name");
    reveal_strlit("target.browser.vivaldi.cache.name");
    reveal_strlit("target.browser.firefox.cache.name");
    reveal_strlit("target.recyclebin.all.description");
    assert(k == 165 || k == 166 || k == 167 || k == 168 || k == 169 || k == 170 || k == 171 || k == 172 || k == 173 || k == 174 || k == 175 || k == 176 || k == 177 || k == 178 || k == 179);
}

proof fn lemma_reihung_12(k: int)
    requires
        180 <= k < 195,
    ensures
        kennzahl(ENTRIES[REIHUNG[k] as int].0@) < kennzahl(ENTRIES[REIHUNG[k + 1] as int].0@),
{
    reveal_strlit("target.recyclebin.all.description");
    reveal_strlit("target.browser.cookies.description");
    reveal_strlit("target.browser.history.description");
    reveal_strlit("target.system.prefetch.description");
    reveal_strlit("uninstall.protected.no_uninstaller");
    reveal_strlit("target.system.fontcache.description");
    reveal_strlit("target.system.inetcache.description");
    reveal_strlit("target.system.temp.user.description");
    reveal_strlit("target.registry.privacy.description");
    reveal_strlit("target.registry.orphans.description");
    reveal_strlit("target.browser.predictor.description");
    reveal_strlit("target.system.crashdumps.description");
    reveal_strlit("target.system.recentdocs.description");
    reveal_strlit("target.system.thumbnails.description");
    reveal_strlit("target.system.windowsold.description");
    reveal_strlit("target.browser.edge.cache.description");
    assert(k == 180 || k == 181 || k == 182 || k == 183 || k == 184 || k == 185 || k == 186 || k == 187 || k == 188 || k == 189 || k == 190 || k == 191 || k == 192 || k == 193 || k == 194);
}

proof fn lemma_reihung_13(k: int)
    requires
        195 <= k < 209,
    ensures
        kennzahl(ENTRIES[REIHUNG[k] as int].0@) < kennzahl(ENTRIES[REIHUNG[k + 1] as int].0@),
{
    reveal_strlit("target.browser.edge.cache.description");
    reveal_strlit("target.system.searchcache.description");
    reveal_strlit("target.app.gpushadercache.description");
    reveal_strlit("target.browser.opera.cache.description");
    reveal_strlit("target.browser.brave.cache.description");
    reveal_strlit("target.system.errorreports.description");
    reveal_strlit("target.app.packagemanagers.description");
    reveal_strlit("target.system.temp.windows.description");
    reveal_strlit("target.browser.chrome.cache.description");
    reveal_strlit("target.installers.downloads.description");
    reveal_strlit("target.system.windowsupdate.description");
    reveal_strlit("target.system.deliveryoptimization.name");
    reveal_strlit("target.browser.vivaldi.cache.description");
    reveal_strlit("target.browser.firefox.cache.description");
    reveal_strlit("target.system.deliveryoptimization.description");
    assert(k == 195 || k == 196 || k == 197 || k == 198 || k == 199 || k == 200 || k == 201 || k == 202 || k == 203 || k == 204 || k == 205 || k == 206 || k == 207 || k == 208);
}

proof fn lemma_reihung(k: int)
    requires
        0 <= k < ANZAHL - 1,
    ensures
        kennzahl(ENTRIES[REIHUNG[k] as int].0@) < kennzahl(ENTRIES[REIHUNG[k + 1] as int].0@),
{
    if k < 15 {
        lemma_reihung_0(k);
    } else if k < 30 {
        lemma_reihung_1(k);
    } else if k < 45 {
        lemma_reihung_2(k);
    } else if k < 60 {
        lemma_reihung_3(k);
    } else if k < 75 {
        lemma_reihung_4(k);
    } else if k < 90 {
        lemma_reihung_5(k);
    } else if k < 105 {
        lemma_reihung_6(k);
    } else if k < 120 {
        lemma_reihung_7(k);
    } else if k < 135 {
        lemma_reihung_8(k);
    } else if k < 150 {
        lemma_reihung_9(k);
    } else if k < 165 {
        lemma_reihung_10(k);
    } else if k < 180 {
        lemma_reihung_11(k);
    } else if k < 195 {
        lemma_reihung_12(k);
    } else if k < 209 {
        lemma_reihung_13(k);
    }
}

/// Entlang der Reihung steigt die Kennzahl streng.
proof fn lemma_aufsteigend(k1: int, k2: int)
    requires
        0 <= k1 < k2 < ANZAHL,
    ensures
        kennzahl(ENTRIES[REIHUNG[k1] as int].0@) < kennzahl(ENTRIES[REIHUNG[k2] as int].0@),
    decreases k2 - k1,
{
    lemma_reihung(k2 - 1);
    if k1 < k2 - 1 {
        lemma_aufsteigend(k1, k2 - 1);
    }
}

proof fn lemma_eintragsnummer(i: int)
    requires
        0 <= i < ANZAHL,
    ensures
        i == 0 || i == 1 || i == 2 || i == 3 || i == 4 || i == 5 || i == 6 || i == 7 || i == 8 || i == 9 || i == 10 || i == 11 || i == 12 || i == 13 || i == 14 || i == 15 || i == 16 || i == 17 || i == 18 || i == 19 || i == 20 || i == 21 || i == 22 || i == 23 || i == 24 || i == 25 || i == 26 || i == 27 || i == 28 || i == 29 || i == 30 || i == 31 || i == 32 || i == 33 || i == 34 || i == 35 || i == 36 || i == 37 || i == 38 || i == 39 || i == 40 || i == 41 || i == 42 || i == 43 || i == 44 || i == 45 || i == 46 || i == 47 || i == 48 || i == 49 || i == 50 || i == 51 || i == 52 || i == 53 || i == 54 || i == 55 || i == 56 || i == 57 || i == 58 || i == 59 || i == 60 || i == 61 || i == 62 || i == 63 || i == 64 || i == 65 || i == 66 || i == 67 || i == 68 || i == 69 || i == 70 || i == 71 || i == 72 || i == 73 || i == 74 || i == 75 || i == 76 || i == 77 || i == 78 || i == 79 || i == 80 || i == 81 || i == 82 || i == 83 || i == 84 || i == 85 || i == 86 || i == 87 || i == 88 || i == 89 || i == 90 || i == 91 || i == 92 || i == 93 || i == 94 || i == 95 || i == 96 || i == 97 || i == 98 || i == 99 || i == 100 || i == 101 || i == 102 || i == 103 || i == 104 || i == 105 || i == 106 || i == 107 || i == 108 || i == 109 || i == 110 || i == 111 || i == 112 || i == 113 || i == 114 || i == 115 || i == 116 || i == 117 || i == 118 || i == 119 || i == 120 || i == 121 || i == 122 || i == 123 || i == 124 || i == 125 || i == 126 || i == 127 || i == 128 || i == 129 || i == 130 || i == 131 || i == 132 || i == 133 || i == 134 || i == 135 || i == 136 || i == 137 || i == 138 || i == 139 || i == 140 || i == 141 || i == 142 || i == 143 || i == 144 || i == 145 || i == 146 || i == 147 || i == 148 || i == 149 || i == 150 || i == 151 || i == 152 || i == 153 || i == 154 || i == 155 || i == 156 || i == 157 || i == 158 || i == 159 || i == 160 || i == 161 || i == 162 || i == 163 || i == 164 || i == 165 || i == 166 || i == 167 || i == 168 || i == 169 || i == 170 || i == 171 || i == 172 || i == 173 || i == 174 || i == 175 || i == 176 || i == 177 || i == 178 || i == 179 || i == 180 || i == 181 || i == 182 || i == 183 || i == 184 || i == 185 || i == 186 || i == 187 || i == 188 || i == 189 || i == 190 || i == 191 || i == 192 || i == 193 || i == 194 || i == 195 || i == 196 || i == 197 || i == 198 || i == 199 || i == 200 || i == 201 || i == 202 || i == 203 || i == 204 || i == 205 || i == 206 || i == 207 || i == 208 || i == 209,
{
}

/// [`STELLE`] kehrt [`REIHUNG`] um.
proof fn lemma_stelle(i: int)
    requires
        0 <= i < ANZAHL,
    ensures
        STELLE[i] < ANZAHL,
        REIHUNG[STELLE[i] as int] == i,
{
    lemma_eintragsnummer(i);
}

/// Verschiedene Katalogeinträge haben verschiedene Schlüssel.
pub proof fn schluessel_sind_eindeutig(i: int, j: int)
    requires
        0 <= i < ANZAHL,
        0 <= j < ANZAHL,
        i != j,
    ensures
        ENTRIES[i].0@ != ENTRIES[j].0@,
{
    lemma_stelle(i);
    lemma_stelle(j);
    let a = STELLE[i] as int;
    let b = STELLE[j] as int;
    if a < b {
        lemma_aufsteigend(a, b);
    } else {
        lemma_aufsteigend(b, a);
    }
}

proof fn lemma_eintrag_ab(i: int, j: int)
    requires
        0 <= j <= i < ANZAHL,
    ensures
        eintrag_ab(ENTRIES[i].0@, j) == Some(i),
    decreases i - j,
{
    if j < i {
        schluessel_sind_eindeutig(j, i);
        lemma_eintrag_ab(i, j + 1);
    }
}

/// Jeder Schlüssel des Katalogs führt auf seinen eigenen Eintrag.
pub proof fn eintrag_jedes_schluessels(i: int)
    requires
        0 <= i < ANZAHL,
    ensures
        eintrag(ENTRIES[i].0@) == Some(i),
{
    lemma_eintrag_ab(i, 0);
}

// ---------------------------------------------------------------------------
// Gesetze
// ---------------------------------------------------------------------------

/// Jede andere Sprache als Deutsch erhält den englischen Text: eine
/// unbekannte Sprache fällt auf Englisch zurück.
pub proof fn law_unbekannte_sprache_ist_englisch(lang: Seq<char>, key: Seq<char>)
    requires
        !ist_deutsch(lang),
    ensures
        text(lang, key) == text("en"@, key),
{
    reveal_strlit("en");
    reveal_strlit("de");
    assert(zeichen::klein_folge("en"@) =~= "en"@);
    assert(zeichen::klein_folge("de"@) =~= "de"@);
    assert(zeichen::klein_folge("en"@)[0] != zeichen::klein_folge("de"@)[0]);
    assert(!ist_deutsch("en"@));
}

/// Ein Schlüssel ohne Katalogeintrag gibt sich selbst zurück, in jeder
/// Sprache.
pub proof fn law_unbekannter_schluessel(lang: Seq<char>, key: Seq<char>)
    requires
        eintrag(key) is None,
    ensures
        text(lang, key) == key,
{
}

/// Die Normalisierung liefert immer eine unterstützte Sprache.
pub proof fn law_normalisiert_ist_unterstuetzt(lang: Seq<char>)
    ensures
        unterstuetzt(normalisiert(lang)),
{
    let basis = zeichen::klein_folge(vor_trenner(lang));
    if !unterstuetzt(basis) {
        reveal_strlit("en");
        assert(zeichen::klein_folge("en"@) =~= "en"@);
        assert(gleich_ohne_gross(LANGUAGES[1].0@, FALLBACK@));
    }
}

/// Ohne Argumente bleibt der Text unverändert.
pub proof fn law_format_ohne_argumente(lang: Seq<char>, key: Seq<char>)
    ensures
        gefuellt(text(lang, key), argumente(Seq::<&str>::empty())) == text(lang, key),
{
    assert(argumente(Seq::<&str>::empty()) =~= Seq::<Seq<char>>::empty());
}

} // verus!
