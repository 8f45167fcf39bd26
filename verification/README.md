# Plane

Ein schlanker PC-Cleaner für Windows: analysieren, auswählen, bereinigen.
Die Regeln dahinter stehen als mit Verus verifizierte Bibliothek in `src/`,
das Programm drumherum in `app/`.

## Aufbau

- `src/` – die Bibliothek `plane`, vollständig verifiziert:
  - `engine/` – Zielkatalog, Analyse- und Bereinigungsregeln, Schutz von
    Pfaden, Registry-Schlüsseln und Programmen, Tweaks samt Journal,
    Versionsprüfung, Protokollzeilen, Installationsdateien, Papierkorb.
  - `cli/` – Argumente, Tabellen, Texte, Farben, Fortschrittszeile und die
    Zustandsmaschine der Textoberfläche.
  - `i18n.rs`, `state.rs`, `commands.rs`, `zeichen.rs` – Übersetzungen,
    Anwendungszustand, was die Oberfläche abfragt, und Zeichenfolgen.
- `app/` – `plane-cli`: Kommandozeile (`clap`), Dateisystem und Prozesse,
  Terminal und Zeichnen der Textoberfläche (`crossterm`, `ratatui`),
  JSON-Ausgabe (`serde`), die Abfrage bei GitHub (`ureq`).
- `tests/` – Tests der Bibliothek.

Die Verträge der Bibliothek beschreiben, was jede Funktion liefert; die
öffentlichen Beweisfunktionen halten fest, was über alle Eingaben gilt –
etwa dass riskante Ziele nie vorausgewählt sind, geschützte Programme nie
deinstalliert werden oder kein Tweak die Bereiche von Windows Update,
Defender, Diensten, BitLocker und Anmeldung berührt.
