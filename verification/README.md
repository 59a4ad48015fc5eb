# UDF Resimcisi

Puts photos, scans and screenshots into a UYAP `.udf` document at full resolution, so that
the UYAP document editor's own down-sampling of inserted pictures never runs.

- `src/` is the library, verified with Verus: the document model and its `content.xml`
  serialisation (`udf/`), the page geometry, the ZIP packaging, picture preparation
  (`image_io`), the list of loaded pictures and the document built from it, file naming,
  version comparison and the update decision (`commands`), settings (`settings`) and the
  editor-related decisions (`ude`). `udf/ozellikler.rs` and the proof functions in
  `commands.rs` state the library's laws.
- `tests/` runs the library on concrete values.
- `app/` is the Tauri program around it: the commands the interface calls, the settings
  file, the clipboard, the network and, on Windows, the editor's windows.
