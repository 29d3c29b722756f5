# self_cmd

Personal command-line helpers (`cm`): docker registry login, kubectl
configuration switching, clipboard sharing, and v2fly / clash subscription
decoding.

- `src/` is the library, verified with Verus: subscription decoding
  (`subscription`, `v2fly`, `clash`), the text routines they rest on
  (`text`, `numbers`), the outbounds document model (`v2fly_config`) and its JSON layout
  (`json`), the
  picker's selection list (`ui`) and command resolution (`commands`).
- `app/` is the program around it: command-line parsing, configuration
  loading, HTTP, the terminal picker, the clipboard server, reading vmess
  bodies with serde, and handing the library's JSON to `serde_json`.
- `tests/` runs the library on concrete inputs.
