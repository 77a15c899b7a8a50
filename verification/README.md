# zundux_tts

A text-to-speech virtual microphone for VRChat on Linux desktops: text is
synthesised by VOICEVOX or Voiceger (GPT-SoVITS) and played into a PulseAudio
null sink whose monitor is exposed as a virtual microphone.

## Layout

- `src/` — the library, verified with Verus. It holds the logic of the
  application as functions with contracts:
  - `validation`, `config` — device names, engine URLs, configuration
    sanitising, speaker presets, the Voiceger launch command, autostart entry;
  - `launch`, `app` — checking the VOICEVOX command line (local or `docker run`),
    the engine-launch state machine, silent-word stripping, health-check timing,
    name ordering of soundboard files and dictionary entries;
  - `audio`, `media`, `pactl` — the `pactl` operations that create and tear down
    the virtual device, route the microphone and capture application streams,
    written as state machines that return the next command and take back its
    outcome; playback commands; PCM decoding for loudness analysis; the URL player
    pipeline;
  - `tts` — VOICEVOX and Voiceger requests, the reference-free decision, the
    dictionary text conversions;
  - `ui` — display shortening, colour hex parsing and formatting, settings inputs;
  - `osc` — the VRChat chatbox OSC message;
  - `text` — string specifications and helpers shared by the above.
- `app/` — the program around the library: the egui user interface, running
  `pactl`, `ffmpeg`, `paplay` and `docker`, HTTP requests to the engines, the
  configuration file, and the floating-point audio code (echo, loudness).
- `tests/` — tests of the library's public functions.
