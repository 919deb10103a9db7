# lolshorts

The decision logic of a League of Legends highlight recorder, written in Verus
and proved against its contracts.

- `src/` is the verified library: which game events make a clip and under which
  name (`detector`, `live_events`, `clip_rules`), how a clip is scored and ranked
  (`highlight`, `ranking`), which part of the rolling buffer a clip is cut from
  and the FFmpeg command lines that do it (`segments`, `ffmpeg_args`), whether
  recording can start (`readiness`), the recorder's and the game monitor's state
  transitions (`recorder`, `control`, `game_monitor`, `lifecycle`), audio and
  encoder listings (`audio`, `mac`, `mac_audio`) and the text primitives they
  rest on (`text`).
- `tests/` runs the library on concrete values.
- `app/` holds what runs around it: HTTP requests to the League client, the
  FFmpeg processes, the file system, serialised forms of the library's types, and
  the values that are floats outside and integers inside the library.

Times inside the library are integer milliseconds, health is in basis points or
hundredths, and scores are in fixed-point units.
