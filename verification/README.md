# smoothie

The verified core of Smoothie, a tool that smooths gameplay footage by piping
VapourSynth's output into FFmpeg.

- `src/` is the library, checked by Verus:
  - `cli`: the options of a run, what the first word of the command line asks
    for, and the text of the crash dialog;
  - `replay`: the file that records a run's arguments for `--rerun`, with the
    proof that arguments come back as they were written;
  - `progress` and `pattern`: following VSPipe's progress report, with the
    regex crate behind two trusted wrappers;
  - `render`: the process pipelines of a render job;
  - `text`: character-level helpers (number parsing, path cleanup).
- `app/` is the program around it: clap, files, processes, the progress bar
  and the crash dialog.
- `tests/` runs the library on concrete values.
