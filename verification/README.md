# brausi

A lightweight terminal browser controller: it runs Chromium inside an `Xvfb`
display, shows the display in the terminal through `scrot` and `chafa`, and
sends input through `xdotool`.

The library in `src/` is verified with Verus:

- `text`: whitespace trimming, decimal numbers both ways, joining words;
- `cli`: the command line;
- `config`: the configuration read from the environment variables;
- `process`: pid files, the status report, coordinate and liveness checks;
- `commands`: how each helper program is called, and the failure messages;
  the render area given to chafa is the one `BRAUSI_RENDER_COLS` and
  `BRAUSI_RENDER_LINES` force (both positive numbers; `auto` or unset forces
  none), else the terminal's `COLUMNS` and `LINES`, else 80x24;
- `session`: each command as a sequence of steps, decided one at a time;
- `laws`: properties that hold across commands and steps.

`app/main.rs` is the program: it reads the arguments and the environment,
then performs each action the session asks for (files, processes, sleeping,
printing) and hands the outcome back.
