# masir

Focus follows the mouse on Windows, with its decisions verified by Verus.

`src/` is the library. It makes no system call that waits for or changes anything. The program
in `app/` does that: it asks a machine of the library what to do next, does it, and hands back
what came of it.

- `movement`: the machine that follows the mouse, one request and one answer at a time
- `movement_laws`, `run_laws`: what holds of it over whole movements and whole runs
- `caches`: what is remembered of windows for up to ten minutes
- `eligibility`, `matching`, `window`: which windows may get the focus, and lose it
- `listing`: the numbers in a window manager's list of windows
- `hotkey`: the machine that switches following the mouse on and off
- `tracking`: setting up the system's own focus-follows-mouse, and putting it back
- `startup`: where a window manager's list of windows is looked for
- `windows_result`, `text`: results and texts of system calls

The program runs with `--no-raise` to leave focus to the system, with `--hwnds` to name the
list of a window manager, and with `--disable-integrations` to use none by itself. Alt and A
together switch following the mouse off and on.
