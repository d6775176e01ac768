# powertools

The back-end of PowerTools, a plugin that tunes the power settings of the Steam Deck and
other AMD handhelds: CPU cores and SMT, CPU and GPU clock limits, GPU power limits, the
battery charge rate and mode, and per-game profiles of these settings.

The library in `src/` is written and proved with Verus. It holds the settings logic:

- `limits`, `persist`: the device limits file and the persisted profiles, as plain data.
- `settings`: the drivers of each part (Steam Deck, generic, generic AMD, unknown), device
  detection from the limits configs, and the plans of writes that apply the settings.
  Drivers do not touch the system; they return the writes to make, and take what was read.
- `api`: the requests the front-end makes, how each one changes the settings and what it
  answers, and the developer messages.

`app/` is the program around the library: it reads the system, runs the web methods and the
settings worker, makes the planned writes, and talks to RyzenAdj.
