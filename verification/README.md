# actuary

A terminal game that teaches actuarial pricing one chapter at a time: set
the premium of a home policy, simulate the years, and see whether the
company thrives.

## Layout

- `src/` — the library, verified with Verus:
  - `progress` — completed chapters and which chapters are unlocked;
  - `scenarios` — the chapter list, the scenario of each playable chapter,
    the books of policies, and the rules that decide whether a chapter is
    passed (`chapter1`, `chapter2`);
  - `engine` — perils, policies and the claims of a simulated year, drawn
    with `rand`;
  - `app` — the screens and how they answer keys, as a state machine that
    asks the front end for the work it cannot do itself;
  - `number` — reading the number of policies typed by the player;
  - `ui` — money text, menu marks, the input boxes, the hint window and
    the feedback marks;
  - `strings` — contracts for the `String` methods that the library calls.
- `app/` — the terminal front end: the main loop (crossterm), drawing
  (ratatui), saving progress (serde_json, dirs), and the money side of the
  simulation and of the feedback, which is floating point.
- `tests/` — tests of the library.

Rates in the scenarios are exact decimals in basis points, property values
are in cents and claims in millionths of a dollar (a value in cents times a
severity in basis points), so every loss is exact; the front end turns them
into floating point where it computes.
