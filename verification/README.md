# Adept - Shop Titans Combat Simulator

Adept runs "studies": for a hero of a team, it tries every combination of
skills for the skill slots that are not preset, simulates many fights of the
team in a dungeon for each combination, and writes the results to CSV sheets.

## Layout

- `src/` is the verified library (Verus). It holds the logic that decides
  what is simulated:
  - `combinations`: counting combinations and finding the combination at a
    given position of the descending lexicographic list, with proofs that
    positions and combinations correspond one to one, that a position is the
    combinadic sum of counts, and that positions follow lexicographic order;
  - `dockets`: the study docket rows, their validation, and the reading of a
    row's team, dungeons and skills into a study plan;
  - `studies`: the walk through the skill combinations of a study;
  - `hero_builder`, `gear`: skill tiers, innate tiers, element points and the
    gear tables of the hero builder;
  - `heroes`, `dungeons`, `equipment`: archetypes, team bookkeeping, difficulty
    and miniboss settings, the draw of an encounter;
  - `lookup`, `text`, `deserialize`, `reports`, `simulations`: name tables,
    string handling, boolean spellings, skill abbreviations and per-slot
    results.
- `app/` is the command-line program: it loads the data files, runs the
  fights (whose statistics are real numbers) and writes the result sheets.
- `tests/` holds the library's tests.

Run `adept [study docket path]` from the directory that holds `adept_data/`.
