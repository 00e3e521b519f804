# haru

A tiny terminal cat companion, as a verified library and a thin program.

- `src/state.rs`: the save-file state, the daily roll-over (`State::advance`),
  the mood, and the laws that hold over runs of visits.
- `src/text.rs`: trimming, line splitting, placeholder replacement and decimal
  numerals, each proved against a spec over `Seq<char>`.
- `src/lang.rs`, `src/packs.rs`: the built-in language packs, choosing a
  language from the override, `HARU_LANG` and the locale, and reading a pack.
- `src/render.rs`: the summon, pat, feed and status screens, and the screen
  for each action.
- `src/cats.rs`, `src/sounds.rs`, `src/random.rs`: the cats, the noises, and the
  one trusted call to `rand`.
- `src/cli.rs`: which action a set of flags asks for.
- `app/main.rs`: argument parsing (clap), the locale (sys-locale), the clock
  (chrono) and the save file (directories, serde_json).
