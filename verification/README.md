# pokefilter

A command-line tool that builds a CSV table of Pokémon facts from the
Pokémon API, one row per Pokémon variety, and reads it back.

- `src/` is the verified library: the table's columns and how each field is
  derived (localized names, stats and totals, evolution stage, category and
  category order), decimal and list encoding with read-back laws, the
  command line as plain data, default paths and error messages.
- `app/` is the program around it: argument parsing with clap, API requests
  with rustemon, file and CSV I/O.
- `tests/` runs the library on concrete values.
