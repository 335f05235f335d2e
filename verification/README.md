# braess_experiments

Tooling for the Braess-network experiments, as a verified library and the programs
around it.

- `src/` is the library, verified with Verus: the bash scripts that the experiment
  machine runs per module (`config`, `modules`, `bash_utils`), placeholder handling in
  path patterns (`utils`, `runners`), the per-vehicle bookkeeping of simulation events and
  the travel time and summed departures tables built from it (`event_extraction`,
  `trip_tables`), the rewriting of event lines with dummy coordinates
  (`activity_dummy_coordinates`), the replacement of activity end times in a population
  (`activity_time_replacement`), and the checks of a CSV column renaming
  (`csv_column_renaming`). `text`, `str_map`, `int_map` and `yaml` hold the text
  operations, maps and YAML values these are stated over.
- `tests/` runs the library on concrete values.
- `app/` holds the command-line programs: reading and writing YAML, CSV and event files,
  starting bash, logging, and the calls into the simulation crate.
