# naughty_attributes

Inspector attributes for Godot scripts, written into the hint strings of
exported properties (`show_if:level > 5;min_value:0;label:Health`).

- `src/` is the library, verified with Verus: the hint-string grammar
  (`annotation`), the attributes and what each reads from its arguments
  (`attributes`, `expressions`), the descriptor of a script's properties
  (`descriptor`), and the inspector's decisions: visibility, editability and
  labels (`property_utils`), clamping (`clamping`), member lookup (`member`),
  merged undo actions (`edit_session`, `property_changes`).
- `app/` is the Godot editor extension around it: it reads scripts from the
  engine, compiles and runs the attributes' expressions with the engine's
  expression language, draws the inspector controls and records undo actions,
  asking the library at every decision.
- `tests/` exercises the library on concrete values.
