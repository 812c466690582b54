# cad_app

The decisions behind the windows of a CAD application that draws plans, models buildings and
calculates their light. The library in `src/` holds the state of the application and every step
that changes it: commands, edits and undo, the clipboard and groups, files and their project data,
materials, generators of stairs and furniture, fittings, calculations, renders and reports. Each
step has a contract over a mathematical model of the state, and Verus proves it.

- `src/app.rs` has the whole state, `CadApp`, and its model, `AppView`. Each part of the state has
  a module of its own, with the same pair of a type and a model.
- Lengths, angles and fractions are whole numbers: drawing coordinates are millionths of a unit,
  places in the model are micrometres, angles are millionths of a degree.
- What a file, a worker or the geometry kernel came to is handed in as a plain value; what has to
  be done outside is handed back as an action.
- Public proof functions state what holds across steps, such as that undo takes an edit back.
- Three calls into outside crates are trusted: base64 text in `src/project.rs`, and the resizing
  and JPEG encoding of pictures in `src/pictures.rs`.

`app/` draws the windows with egui, reads and writes the files and runs the workers. What the
drawing kernel, the solid modeller, the light engine and the file formats do, it asks of a `Host`.

`tests/` runs the library on concrete values.
