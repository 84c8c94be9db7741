# youtrack_tools

A command-line client for the YouTrack REST API: list, describe and create
custom fields and their bundle values, and list and describe projects.

- `src/` is the verified library. It builds every request (URL, query,
  JSON body), interprets every answer (status, lookup by name, project
  resolution, bundle endpoints), and renders every line of output (tables and
  descriptions). Each command is a step function: from its arguments and the
  answers received so far it returns the lines to print and the next request,
  the end, or the error.
- `app/` is the program: it parses the command line, reads the environment,
  sends the requests with `reqwest`, parses the JSON answers with `serde`,
  hands them back to the step functions, and prints.
- `tests/` runs the library on concrete values.
